//! Decoding of scale-tagged samples and of the delivery-system buffer.

use dvb::frontend::data::FeDeliverySystem;
use dvb::frontend::data::FeModulation;
use dvb::frontend::get::PropertyQuery;
use dvb::frontend::get::EnumerateDeliverySystems;
use dvb::frontend::get::StatResult;
use dvb::frontend::get::ValueStat;
use dvb::frontend::property::DtvPropertyABuffer;
use dvb::frontend::property::DtvPropertyUnion;
use dvb::frontend::property::DtvStatsValue;
use dvb::frontend::property::FeCapScaleParams;

#[test]
fn scale_not_available_decodes_to_no_value() {
    let r = StatResult::from(
        FeCapScaleParams::FE_SCALE_NOT_AVAILABLE,
        DtvStatsValue { bits: 12345 },
    );
    assert!(r.is_none());
}

#[test]
fn scale_decibel_preserves_signed_bits() {
    // -31500 (i.e. -31.5 dB) stored as two's complement bits
    let bits = (-31500i64) as u64;
    let r = StatResult::from(FeCapScaleParams::FE_SCALE_DECIBEL, DtvStatsValue { bits });
    assert_eq!(r, Some(StatResult::Value(ValueStat::Decibel(-31500))));
}

#[test]
fn scale_relative_preserves_unsigned_bits() {
    let r = StatResult::from(
        FeCapScaleParams::FE_SCALE_RELATIVE,
        DtvStatsValue { bits: 65535 },
    );
    assert_eq!(r, Some(StatResult::Value(ValueStat::Relative(65535))));
}

#[test]
fn scale_counter_preserves_unsigned_bits() {
    let r = StatResult::from(
        FeCapScaleParams::FE_SCALE_COUNTER,
        DtvStatsValue { bits: u64::MAX },
    );
    assert_eq!(r, Some(StatResult::Count(u64::MAX)));
}

#[test]
fn sample_bits_round_trip_through_signed_read() {
    let value = DtvStatsValue::from_svalue(-1);
    assert_eq!(value.bits, u64::MAX);
    assert_eq!(value.svalue(), -1);
    assert_eq!(value.uvalue(), u64::MAX);
}

#[test]
fn scale_tag_bytes_decode_to_each_scale() {
    assert_eq!(
        FeCapScaleParams::try_from(0),
        Some(FeCapScaleParams::FE_SCALE_NOT_AVAILABLE)
    );
    assert_eq!(
        FeCapScaleParams::try_from(1),
        Some(FeCapScaleParams::FE_SCALE_DECIBEL)
    );
    assert_eq!(
        FeCapScaleParams::try_from(2),
        Some(FeCapScaleParams::FE_SCALE_RELATIVE)
    );
    assert_eq!(
        FeCapScaleParams::try_from(3),
        Some(FeCapScaleParams::FE_SCALE_COUNTER)
    );
}

#[test]
fn unknown_scale_tag_byte_decodes_to_nothing() {
    assert_eq!(FeCapScaleParams::try_from(4), None);
    assert_eq!(FeCapScaleParams::try_from(255), None);
}

fn delsys_buffer(bytes: &[u8]) -> DtvPropertyUnion {
    let mut data = [0u8; 32];
    data[..bytes.len()].copy_from_slice(bytes);
    DtvPropertyUnion::Buffer(DtvPropertyABuffer {
        data,
        len: bytes.len() as u32,
    })
}

#[test]
fn delivery_system_buffer_decodes_ascending() {
    let decoded = EnumerateDeliverySystems::from_property(delsys_buffer(&[3, 4, 5]));
    assert_eq!(
        decoded.0,
        vec![
            FeDeliverySystem::DVBT,
            FeDeliverySystem::DSS,
            FeDeliverySystem::DVBS,
        ]
    );
}

#[test]
fn delivery_system_duplicates_collapse() {
    let decoded = EnumerateDeliverySystems::from_property(delsys_buffer(&[3, 3, 4]));
    assert_eq!(
        decoded.0,
        vec![FeDeliverySystem::DVBT, FeDeliverySystem::DSS]
    );
}

#[test]
fn delivery_system_unordered_buffer_sorts_ascending() {
    let decoded = EnumerateDeliverySystems::from_property(delsys_buffer(&[16, 3, 5, 3, 16]));
    assert_eq!(
        decoded.0,
        vec![
            FeDeliverySystem::DVBT,
            FeDeliverySystem::DVBS,
            FeDeliverySystem::DVBT2,
        ]
    );
}

#[test]
fn delivery_system_empty_buffer_decodes_to_nothing() {
    let decoded = EnumerateDeliverySystems::from_property(delsys_buffer(&[]));
    assert!(decoded.0.is_empty());
}

#[test]
fn delivery_system_ids_round_trip() {
    for id in 0u8..20 {
        let sys = FeDeliverySystem::try_from(id).expect("id below twenty names a system");
        assert_eq!(sys.id(), id as u32);
    }
    assert_eq!(FeDeliverySystem::try_from(20), None);
}

#[test]
fn modulation_ids_round_trip() {
    for id in 0u32..21 {
        let m = FeModulation::try_from(id).expect("id below twenty-one names a modulation");
        assert_eq!(m.id(), id);
    }
    assert_eq!(FeModulation::try_from(21), None);
}
