//! The status word, the catalogs, and the named bandwidth values.

use dvb::frontend::data::FeCodeRate;
use dvb::frontend::data::FeGuardInterval;
use dvb::frontend::data::FeSpectralInversion;
use dvb::frontend::data::FeStatus;
use dvb::frontend::data::FeTransmitMode;
use dvb::frontend::property::Command;
use dvb::frontend::property::PayloadKind;
use dvb::frontend::set::BandwidthHz;
use dvb::frontend::set::SetPropertyQuery;
use dvb::frontend::property::DtvPropertyUnion;
use dvb::IOCTL_TYPE;

#[test]
fn fresh_status_has_no_flags() {
    let status = FeStatus::from(0);
    assert!(status.none());
    assert!(!status.has_signal());
    assert!(!status.has_lock());
}

#[test]
fn each_status_bit_reads_its_flag() {
    assert!(FeStatus::from(1).has_signal());
    assert!(FeStatus::from(2).has_carrier());
    assert!(FeStatus::from(4).has_viterbi());
    assert!(FeStatus::from(8).has_sync());
    assert!(FeStatus::from(16).has_lock());
    assert!(FeStatus::from(32).timed_out());
    assert!(FeStatus::from(64).reinit());
}

#[test]
fn combined_status_bits_read_independently() {
    let status = FeStatus::from(1 | 2 | 16);
    assert!(!status.none());
    assert!(status.has_signal());
    assert!(status.has_carrier());
    assert!(!status.has_viterbi());
    assert!(status.has_lock());
    assert!(!status.timed_out());
}

#[test]
fn bandwidth_names_resolve_to_their_hertz() {
    assert_eq!(BandwidthHz::_1_172MHz.value(), 1712000);
    assert_eq!(BandwidthHz::_5MHz.value(), 5000000);
    assert_eq!(BandwidthHz::_6MHz.value(), 6000000);
    assert_eq!(BandwidthHz::_7MHz.value(), 7000000);
    assert_eq!(BandwidthHz::_8MHz.value(), 8000000);
    assert_eq!(BandwidthHz::_10MHz.value(), 10000000);
}

#[test]
fn bandwidth_setting_carries_its_hertz() {
    let entry = BandwidthHz::_8MHz.property();
    assert_eq!(entry.cmd, 5);
    assert!(matches!(entry.u, DtvPropertyUnion::Data(8000000)));
}

#[test]
fn command_ids_match_the_kernel_catalog() {
    assert_eq!(Command::DTV_UNDEFINED.id(), 0);
    assert_eq!(Command::DTV_TUNE.id(), 1);
    assert_eq!(Command::DTV_FREQUENCY.id(), 3);
    assert_eq!(Command::DTV_DELIVERY_SYSTEM.id(), 17);
    assert_eq!(Command::DTV_ENUM_DELSYS.id(), 44);
    assert_eq!(Command::DTV_STAT_SIGNAL_STRENGTH.id(), 62);
    assert_eq!(Command::DTV_STAT_TOTAL_BLOCK_COUNT.id(), 69);
    assert_eq!(Command::DTV_SCRAMBLING_SEQUENCE_INDEX.id(), 70);
}

#[test]
fn parameter_catalog_ids_match_the_kernel() {
    assert_eq!(FeSpectralInversion::INVERSION_AUTO.id(), 2);
    assert_eq!(FeCodeRate::FEC_NONE.id(), 0);
    assert_eq!(FeCodeRate::FEC_7_15.id(), 32);
    assert_eq!(FeGuardInterval::GUARD_INTERVAL_1_64.id(), 11);
    assert_eq!(FeTransmitMode::TRANSMISSION_MODE_C3780.id(), 8);
}

#[test]
fn ioctl_type_byte_is_the_tuner_class() {
    assert_eq!(IOCTL_TYPE, b'o');
}

#[test]
fn commands_name_their_payload_interpretation() {
    assert_eq!(Command::DTV_FREQUENCY.payload_kind(), PayloadKind::Scalar);
    assert_eq!(Command::DTV_TUNE.payload_kind(), PayloadKind::Scalar);
    assert_eq!(Command::DTV_ENUM_DELSYS.payload_kind(), PayloadKind::Buffer);
    assert_eq!(
        Command::DTV_STAT_SIGNAL_STRENGTH.payload_kind(),
        PayloadKind::Stats
    );
    assert_eq!(
        Command::DTV_STAT_TOTAL_BLOCK_COUNT.payload_kind(),
        PayloadKind::Stats
    );
    assert_eq!(
        Command::DTV_SCRAMBLING_SEQUENCE_INDEX.payload_kind(),
        PayloadKind::Scalar
    );
}
