//! The typed query lifecycle: describe, complete, retrieve.

use dvb::error::DtvError;
use dvb::frontend::get::PropertyQuery;
use dvb::frontend::get::CarrierSignalToNoise;
use dvb::frontend::get::EnumerateDeliverySystems;
use dvb::frontend::get::Frequency;
use dvb::frontend::get::Modulation;
use dvb::frontend::get::SignalStrength;
use dvb::frontend::get::StatResult;
use dvb::frontend::get::SymbolRate;
use dvb::frontend::get::TotalBlockCount;
use dvb::frontend::get::ValueStat;
use dvb::frontend::data::FeModulation;
use dvb::frontend::property::Command;
use dvb::frontend::property::DtvFeStats;
use dvb::frontend::property::DtvProperty;
use dvb::frontend::property::DtvPropertyUnion;
use dvb::frontend::property::DtvStats;
use dvb::frontend::property::DtvStatsValue;
use dvb::frontend::set::SetPropertyQuery;

fn stats_payload(scale: u8, bits: u64) -> DtvPropertyUnion {
    DtvPropertyUnion::St(DtvFeStats {
        len: 1,
        stat: [DtvStats {
            scale,
            value: DtvStatsValue { bits },
        }; 4],
    })
}

#[test]
fn retrieve_before_run_fails_for_frequency() {
    let q = Frequency::query();
    assert!(matches!(q.retrieve(), Err(DtvError::NotRan)));
}

#[test]
fn retrieve_before_run_fails_for_modulation() {
    let q = Modulation::query();
    assert!(matches!(q.retrieve(), Err(DtvError::NotRan)));
}

#[test]
fn retrieve_before_run_fails_for_symbol_rate() {
    let q = SymbolRate::query();
    assert!(matches!(q.retrieve(), Err(DtvError::NotRan)));
}

#[test]
fn retrieve_before_run_fails_for_signal_strength() {
    let q = SignalStrength::query();
    assert!(matches!(q.retrieve(), Err(DtvError::NotRan)));
}

#[test]
fn retrieve_before_run_fails_for_total_block_count() {
    let q = TotalBlockCount::query();
    assert!(matches!(q.retrieve(), Err(DtvError::NotRan)));
}

#[test]
fn retrieve_before_run_fails_for_delivery_systems() {
    let q = EnumerateDeliverySystems::query();
    assert!(matches!(q.retrieve(), Err(DtvError::NotRan)));
}

#[test]
fn negative_entry_result_reports_its_code() {
    let mut q = Frequency::query();
    q.complete(DtvProperty {
        cmd: Command::DTV_FREQUENCY.id(),
        u: DtvPropertyUnion::Data(0),
        result: -1,
    });
    assert!(matches!(q.retrieve(), Err(DtvError::Reported(-1))));
}

#[test]
fn negative_entry_result_reports_other_codes_verbatim() {
    let mut q = SymbolRate::query();
    q.complete(DtvProperty {
        cmd: Command::DTV_SYMBOL_RATE.id(),
        u: DtvPropertyUnion::Data(0),
        result: -22,
    });
    assert!(matches!(q.retrieve(), Err(DtvError::Reported(-22))));
}

#[test]
fn frequency_query_describes_its_command() {
    let q = Frequency::query();
    let d = q.desc();
    assert_eq!(d.command.id(), 3);
    assert_eq!(d.property.cmd, 3);
    assert!(matches!(d.property.u, DtvPropertyUnion::Data(0)));
    assert_eq!(d.property.result, 0);
}

#[test]
fn completed_frequency_query_yields_its_value() {
    let mut q = Frequency::query();
    q.complete(DtvProperty {
        cmd: Command::DTV_FREQUENCY.id(),
        u: DtvPropertyUnion::Data(474000000),
        result: 0,
    });
    let f = q.retrieve().expect("filled entry with zero result decodes");
    assert_eq!(f.0, 474000000);
}

#[test]
fn frequency_setting_round_trips_through_raw_entry() {
    let entry = dvb::frontend::set::Frequency::new(474000000).property();
    assert_eq!(entry.cmd, 3);
    let mut q = Frequency::query();
    q.complete(DtvProperty { result: 0, ..entry });
    let f = q.retrieve().expect("entry built from the setting decodes");
    assert_eq!(f.0, 474000000);
}

#[test]
fn modulation_payload_decodes_to_its_variant() {
    let m = Modulation::from_property(DtvPropertyUnion::Data(5));
    assert!(matches!(m.0, FeModulation::QAM_256));
}

#[test]
fn signal_strength_decodes_decibel_reading() {
    let mut q = SignalStrength::query();
    q.complete(DtvProperty {
        cmd: Command::DTV_STAT_SIGNAL_STRENGTH.id(),
        u: stats_payload(1, (-31500i64) as u64),
        result: 0,
    });
    let s = q.retrieve().expect("one decibel sample decodes");
    assert_eq!(s, SignalStrength(Some(ValueStat::Decibel(-31500))));
}

#[test]
fn signal_strength_decodes_missing_reading() {
    let s = SignalStrength::from_property(stats_payload(0, 7));
    assert_eq!(s, SignalStrength(None));
}

#[test]
fn total_block_count_decodes_counter_reading() {
    let mut q = TotalBlockCount::query();
    q.complete(DtvProperty {
        cmd: Command::DTV_STAT_TOTAL_BLOCK_COUNT.id(),
        u: stats_payload(3, 123456),
        result: 0,
    });
    let c = q.retrieve().expect("one counter sample decodes");
    assert_eq!(c.0, Some(123456));
}

#[test]
fn total_block_count_decodes_missing_reading() {
    let c = TotalBlockCount::from_property(stats_payload(0, 0));
    assert!(c.0.is_none());
}

#[test]
fn stat_decoding_distinguishes_zero_from_missing() {
    let missing = StatResult::from(
        dvb::frontend::property::FeCapScaleParams::FE_SCALE_COUNTER,
        DtvStatsValue { bits: 0 },
    );
    assert_eq!(missing, Some(StatResult::Count(0)));
    let none = StatResult::from(
        dvb::frontend::property::FeCapScaleParams::FE_SCALE_NOT_AVAILABLE,
        DtvStatsValue { bits: 0 },
    );
    assert!(none.is_none());
}

#[test]
fn relative_readings_order_totally() {
    let a = ValueStat::Relative(100);
    let b = ValueStat::Relative(200);
    assert_eq!(a.partial_cmp(&b), Some(std::cmp::Ordering::Less));
    assert_eq!(b.partial_cmp(&a), Some(std::cmp::Ordering::Greater));
    assert_eq!(a.partial_cmp(&a), Some(std::cmp::Ordering::Equal));
}

#[test]
fn decibel_readings_stay_incomparable() {
    let a = ValueStat::Decibel(-100);
    let b = ValueStat::Decibel(-200);
    assert_eq!(a.partial_cmp(&b), None);
    assert_eq!(a.partial_cmp(&ValueStat::Relative(5)), None);
}

#[test]
fn missing_signal_strength_sorts_below_present() {
    let missing = SignalStrength(None);
    let present = SignalStrength(Some(ValueStat::Relative(1)));
    assert_eq!(
        missing.partial_cmp(&present),
        Some(std::cmp::Ordering::Less)
    );
    assert_eq!(
        present.partial_cmp(&missing),
        Some(std::cmp::Ordering::Greater)
    );
    assert_eq!(missing.partial_cmp(&missing), None);
}

#[test]
fn carrier_signal_to_noise_carries_a_reading() {
    let c = CarrierSignalToNoise(Some(ValueStat::Decibel(18000)));
    assert_eq!(c.0, Some(ValueStat::Decibel(18000)));
}

#[test]
fn default_handle_is_unsubmitted() {
    let q: dvb::frontend::get::PendingQuery<Frequency> = Default::default();
    assert!(matches!(q.retrieve(), Err(DtvError::NotRan)));
}
