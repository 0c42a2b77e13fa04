//! Conversion of typed settings into raw entries.

use dvb::frontend::data::FeCodeRate;
use dvb::frontend::data::FeDeliverySystem;
use dvb::frontend::data::FeGuardInterval;
use dvb::frontend::data::FeModulation;
use dvb::frontend::data::FeSpectralInversion;
use dvb::frontend::data::FeTransmitMode;
use dvb::frontend::property::DtvPropertyUnion;
use dvb::frontend::set::Clear;
use dvb::frontend::set::CodeRateHp;
use dvb::frontend::set::CodeRateLp;
use dvb::frontend::set::DeliverySystem;
use dvb::frontend::set::Frequency;
use dvb::frontend::set::GuardInterval;
use dvb::frontend::set::InnerFec;
use dvb::frontend::set::Inversion;
use dvb::frontend::set::Modulation;
use dvb::frontend::set::SetPropertyQuery;
use dvb::frontend::set::Tune;

#[test]
fn tune_and_clear_carry_no_argument() {
    let tune = Tune {}.property();
    assert_eq!(tune.cmd, 1);
    assert!(matches!(tune.u, DtvPropertyUnion::Data(0)));
    assert_eq!(tune.result, 0);
    let clear = Clear {}.property();
    assert_eq!(clear.cmd, 2);
    assert!(matches!(clear.u, DtvPropertyUnion::Data(0)));
}

#[test]
fn frequency_setting_carries_its_hertz() {
    let entry = Frequency::new(474000000).property();
    assert_eq!(entry.cmd, 3);
    assert!(matches!(entry.u, DtvPropertyUnion::Data(474000000)));
}

#[test]
fn modulation_setting_encodes_its_id() {
    let entry = Modulation::new(FeModulation::QAM_256).property();
    assert_eq!(entry.cmd, 4);
    assert!(matches!(entry.u, DtvPropertyUnion::Data(5)));
}

#[test]
fn inversion_setting_encodes_its_id() {
    let entry = Inversion::new(FeSpectralInversion::INVERSION_AUTO).property();
    assert_eq!(entry.cmd, 6);
    assert!(matches!(entry.u, DtvPropertyUnion::Data(2)));
}

#[test]
fn inner_fec_setting_encodes_its_id() {
    let entry = InnerFec::new(FeCodeRate::FEC_3_4).property();
    assert_eq!(entry.cmd, 9);
    assert!(matches!(entry.u, DtvPropertyUnion::Data(3)));
}

#[test]
fn delivery_system_setting_encodes_its_id() {
    let entry = DeliverySystem::new(FeDeliverySystem::DVBT2).property();
    assert_eq!(entry.cmd, 17);
    assert!(matches!(entry.u, DtvPropertyUnion::Data(16)));
}

#[test]
fn code_rate_settings_encode_their_ids() {
    let hp = CodeRateHp::new(FeTransmitMode::TRANSMISSION_MODE_8K).property();
    assert_eq!(hp.cmd, 36);
    assert!(matches!(hp.u, DtvPropertyUnion::Data(1)));
    let lp = CodeRateLp::new(FeTransmitMode::TRANSMISSION_MODE_2K).property();
    assert_eq!(lp.cmd, 37);
    assert!(matches!(lp.u, DtvPropertyUnion::Data(0)));
}

#[test]
fn guard_interval_setting_encodes_its_id() {
    let entry = GuardInterval::new(FeGuardInterval::GUARD_INTERVAL_1_8).property();
    assert_eq!(entry.cmd, 38);
    assert!(matches!(entry.u, DtvPropertyUnion::Data(2)));
}
