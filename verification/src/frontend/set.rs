//! Typed write settings for the property transaction.
//!
//! Each setting converts itself into exactly one raw entry, pure and
//! side-effect free. A named value (a channel width, a code rate) is
//! resolved to its numeric encoding here and nowhere else.

use vstd::prelude::*;

use crate::frontend::data::FeCodeRate;
use crate::frontend::get::PropertyQuery;
use crate::frontend::data::FeDeliverySystem;
use crate::frontend::data::FeGuardInterval;
use crate::frontend::data::FeModulation;
use crate::frontend::data::FeSpectralInversion;
use crate::frontend::data::FeTransmitMode;
use crate::frontend::property::Command;
use crate::frontend::property::DtvProperty;
use crate::frontend::property::DtvPropertyUnion;

verus! {

/// A typed write setting: one value, one raw entry.
pub trait SetPropertyQuery: Sized {
    /// The entry this setting becomes.
    spec fn spec_property(self) -> DtvProperty;

    /// Convert the setting into the raw entry for a write transaction.
    fn property(self) -> (p: DtvProperty)
        ensures
            p == self.spec_property(),
    ;
}

/// Ask the tuner to tune with the parameters set so far.
pub struct Tune {}

impl SetPropertyQuery for Tune {
    open spec fn spec_property(self) -> DtvProperty {
        DtvProperty { cmd: Command::DTV_TUNE.spec_id(), u: DtvPropertyUnion::Data(0), result: 0 }
    }

    fn property(self) -> (p: DtvProperty) {
        DtvProperty::new_empty(Command::DTV_TUNE)
    }
}

/// Clear all set parameters.
pub struct Clear {}

impl SetPropertyQuery for Clear {
    open spec fn spec_property(self) -> DtvProperty {
        DtvProperty { cmd: Command::DTV_CLEAR.spec_id(), u: DtvPropertyUnion::Data(0), result: 0 }
    }

    fn property(self) -> (p: DtvProperty) {
        DtvProperty::new_empty(Command::DTV_CLEAR)
    }
}

/// Frequency to tune to: kHz for satellite delivery systems, Hz for cable
/// and terrestrial ones.
pub struct Frequency(pub u32);

impl Frequency {
    pub fn new(frequency: u32) -> (r: Frequency)
        ensures
            r == Frequency(frequency),
    {
        Frequency(frequency)
    }
}

impl SetPropertyQuery for Frequency {
    open spec fn spec_property(self) -> DtvProperty {
        DtvProperty {
            cmd: Command::DTV_FREQUENCY.spec_id(),
            u: DtvPropertyUnion::Data(self.0),
            result: 0,
        }
    }

    fn property(self) -> (p: DtvProperty) {
        DtvProperty::new_data(Command::DTV_FREQUENCY, self.0)
    }
}

/// Modulation to use.
pub struct Modulation(pub FeModulation);

impl Modulation {
    pub fn new(modulation: FeModulation) -> (r: Modulation)
        ensures
            r == Modulation(modulation),
    {
        Modulation(modulation)
    }
}

impl SetPropertyQuery for Modulation {
    open spec fn spec_property(self) -> DtvProperty {
        DtvProperty {
            cmd: Command::DTV_MODULATION.spec_id(),
            u: DtvPropertyUnion::Data(self.0.spec_id()),
            result: 0,
        }
    }

    fn property(self) -> (p: DtvProperty) {
        DtvProperty::new_data(Command::DTV_MODULATION, self.0.id())
    }
}

/// Bandwidth of the channel, as one of the widths the terrestrial
/// standards name.
#[derive(Debug, Clone, Copy, PartialEq, Eq, Structural)]
#[allow(non_camel_case_types)]
pub enum BandwidthHz {
    _1_172MHz,
    _5MHz,
    _6MHz,
    _7MHz,
    _8MHz,
    _10MHz,
}

impl BandwidthHz {
    /// The width in Hz that this name stands for: a fixed lookup.
    pub open spec fn spec_value(self) -> u32 {
        match self {
            BandwidthHz::_1_172MHz => 1712000,
            BandwidthHz::_5MHz => 5000000,
            BandwidthHz::_6MHz => 6000000,
            BandwidthHz::_7MHz => 7000000,
            BandwidthHz::_8MHz => 8000000,
            BandwidthHz::_10MHz => 10000000,
        }
    }

    /// The width in Hz that this name stands for.
    pub fn value(&self) -> (r: u32)
        ensures
            r == self.spec_value(),
    {
        match self {
            BandwidthHz::_1_172MHz => 1712000,
            BandwidthHz::_5MHz => 5000000,
            BandwidthHz::_6MHz => 6000000,
            BandwidthHz::_7MHz => 7000000,
            BandwidthHz::_8MHz => 8000000,
            BandwidthHz::_10MHz => 10000000,
        }
    }
}

impl SetPropertyQuery for BandwidthHz {
    open spec fn spec_property(self) -> DtvProperty {
        DtvProperty {
            cmd: Command::DTV_BANDWIDTH_HZ.spec_id(),
            u: DtvPropertyUnion::Data(self.spec_value()),
            result: 0,
        }
    }

    fn property(self) -> (p: DtvProperty) {
        let value = self.value();
        DtvProperty::new_data(Command::DTV_BANDWIDTH_HZ, value)
    }
}

/// Spectral inversion to presume.
pub struct Inversion(pub FeSpectralInversion);

impl Inversion {
    pub fn new(inversion: FeSpectralInversion) -> (r: Inversion)
        ensures
            r == Inversion(inversion),
    {
        Inversion(inversion)
    }
}

impl SetPropertyQuery for Inversion {
    open spec fn spec_property(self) -> DtvProperty {
        DtvProperty {
            cmd: Command::DTV_INVERSION.spec_id(),
            u: DtvPropertyUnion::Data(self.0.spec_id()),
            result: 0,
        }
    }

    fn property(self) -> (p: DtvProperty) {
        DtvProperty::new_data(Command::DTV_INVERSION, self.0.id())
    }
}

/// Symbol rate to use.
pub struct SymbolRate {}

/// Inner forward error correction to use.
pub struct InnerFec(pub FeCodeRate);

impl InnerFec {
    pub fn new(rate: FeCodeRate) -> (r: InnerFec)
        ensures
            r == InnerFec(rate),
    {
        InnerFec(rate)
    }
}

impl SetPropertyQuery for InnerFec {
    open spec fn spec_property(self) -> DtvProperty {
        DtvProperty {
            cmd: Command::DTV_INNER_FEC.spec_id(),
            u: DtvPropertyUnion::Data(self.0.spec_id()),
            result: 0,
        }
    }

    fn property(self) -> (p: DtvProperty) {
        DtvProperty::new_data(Command::DTV_INNER_FEC, self.0.id())
    }
}

/// Pilot tones setting.
pub struct Pilot {}

/// Rolloff factor setting.
pub struct Rolloff {}

/// Delivery system to use.
pub struct DeliverySystem(pub FeDeliverySystem);

impl DeliverySystem {
    pub fn new(system: FeDeliverySystem) -> (r: DeliverySystem)
        ensures
            r == DeliverySystem(system),
    {
        DeliverySystem(system)
    }
}

impl SetPropertyQuery for DeliverySystem {
    open spec fn spec_property(self) -> DtvProperty {
        DtvProperty {
            cmd: Command::DTV_DELIVERY_SYSTEM.spec_id(),
            u: DtvPropertyUnion::Data(self.0.spec_id()),
            result: 0,
        }
    }

    fn property(self) -> (p: DtvProperty) {
        DtvProperty::new_data(Command::DTV_DELIVERY_SYSTEM, self.0.id())
    }
}

/// Voltage setting for a satellite equipment control bus.
pub struct Voltage {}

/// Tone setting for a satellite equipment control bus.
pub struct Tone {}

/// Code rate of the high-priority stream.
pub struct CodeRateHp(pub FeTransmitMode);

impl CodeRateHp {
    pub fn new(mode: FeTransmitMode) -> (r: CodeRateHp)
        ensures
            r == CodeRateHp(mode),
    {
        CodeRateHp(mode)
    }
}

impl SetPropertyQuery for CodeRateHp {
    open spec fn spec_property(self) -> DtvProperty {
        DtvProperty {
            cmd: Command::DTV_CODE_RATE_HP.spec_id(),
            u: DtvPropertyUnion::Data(self.0.spec_id()),
            result: 0,
        }
    }

    fn property(self) -> (p: DtvProperty) {
        DtvProperty::new_data(Command::DTV_CODE_RATE_HP, self.0.id())
    }
}

/// Code rate of the low-priority stream.
pub struct CodeRateLp(pub FeTransmitMode);

impl CodeRateLp {
    pub fn new(mode: FeTransmitMode) -> (r: CodeRateLp)
        ensures
            r == CodeRateLp(mode),
    {
        CodeRateLp(mode)
    }
}

impl SetPropertyQuery for CodeRateLp {
    open spec fn spec_property(self) -> DtvProperty {
        DtvProperty {
            cmd: Command::DTV_CODE_RATE_LP.spec_id(),
            u: DtvPropertyUnion::Data(self.0.spec_id()),
            result: 0,
        }
    }

    fn property(self) -> (p: DtvProperty) {
        DtvProperty::new_data(Command::DTV_CODE_RATE_LP, self.0.id())
    }
}

/// Guard interval to use.
pub struct GuardInterval(pub FeGuardInterval);

impl GuardInterval {
    pub fn new(interval: FeGuardInterval) -> (r: GuardInterval)
        ensures
            r == GuardInterval(interval),
    {
        GuardInterval(interval)
    }
}

impl SetPropertyQuery for GuardInterval {
    open spec fn spec_property(self) -> DtvProperty {
        DtvProperty {
            cmd: Command::DTV_GUARD_INTERVAL.spec_id(),
            u: DtvPropertyUnion::Data(self.0.spec_id()),
            result: 0,
        }
    }

    fn property(self) -> (p: DtvProperty) {
        DtvProperty::new_data(Command::DTV_GUARD_INTERVAL, self.0.id())
    }
}

/// Transmission mode to use.
pub struct TransmissionMode {}

/// Hierarchy setting.
pub struct Hierarchy {}

/// Interleaving setting.
pub struct Interleaving {}

/// Round trip of a frequency setting: the entry written for a frequency
/// decodes, read back as a frequency query payload, to the value that was
/// set.
pub proof fn lemma_frequency_round_trip(f: u32)
    ensures
        crate::frontend::get::Frequency::decodable(Frequency(f).spec_property().u),
        crate::frontend::get::Frequency::decoded(
            Frequency(f).spec_property().u,
            crate::frontend::get::Frequency(f),
        ),
{
}

} // verus!
