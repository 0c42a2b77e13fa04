//! Tuner status word and parameter enumerations.
//!
//! Each enumeration is a fixed, kernel-defined catalog. The numeric id of a
//! variant is given by `spec_id` and computed by `id`; where raw bytes from
//! the device are turned back into a variant, `try_from` names exactly the
//! ids it accepts.

use vstd::prelude::*;

verus! {

/// Kernel bound on entries in one property transaction.
pub const DTV_IOCTL_MAX_MSGS: usize = 64;

/// Status word of a tuner, one flag per bit.
#[derive(Debug, Clone, Copy, PartialEq, Eq, Structural)]
pub struct FeStatus(pub u32);

impl core::convert::From<u32> for FeStatus {
    fn from(value: u32) -> (r: FeStatus) {
        FeStatus(value)
    }
}

impl vstd::std_specs::convert::FromSpecImpl<u32> for FeStatus {
    open spec fn obeys_from_spec() -> bool {
        true
    }

    open spec fn from_spec(value: u32) -> FeStatus {
        FeStatus(value)
    }
}

impl FeStatus {
    /// The tuner does not have any kind of lock: the initial status.
    pub fn none(&self) -> (r: bool)
        ensures
            r == (self.0 == 0),
    {
        self.0 == 0
    }

    /// Has found something above the noise level.
    pub fn has_signal(&self) -> (r: bool)
        ensures
            r == ((self.0 & 1) != 0),
    {
        (self.0 & 1) != 0
    }

    /// Has found a signal.
    pub fn has_carrier(&self) -> (r: bool)
        ensures
            r == ((self.0 & 2) != 0),
    {
        (self.0 & 2) != 0
    }

    /// The inner forward-error-correction coding is stable.
    pub fn has_viterbi(&self) -> (r: bool)
        ensures
            r == ((self.0 & 4) != 0),
    {
        (self.0 & 4) != 0
    }

    /// Synchronization bytes were found.
    pub fn has_sync(&self) -> (r: bool)
        ensures
            r == ((self.0 & 8) != 0),
    {
        (self.0 & 8) != 0
    }

    /// Locked and everything is working.
    pub fn has_lock(&self) -> (r: bool)
        ensures
            r == ((self.0 & 16) != 0),
    {
        (self.0 & 16) != 0
    }

    /// No lock within the last couple of seconds.
    pub fn timed_out(&self) -> (r: bool)
        ensures
            r == ((self.0 & 32) != 0),
    {
        (self.0 & 32) != 0
    }

    /// The tuner was reinitialized; the application should reset its
    /// parameters.
    pub fn reinit(&self) -> (r: bool)
        ensures
            r == ((self.0 & 64) != 0),
    {
        (self.0 & 64) != 0
    }
}

/// Kind of tuner, as reported by the capability read.
#[derive(Debug, Clone, Copy, PartialEq, Eq, Structural)]
#[allow(non_camel_case_types)]
pub enum FeType {
    FE_QPSK,
    FE_QAM,
    FE_OFDM,
    FE_ATSC,
}

/// Capability bits of a tuner.
#[derive(Debug, Clone, Copy, PartialEq, Eq, Structural)]
pub struct FeCaps(pub u32);

/// Delivery system: the broadcast standard a tuner works with.
#[derive(Debug, Clone, Copy, PartialEq, Eq, Structural, PartialOrd, Ord, Hash)]
#[allow(non_camel_case_types)]
pub enum FeDeliverySystem {
    /// Undefined standard. Generally indicates an error.
    UNDEFINED,
    /// Cable TV: DVB-C following ITU-T J.83 Annex A.
    DVBC_ANNEX_A,
    /// Cable TV: DVB-C following ITU-T J.83 Annex B (ClearQAM).
    DVBC_ANNEX_B,
    /// Terrestrial TV: DVB-T.
    DVBT,
    /// Satellite TV: DSS.
    DSS,
    /// Satellite TV: DVB-S.
    DVBS,
    /// Satellite TV: DVB-S2 and DVB-S2X.
    DVBS2,
    /// Terrestrial TV (mobile): DVB-H (deprecated).
    DVBH,
    /// Terrestrial TV: ISDB-T.
    ISDBT,
    /// Satellite TV: ISDB-S.
    ISDBS,
    /// Cable TV: ISDB-C.
    ISDBC,
    /// Terrestrial TV: ATSC.
    ATSC,
    /// Terrestrial TV (mobile): ATSC-M/H.
    ATSCMH,
    /// Terrestrial TV: DTMB.
    DTMB,
    /// Terrestrial TV (mobile): CMMB.
    CMMB,
    /// Digital audio: DAB.
    DAB,
    /// Terrestrial TV: DVB-T2.
    DVBT2,
    /// Satellite TV: DVB-S Turbo.
    TURBO,
    /// Cable TV: DVB-C following ITU-T J.83 Annex C.
    DVBC_ANNEX_C,
    /// Cable TV: DVB-C2.
    DVBC2,
}

impl FeDeliverySystem {
    /// Kernel id of this delivery system.
    pub open spec fn spec_id(self) -> u32 {
        match self {
            FeDeliverySystem::UNDEFINED => 0,
            FeDeliverySystem::DVBC_ANNEX_A => 1,
            FeDeliverySystem::DVBC_ANNEX_B => 2,
            FeDeliverySystem::DVBT => 3,
            FeDeliverySystem::DSS => 4,
            FeDeliverySystem::DVBS => 5,
            FeDeliverySystem::DVBS2 => 6,
            FeDeliverySystem::DVBH => 7,
            FeDeliverySystem::ISDBT => 8,
            FeDeliverySystem::ISDBS => 9,
            FeDeliverySystem::ISDBC => 10,
            FeDeliverySystem::ATSC => 11,
            FeDeliverySystem::ATSCMH => 12,
            FeDeliverySystem::DTMB => 13,
            FeDeliverySystem::CMMB => 14,
            FeDeliverySystem::DAB => 15,
            FeDeliverySystem::DVBT2 => 16,
            FeDeliverySystem::TURBO => 17,
            FeDeliverySystem::DVBC_ANNEX_C => 18,
            FeDeliverySystem::DVBC2 => 19,
        }
    }

    /// Kernel id of this delivery system.
    pub fn id(self) -> (r: u32)
        ensures
            r == self.spec_id(),
    {
        match self {
            FeDeliverySystem::UNDEFINED => 0,
            FeDeliverySystem::DVBC_ANNEX_A => 1,
            FeDeliverySystem::DVBC_ANNEX_B => 2,
            FeDeliverySystem::DVBT => 3,
            FeDeliverySystem::DSS => 4,
            FeDeliverySystem::DVBS => 5,
            FeDeliverySystem::DVBS2 => 6,
            FeDeliverySystem::DVBH => 7,
            FeDeliverySystem::ISDBT => 8,
            FeDeliverySystem::ISDBS => 9,
            FeDeliverySystem::ISDBC => 10,
            FeDeliverySystem::ATSC => 11,
            FeDeliverySystem::ATSCMH => 12,
            FeDeliverySystem::DTMB => 13,
            FeDeliverySystem::CMMB => 14,
            FeDeliverySystem::DAB => 15,
            FeDeliverySystem::DVBT2 => 16,
            FeDeliverySystem::TURBO => 17,
            FeDeliverySystem::DVBC_ANNEX_C => 18,
            FeDeliverySystem::DVBC2 => 19,
        }
    }

    /// The delivery system with the given kernel id, if there is one.
    pub open spec fn spec_try_from(value: u8) -> Option<FeDeliverySystem> {
        if value == 0 {
            Some(FeDeliverySystem::UNDEFINED)
        } else if value == 1 {
            Some(FeDeliverySystem::DVBC_ANNEX_A)
        } else if value == 2 {
            Some(FeDeliverySystem::DVBC_ANNEX_B)
        } else if value == 3 {
            Some(FeDeliverySystem::DVBT)
        } else if value == 4 {
            Some(FeDeliverySystem::DSS)
        } else if value == 5 {
            Some(FeDeliverySystem::DVBS)
        } else if value == 6 {
            Some(FeDeliverySystem::DVBS2)
        } else if value == 7 {
            Some(FeDeliverySystem::DVBH)
        } else if value == 8 {
            Some(FeDeliverySystem::ISDBT)
        } else if value == 9 {
            Some(FeDeliverySystem::ISDBS)
        } else if value == 10 {
            Some(FeDeliverySystem::ISDBC)
        } else if value == 11 {
            Some(FeDeliverySystem::ATSC)
        } else if value == 12 {
            Some(FeDeliverySystem::ATSCMH)
        } else if value == 13 {
            Some(FeDeliverySystem::DTMB)
        } else if value == 14 {
            Some(FeDeliverySystem::CMMB)
        } else if value == 15 {
            Some(FeDeliverySystem::DAB)
        } else if value == 16 {
            Some(FeDeliverySystem::DVBT2)
        } else if value == 17 {
            Some(FeDeliverySystem::TURBO)
        } else if value == 18 {
            Some(FeDeliverySystem::DVBC_ANNEX_C)
        } else if value == 19 {
            Some(FeDeliverySystem::DVBC2)
        } else {
            None
        }
    }

    /// The delivery system with the given kernel id, if there is one.
    pub fn try_from(value: u8) -> (r: Option<FeDeliverySystem>)
        ensures
            r == FeDeliverySystem::spec_try_from(value),
    {
        match value {
            0 => Some(FeDeliverySystem::UNDEFINED),
            1 => Some(FeDeliverySystem::DVBC_ANNEX_A),
            2 => Some(FeDeliverySystem::DVBC_ANNEX_B),
            3 => Some(FeDeliverySystem::DVBT),
            4 => Some(FeDeliverySystem::DSS),
            5 => Some(FeDeliverySystem::DVBS),
            6 => Some(FeDeliverySystem::DVBS2),
            7 => Some(FeDeliverySystem::DVBH),
            8 => Some(FeDeliverySystem::ISDBT),
            9 => Some(FeDeliverySystem::ISDBS),
            10 => Some(FeDeliverySystem::ISDBC),
            11 => Some(FeDeliverySystem::ATSC),
            12 => Some(FeDeliverySystem::ATSCMH),
            13 => Some(FeDeliverySystem::DTMB),
            14 => Some(FeDeliverySystem::CMMB),
            15 => Some(FeDeliverySystem::DAB),
            16 => Some(FeDeliverySystem::DVBT2),
            17 => Some(FeDeliverySystem::TURBO),
            18 => Some(FeDeliverySystem::DVBC_ANNEX_C),
            19 => Some(FeDeliverySystem::DVBC2),
            _ => None,
        }
    }
}

/// Round trip between a delivery system id and its variant: decoding an id
/// that decodes at all gives back a variant carrying that very id.
pub proof fn lemma_delivery_system_id_round_trip(value: u8)
    ensures
        FeDeliverySystem::spec_try_from(value) matches Some(s) ==> s.spec_id() == value,
        value < 20 ==> FeDeliverySystem::spec_try_from(value) is Some,
        value >= 20 ==> FeDeliverySystem::spec_try_from(value) is None,
{
}

/// Kind of modulation/constellation.
#[derive(Debug, Clone, Copy, PartialEq, Eq, Structural)]
#[allow(non_camel_case_types)]
pub enum FeModulation {
    QPSK,
    QAM_16,
    QAM_32,
    QAM_64,
    QAM_128,
    QAM_256,
    QAM_AUTO,
    VSB_8,
    VSB_16,
    PSK_8,
    APSK_16,
    APSK_32,
    DQPSK,
    QAM_4_NR,
    QAM_1024,
    QAM_4096,
    APSK_8_L,
    APSK_16_L,
    APSK_32_L,
    APSK_64,
    APSK_64_L,
}

impl FeModulation {
    /// Kernel id of this modulation.
    pub open spec fn spec_id(self) -> u32 {
        match self {
            FeModulation::QPSK => 0,
            FeModulation::QAM_16 => 1,
            FeModulation::QAM_32 => 2,
            FeModulation::QAM_64 => 3,
            FeModulation::QAM_128 => 4,
            FeModulation::QAM_256 => 5,
            FeModulation::QAM_AUTO => 6,
            FeModulation::VSB_8 => 7,
            FeModulation::VSB_16 => 8,
            FeModulation::PSK_8 => 9,
            FeModulation::APSK_16 => 10,
            FeModulation::APSK_32 => 11,
            FeModulation::DQPSK => 12,
            FeModulation::QAM_4_NR => 13,
            FeModulation::QAM_1024 => 14,
            FeModulation::QAM_4096 => 15,
            FeModulation::APSK_8_L => 16,
            FeModulation::APSK_16_L => 17,
            FeModulation::APSK_32_L => 18,
            FeModulation::APSK_64 => 19,
            FeModulation::APSK_64_L => 20,
        }
    }

    /// Kernel id of this modulation.
    pub fn id(self) -> (r: u32)
        ensures
            r == self.spec_id(),
    {
        match self {
            FeModulation::QPSK => 0,
            FeModulation::QAM_16 => 1,
            FeModulation::QAM_32 => 2,
            FeModulation::QAM_64 => 3,
            FeModulation::QAM_128 => 4,
            FeModulation::QAM_256 => 5,
            FeModulation::QAM_AUTO => 6,
            FeModulation::VSB_8 => 7,
            FeModulation::VSB_16 => 8,
            FeModulation::PSK_8 => 9,
            FeModulation::APSK_16 => 10,
            FeModulation::APSK_32 => 11,
            FeModulation::DQPSK => 12,
            FeModulation::QAM_4_NR => 13,
            FeModulation::QAM_1024 => 14,
            FeModulation::QAM_4096 => 15,
            FeModulation::APSK_8_L => 16,
            FeModulation::APSK_16_L => 17,
            FeModulation::APSK_32_L => 18,
            FeModulation::APSK_64 => 19,
            FeModulation::APSK_64_L => 20,
        }
    }

    /// The modulation with the given kernel id, if there is one.
    pub open spec fn spec_try_from(value: u32) -> Option<FeModulation> {
        if value == 0 {
            Some(FeModulation::QPSK)
        } else if value == 1 {
            Some(FeModulation::QAM_16)
        } else if value == 2 {
            Some(FeModulation::QAM_32)
        } else if value == 3 {
            Some(FeModulation::QAM_64)
        } else if value == 4 {
            Some(FeModulation::QAM_128)
        } else if value == 5 {
            Some(FeModulation::QAM_256)
        } else if value == 6 {
            Some(FeModulation::QAM_AUTO)
        } else if value == 7 {
            Some(FeModulation::VSB_8)
        } else if value == 8 {
            Some(FeModulation::VSB_16)
        } else if value == 9 {
            Some(FeModulation::PSK_8)
        } else if value == 10 {
            Some(FeModulation::APSK_16)
        } else if value == 11 {
            Some(FeModulation::APSK_32)
        } else if value == 12 {
            Some(FeModulation::DQPSK)
        } else if value == 13 {
            Some(FeModulation::QAM_4_NR)
        } else if value == 14 {
            Some(FeModulation::QAM_1024)
        } else if value == 15 {
            Some(FeModulation::QAM_4096)
        } else if value == 16 {
            Some(FeModulation::APSK_8_L)
        } else if value == 17 {
            Some(FeModulation::APSK_16_L)
        } else if value == 18 {
            Some(FeModulation::APSK_32_L)
        } else if value == 19 {
            Some(FeModulation::APSK_64)
        } else if value == 20 {
            Some(FeModulation::APSK_64_L)
        } else {
            None
        }
    }

    /// The modulation with the given kernel id, if there is one.
    pub fn try_from(value: u32) -> (r: Option<FeModulation>)
        ensures
            r == FeModulation::spec_try_from(value),
    {
        match value {
            0 => Some(FeModulation::QPSK),
            1 => Some(FeModulation::QAM_16),
            2 => Some(FeModulation::QAM_32),
            3 => Some(FeModulation::QAM_64),
            4 => Some(FeModulation::QAM_128),
            5 => Some(FeModulation::QAM_256),
            6 => Some(FeModulation::QAM_AUTO),
            7 => Some(FeModulation::VSB_8),
            8 => Some(FeModulation::VSB_16),
            9 => Some(FeModulation::PSK_8),
            10 => Some(FeModulation::APSK_16),
            11 => Some(FeModulation::APSK_32),
            12 => Some(FeModulation::DQPSK),
            13 => Some(FeModulation::QAM_4_NR),
            14 => Some(FeModulation::QAM_1024),
            15 => Some(FeModulation::QAM_4096),
            16 => Some(FeModulation::APSK_8_L),
            17 => Some(FeModulation::APSK_16_L),
            18 => Some(FeModulation::APSK_32_L),
            19 => Some(FeModulation::APSK_64),
            20 => Some(FeModulation::APSK_64_L),
            _ => None,
        }
    }
}

/// Whether spectral band inversion should be presumed, or detected by the
/// hardware itself.
#[derive(Debug, Clone, Copy, PartialEq, Eq, Structural)]
#[allow(non_camel_case_types)]
pub enum FeSpectralInversion {
    /// Do not do spectral band inversion.
    INVERSION_OFF,
    /// Do spectral band inversion.
    INVERSION_ON,
    /// Autodetect spectral band inversion.
    INVERSION_AUTO,
}

impl FeSpectralInversion {
    /// Kernel id of this inversion setting.
    pub open spec fn spec_id(self) -> u32 {
        match self {
            FeSpectralInversion::INVERSION_OFF => 0,
            FeSpectralInversion::INVERSION_ON => 1,
            FeSpectralInversion::INVERSION_AUTO => 2,
        }
    }

    /// Kernel id of this inversion setting.
    pub fn id(self) -> (r: u32)
        ensures
            r == self.spec_id(),
    {
        match self {
            FeSpectralInversion::INVERSION_OFF => 0,
            FeSpectralInversion::INVERSION_ON => 1,
            FeSpectralInversion::INVERSION_AUTO => 2,
        }
    }
}

/// Guard interval of a terrestrial transmission.
#[derive(Debug, Clone, Copy, PartialEq, Eq, Structural)]
#[allow(non_camel_case_types)]
pub enum FeGuardInterval {
    GUARD_INTERVAL_1_32,
    GUARD_INTERVAL_1_16,
    GUARD_INTERVAL_1_8,
    GUARD_INTERVAL_1_4,
    GUARD_INTERVAL_AUTO,
    GUARD_INTERVAL_1_128,
    GUARD_INTERVAL_19_128,
    GUARD_INTERVAL_19_256,
    GUARD_INTERVAL_PN420,
    GUARD_INTERVAL_PN595,
    GUARD_INTERVAL_PN945,
    GUARD_INTERVAL_1_64,
}

impl FeGuardInterval {
    /// Kernel id of this guard interval.
    pub open spec fn spec_id(self) -> u32 {
        match self {
            FeGuardInterval::GUARD_INTERVAL_1_32 => 0,
            FeGuardInterval::GUARD_INTERVAL_1_16 => 1,
            FeGuardInterval::GUARD_INTERVAL_1_8 => 2,
            FeGuardInterval::GUARD_INTERVAL_1_4 => 3,
            FeGuardInterval::GUARD_INTERVAL_AUTO => 4,
            FeGuardInterval::GUARD_INTERVAL_1_128 => 5,
            FeGuardInterval::GUARD_INTERVAL_19_128 => 6,
            FeGuardInterval::GUARD_INTERVAL_19_256 => 7,
            FeGuardInterval::GUARD_INTERVAL_PN420 => 8,
            FeGuardInterval::GUARD_INTERVAL_PN595 => 9,
            FeGuardInterval::GUARD_INTERVAL_PN945 => 10,
            FeGuardInterval::GUARD_INTERVAL_1_64 => 11,
        }
    }

    /// Kernel id of this guard interval.
    pub fn id(self) -> (r: u32)
        ensures
            r == self.spec_id(),
    {
        match self {
            FeGuardInterval::GUARD_INTERVAL_1_32 => 0,
            FeGuardInterval::GUARD_INTERVAL_1_16 => 1,
            FeGuardInterval::GUARD_INTERVAL_1_8 => 2,
            FeGuardInterval::GUARD_INTERVAL_1_4 => 3,
            FeGuardInterval::GUARD_INTERVAL_AUTO => 4,
            FeGuardInterval::GUARD_INTERVAL_1_128 => 5,
            FeGuardInterval::GUARD_INTERVAL_19_128 => 6,
            FeGuardInterval::GUARD_INTERVAL_19_256 => 7,
            FeGuardInterval::GUARD_INTERVAL_PN420 => 8,
            FeGuardInterval::GUARD_INTERVAL_PN595 => 9,
            FeGuardInterval::GUARD_INTERVAL_PN945 => 10,
            FeGuardInterval::GUARD_INTERVAL_1_64 => 11,
        }
    }
}

/// Transmission mode of a terrestrial transmission.
#[derive(Debug, Clone, Copy, PartialEq, Eq, Structural)]
#[allow(non_camel_case_types)]
pub enum FeTransmitMode {
    TRANSMISSION_MODE_2K,
    TRANSMISSION_MODE_8K,
    /// Autodetect transmission mode.
    TRANSMISSION_MODE_AUTO,
    TRANSMISSION_MODE_4K,
    TRANSMISSION_MODE_1K,
    TRANSMISSION_MODE_16K,
    TRANSMISSION_MODE_32K,
    /// Single carrier transmission mode.
    TRANSMISSION_MODE_C1,
    /// Multi carrier transmission mode.
    TRANSMISSION_MODE_C3780,
}

impl FeTransmitMode {
    /// Kernel id of this transmission mode.
    pub open spec fn spec_id(self) -> u32 {
        match self {
            FeTransmitMode::TRANSMISSION_MODE_2K => 0,
            FeTransmitMode::TRANSMISSION_MODE_8K => 1,
            FeTransmitMode::TRANSMISSION_MODE_AUTO => 2,
            FeTransmitMode::TRANSMISSION_MODE_4K => 3,
            FeTransmitMode::TRANSMISSION_MODE_1K => 4,
            FeTransmitMode::TRANSMISSION_MODE_16K => 5,
            FeTransmitMode::TRANSMISSION_MODE_32K => 6,
            FeTransmitMode::TRANSMISSION_MODE_C1 => 7,
            FeTransmitMode::TRANSMISSION_MODE_C3780 => 8,
        }
    }

    /// Kernel id of this transmission mode.
    pub fn id(self) -> (r: u32)
        ensures
            r == self.spec_id(),
    {
        match self {
            FeTransmitMode::TRANSMISSION_MODE_2K => 0,
            FeTransmitMode::TRANSMISSION_MODE_8K => 1,
            FeTransmitMode::TRANSMISSION_MODE_AUTO => 2,
            FeTransmitMode::TRANSMISSION_MODE_4K => 3,
            FeTransmitMode::TRANSMISSION_MODE_1K => 4,
            FeTransmitMode::TRANSMISSION_MODE_16K => 5,
            FeTransmitMode::TRANSMISSION_MODE_32K => 6,
            FeTransmitMode::TRANSMISSION_MODE_C1 => 7,
            FeTransmitMode::TRANSMISSION_MODE_C3780 => 8,
        }
    }
}

/// Kind of forward error correction.
#[derive(Debug, Clone, Copy, PartialEq, Eq, Structural)]
#[allow(non_camel_case_types)]
pub enum FeCodeRate {
    FEC_NONE,
    FEC_1_2,
    FEC_2_3,
    FEC_3_4,
    FEC_4_5,
    FEC_5_6,
    FEC_6_7,
    FEC_7_8,
    FEC_8_9,
    FEC_AUTO,
    FEC_3_5,
    FEC_9_10,
    FEC_2_5,
    FEC_1_3,
    FEC_1_4,
    FEC_5_9,
    FEC_7_9,
    FEC_8_15,
    FEC_11_15,
    FEC_13_18,
    FEC_9_20,
    FEC_11_20,
    FEC_23_36,
    FEC_25_36,
    FEC_13_45,
    FEC_26_45,
    FEC_28_45,
    FEC_32_45,
    FEC_77_90,
    FEC_11_45,
    FEC_4_15,
    FEC_14_45,
    FEC_7_15,
}

impl FeCodeRate {
    /// Kernel id of this code rate.
    pub open spec fn spec_id(self) -> u32 {
        match self {
            FeCodeRate::FEC_NONE => 0,
            FeCodeRate::FEC_1_2 => 1,
            FeCodeRate::FEC_2_3 => 2,
            FeCodeRate::FEC_3_4 => 3,
            FeCodeRate::FEC_4_5 => 4,
            FeCodeRate::FEC_5_6 => 5,
            FeCodeRate::FEC_6_7 => 6,
            FeCodeRate::FEC_7_8 => 7,
            FeCodeRate::FEC_8_9 => 8,
            FeCodeRate::FEC_AUTO => 9,
            FeCodeRate::FEC_3_5 => 10,
            FeCodeRate::FEC_9_10 => 11,
            FeCodeRate::FEC_2_5 => 12,
            FeCodeRate::FEC_1_3 => 13,
            FeCodeRate::FEC_1_4 => 14,
            FeCodeRate::FEC_5_9 => 15,
            FeCodeRate::FEC_7_9 => 16,
            FeCodeRate::FEC_8_15 => 17,
            FeCodeRate::FEC_11_15 => 18,
            FeCodeRate::FEC_13_18 => 19,
            FeCodeRate::FEC_9_20 => 20,
            FeCodeRate::FEC_11_20 => 21,
            FeCodeRate::FEC_23_36 => 22,
            FeCodeRate::FEC_25_36 => 23,
            FeCodeRate::FEC_13_45 => 24,
            FeCodeRate::FEC_26_45 => 25,
            FeCodeRate::FEC_28_45 => 26,
            FeCodeRate::FEC_32_45 => 27,
            FeCodeRate::FEC_77_90 => 28,
            FeCodeRate::FEC_11_45 => 29,
            FeCodeRate::FEC_4_15 => 30,
            FeCodeRate::FEC_14_45 => 31,
            FeCodeRate::FEC_7_15 => 32,
        }
    }

    /// Kernel id of this code rate.
    pub fn id(self) -> (r: u32)
        ensures
            r == self.spec_id(),
    {
        match self {
            FeCodeRate::FEC_NONE => 0,
            FeCodeRate::FEC_1_2 => 1,
            FeCodeRate::FEC_2_3 => 2,
            FeCodeRate::FEC_3_4 => 3,
            FeCodeRate::FEC_4_5 => 4,
            FeCodeRate::FEC_5_6 => 5,
            FeCodeRate::FEC_6_7 => 6,
            FeCodeRate::FEC_7_8 => 7,
            FeCodeRate::FEC_8_9 => 8,
            FeCodeRate::FEC_AUTO => 9,
            FeCodeRate::FEC_3_5 => 10,
            FeCodeRate::FEC_9_10 => 11,
            FeCodeRate::FEC_2_5 => 12,
            FeCodeRate::FEC_1_3 => 13,
            FeCodeRate::FEC_1_4 => 14,
            FeCodeRate::FEC_5_9 => 15,
            FeCodeRate::FEC_7_9 => 16,
            FeCodeRate::FEC_8_15 => 17,
            FeCodeRate::FEC_11_15 => 18,
            FeCodeRate::FEC_13_18 => 19,
            FeCodeRate::FEC_9_20 => 20,
            FeCodeRate::FEC_11_20 => 21,
            FeCodeRate::FEC_23_36 => 22,
            FeCodeRate::FEC_25_36 => 23,
            FeCodeRate::FEC_13_45 => 24,
            FeCodeRate::FEC_26_45 => 25,
            FeCodeRate::FEC_28_45 => 26,
            FeCodeRate::FEC_32_45 => 27,
            FeCodeRate::FEC_77_90 => 28,
            FeCodeRate::FEC_11_45 => 29,
            FeCodeRate::FEC_4_15 => 30,
            FeCodeRate::FEC_14_45 => 31,
            FeCodeRate::FEC_7_15 => 32,
        }
    }
}

} // verus!
