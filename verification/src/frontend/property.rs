//! The property command catalog and the raw transaction entry.
//!
//! One transaction entry pairs a command id with a payload. The kernel
//! stores the payload in one untyped memory region reused for three
//! incompatible interpretations; here it is a closed tagged variant, built
//! from typed values when a transaction is assembled and read back only by
//! the decoder that the producing command justifies.

use vstd::prelude::*;

verus! {

/// A property of a tuner that can be read or written, identified by a
/// stable kernel id. The raw id never appears outside this catalog.
#[derive(Debug, Clone, Copy, PartialEq, Eq, Structural)]
#[allow(non_camel_case_types)]
pub enum Command {
    DTV_UNDEFINED,
    /// Ask the tuner to tune with the parameters set so far.
    DTV_TUNE,
    /// Clear all set parameters.
    DTV_CLEAR,
    /// Frequency of the transponder/channel: kHz for satellite delivery
    /// systems, Hz for cable and terrestrial ones.
    DTV_FREQUENCY,
    /// Modulation type, for delivery systems that support more than one.
    DTV_MODULATION,
    /// Bandwidth for the channel, in Hz; terrestrial delivery systems only.
    DTV_BANDWIDTH_HZ,
    /// Whether the tuner should do spectral inversion.
    DTV_INVERSION,
    DTV_DISEQC_MASTER,
    DTV_SYMBOL_RATE,
    DTV_INNER_FEC,
    DTV_VOLTAGE,
    DTV_TONE,
    DTV_PILOT,
    DTV_ROLLOFF,
    DTV_DISEQC_SLAVE_REPLY,
    DTV_FE_CAPABILITY_COUNT,
    DTV_FE_CAPABILITY,
    DTV_DELIVERY_SYSTEM,
    DTV_ISDBT_PARTIAL_RECEPTION,
    DTV_ISDBT_SOUND_BROADCASTING,
    DTV_ISDBT_SB_SUBCHANNEL_ID,
    DTV_ISDBT_SB_SEGMENT_IDX,
    DTV_ISDBT_SB_SEGMENT_COUNT,
    DTV_ISDBT_LAYERA_FEC,
    DTV_ISDBT_LAYERA_MODULATION,
    DTV_ISDBT_LAYERA_SEGMENT_COUNT,
    DTV_ISDBT_LAYERA_TIME_INTERLEAVING,
    DTV_ISDBT_LAYERB_FEC,
    DTV_ISDBT_LAYERB_MODULATION,
    DTV_ISDBT_LAYERB_SEGMENT_COUNT,
    DTV_ISDBT_LAYERB_TIME_INTERLEAVING,
    DTV_ISDBT_LAYERC_FEC,
    DTV_ISDBT_LAYERC_MODULATION,
    DTV_ISDBT_LAYERC_SEGMENT_COUNT,
    DTV_ISDBT_LAYERC_TIME_INTERLEAVING,
    DTV_API_VERSION,
    DTV_CODE_RATE_HP,
    DTV_CODE_RATE_LP,
    DTV_GUARD_INTERVAL,
    DTV_TRANSMISSION_MODE,
    DTV_HIERARCHY,
    DTV_ISDBT_LAYER_ENABLED,
    DTV_STREAM_ID,
    DTV_DVBT2_PLP_ID_LEGACY,
    /// Enumerate the delivery systems the tuner can work with.
    DTV_ENUM_DELSYS,
    DTV_ATSCMH_FIC_VER,
    DTV_ATSCMH_PARADE_ID,
    DTV_ATSCMH_NOG,
    DTV_ATSCMH_TNOG,
    DTV_ATSCMH_SGN,
    DTV_ATSCMH_PRC,
    DTV_ATSCMH_RS_FRAME_MODE,
    DTV_ATSCMH_RS_FRAME_ENSEMBLE,
    DTV_ATSCMH_RS_CODE_MODE_PRI,
    DTV_ATSCMH_RS_CODE_MODE_SEC,
    DTV_ATSCMH_SCCC_BLOCK_MODE,
    DTV_ATSCMH_SCCC_CODE_MODE_A,
    DTV_ATSCMH_SCCC_CODE_MODE_B,
    DTV_ATSCMH_SCCC_CODE_MODE_C,
    DTV_ATSCMH_SCCC_CODE_MODE_D,
    DTV_INTERLEAVING,
    DTV_LNA,
    /// Signal strength at the analog part of the tuner or of the demod.
    DTV_STAT_SIGNAL_STRENGTH,
    /// Signal to noise ratio for the main carrier.
    DTV_STAT_CNR,
    /// Bit errors counted before the inner coding.
    DTV_STAT_PRE_ERROR_BIT_COUNT,
    /// Bits counted while measuring the pre-coding bit errors.
    DTV_STAT_PRE_TOTAL_BIT_COUNT,
    DTV_STAT_POST_ERROR_BIT_COUNT,
    DTV_STAT_POST_TOTAL_BIT_COUNT,
    DTV_STAT_ERROR_BLOCK_COUNT,
    /// Blocks counted while measuring the block errors.
    DTV_STAT_TOTAL_BLOCK_COUNT,
    DTV_SCRAMBLING_SEQUENCE_INDEX,
}

impl Command {
    /// Kernel id of this command.
    pub open spec fn spec_id(self) -> u32 {
        match self {
            Command::DTV_UNDEFINED => 0,
            Command::DTV_TUNE => 1,
            Command::DTV_CLEAR => 2,
            Command::DTV_FREQUENCY => 3,
            Command::DTV_MODULATION => 4,
            Command::DTV_BANDWIDTH_HZ => 5,
            Command::DTV_INVERSION => 6,
            Command::DTV_DISEQC_MASTER => 7,
            Command::DTV_SYMBOL_RATE => 8,
            Command::DTV_INNER_FEC => 9,
            Command::DTV_VOLTAGE => 10,
            Command::DTV_TONE => 11,
            Command::DTV_PILOT => 12,
            Command::DTV_ROLLOFF => 13,
            Command::DTV_DISEQC_SLAVE_REPLY => 14,
            Command::DTV_FE_CAPABILITY_COUNT => 15,
            Command::DTV_FE_CAPABILITY => 16,
            Command::DTV_DELIVERY_SYSTEM => 17,
            Command::DTV_ISDBT_PARTIAL_RECEPTION => 18,
            Command::DTV_ISDBT_SOUND_BROADCASTING => 19,
            Command::DTV_ISDBT_SB_SUBCHANNEL_ID => 20,
            Command::DTV_ISDBT_SB_SEGMENT_IDX => 21,
            Command::DTV_ISDBT_SB_SEGMENT_COUNT => 22,
            Command::DTV_ISDBT_LAYERA_FEC => 23,
            Command::DTV_ISDBT_LAYERA_MODULATION => 24,
            Command::DTV_ISDBT_LAYERA_SEGMENT_COUNT => 25,
            Command::DTV_ISDBT_LAYERA_TIME_INTERLEAVING => 26,
            Command::DTV_ISDBT_LAYERB_FEC => 27,
            Command::DTV_ISDBT_LAYERB_MODULATION => 28,
            Command::DTV_ISDBT_LAYERB_SEGMENT_COUNT => 29,
            Command::DTV_ISDBT_LAYERB_TIME_INTERLEAVING => 30,
            Command::DTV_ISDBT_LAYERC_FEC => 31,
            Command::DTV_ISDBT_LAYERC_MODULATION => 32,
            Command::DTV_ISDBT_LAYERC_SEGMENT_COUNT => 33,
            Command::DTV_ISDBT_LAYERC_TIME_INTERLEAVING => 34,
            Command::DTV_API_VERSION => 35,
            Command::DTV_CODE_RATE_HP => 36,
            Command::DTV_CODE_RATE_LP => 37,
            Command::DTV_GUARD_INTERVAL => 38,
            Command::DTV_TRANSMISSION_MODE => 39,
            Command::DTV_HIERARCHY => 40,
            Command::DTV_ISDBT_LAYER_ENABLED => 41,
            Command::DTV_STREAM_ID => 42,
            Command::DTV_DVBT2_PLP_ID_LEGACY => 43,
            Command::DTV_ENUM_DELSYS => 44,
            Command::DTV_ATSCMH_FIC_VER => 45,
            Command::DTV_ATSCMH_PARADE_ID => 46,
            Command::DTV_ATSCMH_NOG => 47,
            Command::DTV_ATSCMH_TNOG => 48,
            Command::DTV_ATSCMH_SGN => 49,
            Command::DTV_ATSCMH_PRC => 50,
            Command::DTV_ATSCMH_RS_FRAME_MODE => 51,
            Command::DTV_ATSCMH_RS_FRAME_ENSEMBLE => 52,
            Command::DTV_ATSCMH_RS_CODE_MODE_PRI => 53,
            Command::DTV_ATSCMH_RS_CODE_MODE_SEC => 54,
            Command::DTV_ATSCMH_SCCC_BLOCK_MODE => 55,
            Command::DTV_ATSCMH_SCCC_CODE_MODE_A => 56,
            Command::DTV_ATSCMH_SCCC_CODE_MODE_B => 57,
            Command::DTV_ATSCMH_SCCC_CODE_MODE_C => 58,
            Command::DTV_ATSCMH_SCCC_CODE_MODE_D => 59,
            Command::DTV_INTERLEAVING => 60,
            Command::DTV_LNA => 61,
            Command::DTV_STAT_SIGNAL_STRENGTH => 62,
            Command::DTV_STAT_CNR => 63,
            Command::DTV_STAT_PRE_ERROR_BIT_COUNT => 64,
            Command::DTV_STAT_PRE_TOTAL_BIT_COUNT => 65,
            Command::DTV_STAT_POST_ERROR_BIT_COUNT => 66,
            Command::DTV_STAT_POST_TOTAL_BIT_COUNT => 67,
            Command::DTV_STAT_ERROR_BLOCK_COUNT => 68,
            Command::DTV_STAT_TOTAL_BLOCK_COUNT => 69,
            Command::DTV_SCRAMBLING_SEQUENCE_INDEX => 70,
        }
    }

    /// Kernel id of this command.
    pub fn id(self) -> (r: u32)
        ensures
            r == self.spec_id(),
    {
        match self {
            Command::DTV_UNDEFINED => 0,
            Command::DTV_TUNE => 1,
            Command::DTV_CLEAR => 2,
            Command::DTV_FREQUENCY => 3,
            Command::DTV_MODULATION => 4,
            Command::DTV_BANDWIDTH_HZ => 5,
            Command::DTV_INVERSION => 6,
            Command::DTV_DISEQC_MASTER => 7,
            Command::DTV_SYMBOL_RATE => 8,
            Command::DTV_INNER_FEC => 9,
            Command::DTV_VOLTAGE => 10,
            Command::DTV_TONE => 11,
            Command::DTV_PILOT => 12,
            Command::DTV_ROLLOFF => 13,
            Command::DTV_DISEQC_SLAVE_REPLY => 14,
            Command::DTV_FE_CAPABILITY_COUNT => 15,
            Command::DTV_FE_CAPABILITY => 16,
            Command::DTV_DELIVERY_SYSTEM => 17,
            Command::DTV_ISDBT_PARTIAL_RECEPTION => 18,
            Command::DTV_ISDBT_SOUND_BROADCASTING => 19,
            Command::DTV_ISDBT_SB_SUBCHANNEL_ID => 20,
            Command::DTV_ISDBT_SB_SEGMENT_IDX => 21,
            Command::DTV_ISDBT_SB_SEGMENT_COUNT => 22,
            Command::DTV_ISDBT_LAYERA_FEC => 23,
            Command::DTV_ISDBT_LAYERA_MODULATION => 24,
            Command::DTV_ISDBT_LAYERA_SEGMENT_COUNT => 25,
            Command::DTV_ISDBT_LAYERA_TIME_INTERLEAVING => 26,
            Command::DTV_ISDBT_LAYERB_FEC => 27,
            Command::DTV_ISDBT_LAYERB_MODULATION => 28,
            Command::DTV_ISDBT_LAYERB_SEGMENT_COUNT => 29,
            Command::DTV_ISDBT_LAYERB_TIME_INTERLEAVING => 30,
            Command::DTV_ISDBT_LAYERC_FEC => 31,
            Command::DTV_ISDBT_LAYERC_MODULATION => 32,
            Command::DTV_ISDBT_LAYERC_SEGMENT_COUNT => 33,
            Command::DTV_ISDBT_LAYERC_TIME_INTERLEAVING => 34,
            Command::DTV_API_VERSION => 35,
            Command::DTV_CODE_RATE_HP => 36,
            Command::DTV_CODE_RATE_LP => 37,
            Command::DTV_GUARD_INTERVAL => 38,
            Command::DTV_TRANSMISSION_MODE => 39,
            Command::DTV_HIERARCHY => 40,
            Command::DTV_ISDBT_LAYER_ENABLED => 41,
            Command::DTV_STREAM_ID => 42,
            Command::DTV_DVBT2_PLP_ID_LEGACY => 43,
            Command::DTV_ENUM_DELSYS => 44,
            Command::DTV_ATSCMH_FIC_VER => 45,
            Command::DTV_ATSCMH_PARADE_ID => 46,
            Command::DTV_ATSCMH_NOG => 47,
            Command::DTV_ATSCMH_TNOG => 48,
            Command::DTV_ATSCMH_SGN => 49,
            Command::DTV_ATSCMH_PRC => 50,
            Command::DTV_ATSCMH_RS_FRAME_MODE => 51,
            Command::DTV_ATSCMH_RS_FRAME_ENSEMBLE => 52,
            Command::DTV_ATSCMH_RS_CODE_MODE_PRI => 53,
            Command::DTV_ATSCMH_RS_CODE_MODE_SEC => 54,
            Command::DTV_ATSCMH_SCCC_BLOCK_MODE => 55,
            Command::DTV_ATSCMH_SCCC_CODE_MODE_A => 56,
            Command::DTV_ATSCMH_SCCC_CODE_MODE_B => 57,
            Command::DTV_ATSCMH_SCCC_CODE_MODE_C => 58,
            Command::DTV_ATSCMH_SCCC_CODE_MODE_D => 59,
            Command::DTV_INTERLEAVING => 60,
            Command::DTV_LNA => 61,
            Command::DTV_STAT_SIGNAL_STRENGTH => 62,
            Command::DTV_STAT_CNR => 63,
            Command::DTV_STAT_PRE_ERROR_BIT_COUNT => 64,
            Command::DTV_STAT_PRE_TOTAL_BIT_COUNT => 65,
            Command::DTV_STAT_POST_ERROR_BIT_COUNT => 66,
            Command::DTV_STAT_POST_TOTAL_BIT_COUNT => 67,
            Command::DTV_STAT_ERROR_BLOCK_COUNT => 68,
            Command::DTV_STAT_TOTAL_BLOCK_COUNT => 69,
            Command::DTV_SCRAMBLING_SEQUENCE_INDEX => 70,
        }
    }
}

/// Which of the three payload interpretations a command produces.
#[derive(Debug, Clone, Copy, PartialEq, Eq, Structural)]
pub enum PayloadKind {
    /// One 32-bit scalar.
    Scalar,
    /// Scale-tagged statistics samples.
    Stats,
    /// Length-prefixed byte buffer.
    Buffer,
}

impl Command {
    /// The payload interpretation this command produces. The delivery
    /// system enumeration fills the byte buffer, the quality statistics
    /// fill the sample array, and every other command reads or writes the
    /// plain scalar.
    pub open spec fn spec_payload_kind(self) -> PayloadKind {
        match self {
            Command::DTV_ENUM_DELSYS => PayloadKind::Buffer,
            Command::DTV_STAT_SIGNAL_STRENGTH
            | Command::DTV_STAT_CNR
            | Command::DTV_STAT_PRE_ERROR_BIT_COUNT
            | Command::DTV_STAT_PRE_TOTAL_BIT_COUNT
            | Command::DTV_STAT_POST_ERROR_BIT_COUNT
            | Command::DTV_STAT_POST_TOTAL_BIT_COUNT
            | Command::DTV_STAT_ERROR_BLOCK_COUNT
            | Command::DTV_STAT_TOTAL_BLOCK_COUNT => PayloadKind::Stats,
            _ => PayloadKind::Scalar,
        }
    }

    /// The payload interpretation this command produces.
    pub fn payload_kind(self) -> (r: PayloadKind)
        ensures
            r == self.spec_payload_kind(),
    {
        match self {
            Command::DTV_ENUM_DELSYS => PayloadKind::Buffer,
            Command::DTV_STAT_SIGNAL_STRENGTH
            | Command::DTV_STAT_CNR
            | Command::DTV_STAT_PRE_ERROR_BIT_COUNT
            | Command::DTV_STAT_PRE_TOTAL_BIT_COUNT
            | Command::DTV_STAT_POST_ERROR_BIT_COUNT
            | Command::DTV_STAT_POST_TOTAL_BIT_COUNT
            | Command::DTV_STAT_ERROR_BLOCK_COUNT
            | Command::DTV_STAT_TOTAL_BLOCK_COUNT => PayloadKind::Stats,
            _ => PayloadKind::Scalar,
        }
    }
}

/// One scale-tagged statistics sample as stored in an entry: the raw scale
/// byte and the 64 sample bits.
#[derive(Debug, Clone, Copy, PartialEq, Eq, Structural)]
pub struct DtvStats {
    /// Raw scale tag byte; interpreted by `FeCapScaleParams::try_from`.
    pub scale: u8,
    /// Raw sample bits.
    pub value: DtvStatsValue,
}

/// The 64 sample bits of a statistics entry. The scale tag of the sample
/// decides whether they are read as signed or unsigned; both reads preserve
/// the bits.
#[derive(Debug, Clone, Copy, PartialEq, Eq, Structural)]
pub struct DtvStatsValue {
    pub bits: u64,
}

impl DtvStatsValue {
    /// The bits read as an unsigned number.
    pub fn uvalue(self) -> (r: u64)
        ensures
            r == self.bits,
    {
        self.bits
    }

    /// The bits read as a signed number.
    pub fn svalue(self) -> (r: i64)
        ensures
            r == self.bits as i64,
    {
        #[verifier::truncate] (self.bits as i64)
    }

    /// Store unsigned sample bits.
    pub fn from_uvalue(value: u64) -> (r: DtvStatsValue)
        ensures
            r.bits == value,
    {
        DtvStatsValue { bits: value }
    }

    /// Store signed sample bits.
    pub fn from_svalue(value: i64) -> (r: DtvStatsValue)
        ensures
            r.bits == value as u64,
    {
        DtvStatsValue { bits: #[verifier::truncate] (value as u64) }
    }
}

/// The statistics interpretation of an entry payload: a count and up to
/// four scale-tagged samples.
#[derive(Debug, Clone, Copy)]
pub struct DtvFeStats {
    /// How many of the four sample slots are filled.
    pub len: u8,
    /// The sample slots.
    pub stat: [DtvStats; 4],
}

/// The buffer interpretation of an entry payload: thirty-two bytes and an
/// explicit length.
#[derive(Debug, Clone, Copy)]
pub struct DtvPropertyABuffer {
    /// The byte storage.
    pub data: [u8; 32],
    /// How many of the bytes are meaningful.
    pub len: u32,
}

/// Payload of one transaction entry.
///
/// The kernel keeps these three interpretations in one untyped memory
/// region, with no tag at the container level: only the command that
/// produced an entry says which interpretation is the right one. Keeping
/// them as a closed tagged variant makes every read state, and prove, which
/// command justifies it.
#[derive(Debug, Clone, Copy)]
pub enum DtvPropertyUnion {
    /// One 32-bit scalar.
    Data(u32),
    /// Scale-tagged statistics samples.
    St(DtvFeStats),
    /// Length-prefixed byte buffer.
    Buffer(DtvPropertyABuffer),
}

/// One slot of the transaction array: a command id, a payload, and the
/// per-entry result the kernel fills in. A negative result signals
/// per-entry failure; it is meaningful only after the entry took part in an
/// executed transaction.
#[derive(Debug, Clone, Copy)]
pub struct DtvProperty {
    /// Kernel id of the command, as the catalog gives it.
    pub cmd: u32,
    /// The payload, written by the caller for a write and by the kernel for
    /// a read.
    pub u: DtvPropertyUnion,
    /// Per-entry result code filled by the kernel.
    pub result: i32,
}

impl DtvProperty {
    /// An entry for a command that carries no argument.
    pub fn new_empty(cmd: Command) -> (r: DtvProperty)
        ensures
            r == (DtvProperty {
                cmd: cmd.spec_id(),
                u: DtvPropertyUnion::Data(0),
                result: 0,
            }),
    {
        DtvProperty { cmd: cmd.id(), u: DtvPropertyUnion::Data(0), result: 0 }
    }

    /// An entry carrying one scalar argument.
    pub fn new_data(cmd: Command, data: u32) -> (r: DtvProperty)
        ensures
            r == (DtvProperty {
                cmd: cmd.spec_id(),
                u: DtvPropertyUnion::Data(data),
                result: 0,
            }),
    {
        DtvProperty { cmd: cmd.id(), u: DtvPropertyUnion::Data(data), result: 0 }
    }
}

/// Scale of a quality measurement.
#[derive(Debug, Clone, Copy, PartialEq, Eq, Structural)]
#[allow(non_camel_case_types)]
pub enum FeCapScaleParams {
    /// The measure is not available, temporarily or permanently.
    FE_SCALE_NOT_AVAILABLE,
    /// The scale is measured in 0.001 dB steps.
    FE_SCALE_DECIBEL,
    /// The scale is a relative measure, from 0 (0%) to 65535 (100%).
    FE_SCALE_RELATIVE,
    /// The scale counts occurrences of an event.
    FE_SCALE_COUNTER,
}

impl FeCapScaleParams {
    /// Kernel id of this scale.
    pub open spec fn spec_id(self) -> u8 {
        match self {
            FeCapScaleParams::FE_SCALE_NOT_AVAILABLE => 0,
            FeCapScaleParams::FE_SCALE_DECIBEL => 1,
            FeCapScaleParams::FE_SCALE_RELATIVE => 2,
            FeCapScaleParams::FE_SCALE_COUNTER => 3,
        }
    }

    /// Kernel id of this scale.
    pub fn id(self) -> (r: u8)
        ensures
            r == self.spec_id(),
    {
        match self {
            FeCapScaleParams::FE_SCALE_NOT_AVAILABLE => 0,
            FeCapScaleParams::FE_SCALE_DECIBEL => 1,
            FeCapScaleParams::FE_SCALE_RELATIVE => 2,
            FeCapScaleParams::FE_SCALE_COUNTER => 3,
        }
    }

    /// The scale with the given tag byte, if there is one. An unknown tag
    /// byte decodes to nothing: it indicates a version mismatch between
    /// kernel and catalog and must not be coerced to a known scale.
    pub open spec fn spec_try_from(value: u8) -> Option<FeCapScaleParams> {
        if value == 0 {
            Some(FeCapScaleParams::FE_SCALE_NOT_AVAILABLE)
        } else if value == 1 {
            Some(FeCapScaleParams::FE_SCALE_DECIBEL)
        } else if value == 2 {
            Some(FeCapScaleParams::FE_SCALE_RELATIVE)
        } else if value == 3 {
            Some(FeCapScaleParams::FE_SCALE_COUNTER)
        } else {
            None
        }
    }

    /// The scale with the given tag byte, if there is one.
    pub fn try_from(value: u8) -> (r: Option<FeCapScaleParams>)
        ensures
            r == FeCapScaleParams::spec_try_from(value),
    {
        match value {
            0 => Some(FeCapScaleParams::FE_SCALE_NOT_AVAILABLE),
            1 => Some(FeCapScaleParams::FE_SCALE_DECIBEL),
            2 => Some(FeCapScaleParams::FE_SCALE_RELATIVE),
            3 => Some(FeCapScaleParams::FE_SCALE_COUNTER),
            _ => None,
        }
    }
}

} // verus!
