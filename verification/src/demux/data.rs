//! Parameter structures for the section and stream filter calls.
//!
//! These are plain values handed to the filter configuration calls; the
//! calls themselves live outside this crate.

use vstd::prelude::*;

verus! {

/// Number of bytes in a section filter pattern.
pub const DMX_FILTER_SIZE: usize = 16;

/// Where filtered data is delivered.
#[derive(Debug, Clone, Copy, PartialEq, Eq, Structural)]
#[allow(non_camel_case_types)]
pub enum DmxOutput {
    DMX_OUT_DECODER,
    DMX_OUT_TAP,
    DMX_OUT_TS_TAP,
    DMX_OUT_TSDEMUX_TAP,
}

/// Where the demultiplexer takes its data from.
#[derive(Debug, Clone, Copy, PartialEq, Eq, Structural)]
#[allow(non_camel_case_types)]
pub enum DmxInput {
    DMX_IN_FRONTEND,
    DMX_IN_DVR,
}

/// Kind of elementary stream a filter selects.
#[derive(Debug, Clone, Copy, PartialEq, Eq, Structural)]
#[allow(non_camel_case_types)]
pub enum DmxTsPes {
    DMX_PES_AUDIO0,
    DMX_PES_VIDEO0,
    DMX_PES_TELETEXT0,
    DMX_PES_SUBTITLE0,
    DMX_PES_PCR0,
    DMX_PES_AUDIO1,
    DMX_PES_VIDEO1,
    DMX_PES_TELETEXT1,
    DMX_PES_SUBTITLE1,
    DMX_PES_PCR1,
    DMX_PES_AUDIO2,
    DMX_PES_VIDEO2,
    DMX_PES_TELETEXT2,
    DMX_PES_SUBTITLE2,
    DMX_PES_PCR2,
    DMX_PES_AUDIO3,
    DMX_PES_VIDEO3,
    DMX_PES_TELETEXT3,
    DMX_PES_SUBTITLE3,
    DMX_PES_PCR3,
    DMX_PES_OTHER,
}

/// Section header filter: pattern, mask and mode bytes.
#[derive(Debug, Clone, Copy)]
pub struct DmxFilter {
    pub filter: [u8; DMX_FILTER_SIZE],
    pub mask: [u8; DMX_FILTER_SIZE],
    pub mode: [u8; DMX_FILTER_SIZE],
}

/// Configuration for a section filter on one packet id.
#[derive(Debug, Clone, Copy)]
pub struct DmxSctFilterParams {
    /// Packet id to be filtered.
    pub pid: u16,
    /// Section header filter pattern.
    pub filter: DmxFilter,
    /// Maximum time to filter, in milliseconds.
    pub timeout: u32,
    /// Extra flags for the section filter.
    pub flags: u32,
}

/// Configuration for a packetized elementary stream filter.
#[derive(Debug, Clone, Copy)]
pub struct DmxPesFilterParams {
    /// Packet id to be filtered.
    pub pid: u16,
    /// Demultiplexer input.
    pub input: DmxInput,
    /// Demultiplexer output.
    pub output: DmxOutput,
    /// Kind of stream the filter selects.
    pub pes_type: DmxTsPes,
    /// Extra flags for the stream filter.
    pub flags: u32,
}

/// System time counter reading.
#[derive(Debug, Clone, Copy)]
pub struct DmxStc {
    /// Input: number of the counter to read.
    pub num: u32,
    /// Output: divisor to get a 90 kHz clock.
    pub base: u32,
    /// Output: counter value in `base` times 90 kHz units.
    pub stc: u64,
}

} // verus!
