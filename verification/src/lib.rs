//! Typed access to the Linux digital-TV tuner property interface.
//!
//! The tuner kernel API exposes one fixed-size array of up to 64 property
//! entries, each an integer command id plus a raw union payload, submitted in
//! a single batched call for either reading or writing. This crate models the
//! entry layout as a closed tagged payload, pairs every command with its
//! decoder, and enforces the batch bound and the not-yet-run / already-run
//! query lifecycle through verified contracts. The system calls themselves
//! are left to the surrounding application; everything here is pure logic on
//! plain values.

use vstd::prelude::*;

pub mod demux;
pub mod devices;
pub mod error;
pub mod frontend;

verus! {

/// ioctl type byte shared by all digital-TV ioctls.
pub const IOCTL_TYPE: u8 = 111;

} // verus!
