//! ioctl numbers of the tuner calls.
//!
//! The numbers are a fixed kernel catalog; the calls themselves are made
//! by the surrounding application.

use vstd::prelude::*;

verus! {

/// Read the static capability data of a tuner.
pub const FE_GET_INFO: u8 = 61;

/// Read the status word of a tuner.
pub const FE_READ_STATUS: u8 = 69;

/// Write a property transaction to a tuner.
pub const FE_SET_PROPERTY: u8 = 82;

/// Read a property transaction from a tuner.
pub const FE_GET_PROPERTY: u8 = 83;

} // verus!
