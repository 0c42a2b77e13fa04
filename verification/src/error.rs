//! Error taxonomy for the tuner and demultiplexer calls.
//!
//! Two independent failure channels exist and are kept apart: the batched
//! call itself can fail with an operating-system error code, and a single
//! entry of a completed batch can carry a negative per-entry result. OS
//! error codes are carried as plain `i32` errno values; the two codes the
//! drivers document get named variants, every other code is preserved
//! verbatim so no information is discarded.

use vstd::prelude::*;

verus! {

/// Errno returned by a driver for an invalid argument.
pub const EINVAL: i32 = 22;

/// Errno returned by a driver for a busy resource.
pub const EBUSY: i32 = 16;

/// Failure of the filter-start call.
#[derive(Debug, Clone, Copy, PartialEq, Eq, Structural)]
pub enum DmxStartError {
    /// Invalid argument: no filtering parameters were provided beforehand.
    InvalidArgument,
    /// Conflicting requests: active filters are filtering data from another
    /// input source and must be stopped first.
    Conflicting,
    /// Any other error code from the call, preserved verbatim.
    Undefined(i32),
}

impl core::convert::From<i32> for DmxStartError {
    /// Classify the errno of a failed filter-start call.
    fn from(value: i32) -> (r: DmxStartError) {
        if value == EINVAL {
            DmxStartError::InvalidArgument
        } else if value == EBUSY {
            DmxStartError::Conflicting
        } else {
            DmxStartError::Undefined(value)
        }
    }
}

impl vstd::std_specs::convert::FromSpecImpl<i32> for DmxStartError {
    open spec fn obeys_from_spec() -> bool {
        true
    }

    open spec fn from_spec(value: i32) -> DmxStartError {
        if value == EINVAL {
            DmxStartError::InvalidArgument
        } else if value == EBUSY {
            DmxStartError::Conflicting
        } else {
            DmxStartError::Undefined(value)
        }
    }
}

/// Failure of the stream-filter configuration call.
#[derive(Debug, Clone, Copy, PartialEq, Eq, Structural)]
pub enum DmxSetPesFilterError {
    /// Conflicting requests: another input source is already being filtered.
    Conflicting,
    /// Any other error code from the call, preserved verbatim.
    Undefined(i32),
}

impl core::convert::From<i32> for DmxSetPesFilterError {
    /// Classify the errno of a failed stream-filter configuration call.
    fn from(value: i32) -> (r: DmxSetPesFilterError) {
        if value == EBUSY {
            DmxSetPesFilterError::Conflicting
        } else {
            DmxSetPesFilterError::Undefined(value)
        }
    }
}

impl vstd::std_specs::convert::FromSpecImpl<i32> for DmxSetPesFilterError {
    open spec fn obeys_from_spec() -> bool {
        true
    }

    open spec fn from_spec(value: i32) -> DmxSetPesFilterError {
        if value == EBUSY {
            DmxSetPesFilterError::Conflicting
        } else {
            DmxSetPesFilterError::Undefined(value)
        }
    }
}

/// Failure of a whole property transaction.
#[derive(Debug, Clone, Copy, PartialEq, Eq, Structural)]
pub enum PropertyError {
    /// The transaction would exceed the kernel bound on entries per call.
    /// Raised from a local count check, before any system call.
    TooManyParameters,
    /// The batched read call failed with this errno.
    GetProperty(i32),
    /// The batched write call failed with this errno.
    SetProperty(i32),
}

/// Failure of retrieving the value of one typed query.
#[derive(Debug, Clone, Copy, PartialEq, Eq, Structural)]
pub enum DtvError {
    /// The query was asked for its value before the batch that fills it ran.
    NotRan,
    /// The kernel reported this negative per-entry result code.
    Reported(i32),
}

} // verus!
