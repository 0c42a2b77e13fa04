//! The batch bound and the transaction-level error mapping.
//!
//! A property transaction is one batched call carrying up to 64 entries.
//! The decision whether to issue the call at all is pure: an empty
//! transaction is a no-op success, one over the bound is rejected before
//! any call, and anything in between is issued with its exact count. The
//! call itself is left to the surrounding application, which hands any
//! errno back to `properties_call_error`.

use vstd::prelude::*;

use crate::error::PropertyError;
use crate::frontend::data::DTV_IOCTL_MAX_MSGS;

verus! {

/// Decide whether a property transaction of `count` entries issues the
/// batched call.
///
/// `Ok(None)` means the transaction is empty and the call is skipped as a
/// success; `Ok(Some(n))` means the call is to be issued with exactly `n`
/// entries; `Err(TooManyParameters)` rejects a transaction over the kernel
/// bound before any call is attempted.
pub fn plan_properties_call(count: usize) -> (r: Result<Option<u32>, PropertyError>)
    ensures
        count == 0 ==> r == Ok::<Option<u32>, PropertyError>(None),
        0 < count <= DTV_IOCTL_MAX_MSGS ==> r == Ok::<Option<u32>, PropertyError>(
            Some(count as u32),
        ),
        count > DTV_IOCTL_MAX_MSGS ==> r == Err::<Option<u32>, PropertyError>(
            PropertyError::TooManyParameters,
        ),
{
    if count == 0 {
        return Ok(None);
    }
    if count > DTV_IOCTL_MAX_MSGS {
        return Err(PropertyError::TooManyParameters);
    }
    Ok(Some(count as u32))
}

/// Classify the errno of a batched call that was issued and failed: a
/// write failure and a read failure are kept apart, and the code is
/// preserved verbatim.
pub fn properties_call_error(set: bool, errno: i32) -> (e: PropertyError)
    ensures
        set ==> e == PropertyError::SetProperty(errno),
        !set ==> e == PropertyError::GetProperty(errno),
{
    if set {
        PropertyError::SetProperty(errno)
    } else {
        PropertyError::GetProperty(errno)
    }
}

} // verus!
