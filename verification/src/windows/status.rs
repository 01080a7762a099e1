//! Status codes of the network stack.

use crate::windows::error::OsError;
use vstd::prelude::*;

verus! {

/// The status of a call that succeeded.
pub const NO_ERROR: u32 = 0;

/// The status of a lookup that found nothing.
pub const ERROR_NOT_FOUND: u32 = 1168;

/// The error code that a status is reported with: the same thirty-two bits,
/// read as a signed number.
pub open spec fn error_code(status: u32) -> i32 {
    if status < 0x8000_0000 {
        status as i32
    } else {
        (status - 0x1_0000_0000) as i32
    }
}

/// What a status says of a call: success for `NO_ERROR`, and the status as an
/// error code otherwise.
pub open spec fn status_outcome(status: u32) -> Result<(), OsError> {
    if status == NO_ERROR {
        Ok(())
    } else {
        Err(OsError { code: error_code(status) })
    }
}

/// What the status of a lookup says of the entry that was looked up: it
/// exists, it does not exist, or the lookup failed.
pub open spec fn lookup_outcome(status: u32) -> Result<bool, OsError> {
    if status == NO_ERROR {
        Ok(true)
    } else if status == ERROR_NOT_FOUND {
        Ok(false)
    } else {
        Err(OsError { code: error_code(status) })
    }
}

/// The error that reports a status.
pub fn os_error(status: u32) -> (error: OsError)
    ensures
        error.code == error_code(status),
{
    if status < 0x8000_0000 {
        OsError { code: status as i32 }
    } else {
        OsError { code: (status - 0x8000_0000) as i32 - 0x7FFF_FFFF - 1 }
    }
}

/// Turns the status of a call into its outcome.
pub fn check_status(status: u32) -> (outcome: Result<(), OsError>)
    ensures
        outcome == status_outcome(status),
{
    if status == NO_ERROR {
        Ok(())
    } else {
        Err(os_error(status))
    }
}

/// Tells from the status of a lookup whether the entry exists. A lookup that
/// failed for another reason than a missing entry is an error.
pub fn entry_exists(status: u32) -> (outcome: Result<bool, OsError>)
    ensures
        outcome == lookup_outcome(status),
{
    if status == NO_ERROR {
        Ok(true)
    } else if status == ERROR_NOT_FOUND {
        Ok(false)
    } else {
        Err(os_error(status))
    }
}

} // verus!
