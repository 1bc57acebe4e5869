//! Native status codes and their mapping to success or failure.
//!
//! Every call into the native counter facility returns an integer status.
//! Exactly one value, [`PAPI_OK`], means success; every other value is a
//! failure that carries the status code and a human-readable description.

use vstd::prelude::*;

verus! {

/// The native facility's success sentinel; every other status is a failure.
pub const PAPI_OK: i32 = 0;

/// A failure reported by the native counter facility.
///
/// It keeps the raw status code verbatim, so a caller can match on the exact
/// condition; [`CounterError::description`] yields the code's standard
/// human-readable description.
#[derive(Clone, Copy, PartialEq, Eq, Structural, Debug)]
pub struct CounterError {
    pub status: i32,
}

/// The standard description of a native status code; codes outside the
/// documented range share the description of the "unknown error" code.
pub open spec fn spec_status_description(status: i32) -> Seq<char> {
    if status == 0 {
        "No error"@
    } else if status == -1 {
        "Invalid argument"@
    } else if status == -2 {
        "Insufficient memory"@
    } else if status == -3 {
        "A System/C library call failed"@
    } else if status == -4 {
        "Not supported by component"@
    } else if status == -5 {
        "Access to the counters was lost or interrupted"@
    } else if status == -6 {
        "Internal error, please send mail to the developers"@
    } else if status == -7 {
        "Event does not exist"@
    } else if status == -8 {
        "Event exists, but cannot be counted due to counter resource limitations"@
    } else if status == -9 {
        "EventSet is currently not running"@
    } else if status == -10 {
        "EventSet is currently counting"@
    } else if status == -11 {
        "No such EventSet Available"@
    } else if status == -12 {
        "Event in argument is not a valid preset"@
    } else if status == -13 {
        "Hardware does not support performance counters"@
    } else if status == -15 {
        "Permission level does not permit operation"@
    } else if status == -16 {
        "PAPI hasn't been initialized yet"@
    } else if status == -17 {
        "Component Index isn't set"@
    } else if status == -18 {
        "Not supported"@
    } else if status == -19 {
        "Not implemented"@
    } else if status == -20 {
        "Buffer size exceeded"@
    } else if status == -21 {
        "EventSet domain is not supported for the operation"@
    } else if status == -22 {
        "Invalid or missing event attributes"@
    } else if status == -23 {
        "Too many events or attributes"@
    } else if status == -24 {
        "Bad combination of features"@
    } else {
        "Unknown error code"@
    }
}

/// The standard description of a native status code.
pub fn status_description(status: i32) -> (r: &'static str)
    ensures
        r@ == spec_status_description(status),
{
    if status == 0 {
        "No error"
    } else if status == -1 {
        "Invalid argument"
    } else if status == -2 {
        "Insufficient memory"
    } else if status == -3 {
        "A System/C library call failed"
    } else if status == -4 {
        "Not supported by component"
    } else if status == -5 {
        "Access to the counters was lost or interrupted"
    } else if status == -6 {
        "Internal error, please send mail to the developers"
    } else if status == -7 {
        "Event does not exist"
    } else if status == -8 {
        "Event exists, but cannot be counted due to counter resource limitations"
    } else if status == -9 {
        "EventSet is currently not running"
    } else if status == -10 {
        "EventSet is currently counting"
    } else if status == -11 {
        "No such EventSet Available"
    } else if status == -12 {
        "Event in argument is not a valid preset"
    } else if status == -13 {
        "Hardware does not support performance counters"
    } else if status == -15 {
        "Permission level does not permit operation"
    } else if status == -16 {
        "PAPI hasn't been initialized yet"
    } else if status == -17 {
        "Component Index isn't set"
    } else if status == -18 {
        "Not supported"
    } else if status == -19 {
        "Not implemented"
    } else if status == -20 {
        "Buffer size exceeded"
    } else if status == -21 {
        "EventSet domain is not supported for the operation"
    } else if status == -22 {
        "Invalid or missing event attributes"
    } else if status == -23 {
        "Too many events or attributes"
    } else if status == -24 {
        "Bad combination of features"
    } else {
        "Unknown error code"
    }
}

impl CounterError {
    /// The standard description of this failure's status code.
    pub fn description(&self) -> (r: &'static str)
        ensures
            r@ == spec_status_description(self.status),
    {
        status_description(self.status)
    }
}

/// Maps a native status to success or to a failure carrying that status:
/// `Ok` exactly on the success sentinel.
pub fn check_status(status: i32) -> (r: Result<(), CounterError>)
    ensures
        r is Ok <==> status == PAPI_OK,
        r matches Err(e) ==> e.status == status,
{
    if status == PAPI_OK {
        Ok(())
    } else {
        Err(CounterError { status })
    }
}

} // verus!
