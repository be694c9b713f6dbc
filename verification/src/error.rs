//! Return codes of the C library and their decoding.

use vstd::prelude::*;

verus! {

/// The call succeeded (`MDBX_SUCCESS`).
pub const MDBX_SUCCESS: i32 = 0;

/// The call succeeded and reports a "true" outcome (`MDBX_RESULT_TRUE`).
pub const MDBX_RESULT_TRUE: i32 = -1;

/// No such key or key/value pair (`MDBX_NOTFOUND`).
pub const MDBX_NOTFOUND: i32 = -30798;

/// Invalid argument or corrupted file (`MDBX_INVALID`).
pub const MDBX_INVALID: i32 = -30793;

/// A failed call, identified by the raw code that the C library returned.
#[derive(Clone, Copy, Debug, PartialEq, Eq, Structural)]
pub struct ErrorCode {
    pub code: i32,
}

/// Whether a raw return code reports success (`MDBX_SUCCESS` or `MDBX_RESULT_TRUE`).
pub open spec fn is_success(code: i32) -> bool {
    code == MDBX_SUCCESS || code == MDBX_RESULT_TRUE
}

/// Converts a raw return code into a `Result<bool, ErrorCode>`.
///
/// - `MDBX_SUCCESS` (0) gives `Ok(false)`
/// - `MDBX_RESULT_TRUE` (-1) gives `Ok(true)`
/// - anything else gives `Err` carrying that very code
pub fn mdbx_result(err_code: i32) -> (r: Result<bool, ErrorCode>)
    ensures
        err_code == MDBX_SUCCESS ==> r == Ok::<bool, ErrorCode>(false),
        err_code == MDBX_RESULT_TRUE ==> r == Ok::<bool, ErrorCode>(true),
        !is_success(err_code) ==> r == Err::<bool, ErrorCode>(ErrorCode { code: err_code }),
{
    if err_code == MDBX_SUCCESS {
        Ok(false)
    } else if err_code == MDBX_RESULT_TRUE {
        Ok(true)
    } else {
        Err(ErrorCode { code: err_code })
    }
}

/// Hands back the value that a call wrote to its out-parameter, once its
/// return code has been checked: the value when the code reports success,
/// the code as an error otherwise.
pub fn checked_value<T>(err_code: i32, value: T) -> (r: Result<T, ErrorCode>)
    ensures
        is_success(err_code) ==> r == Ok::<T, ErrorCode>(value),
        !is_success(err_code) ==> r == Err::<T, ErrorCode>(ErrorCode { code: err_code }),
{
    match mdbx_result(err_code) {
        Ok(_) => Ok(value),
        Err(e) => Err(e),
    }
}

/// Hands back the value that a call wrote to its out-parameter for a call
/// whose only success is `MDBX_SUCCESS`: there `MDBX_RESULT_TRUE` reports a
/// failure (an overflowed sequence increment, an aborted commit), so every
/// code but `MDBX_SUCCESS` is an error that keeps the code.
pub fn checked_value_strict<T>(err_code: i32, value: T) -> (r: Result<T, ErrorCode>)
    ensures
        err_code == MDBX_SUCCESS ==> r == Ok::<T, ErrorCode>(value),
        err_code != MDBX_SUCCESS ==> r == Err::<T, ErrorCode>(ErrorCode { code: err_code }),
{
    if err_code == MDBX_SUCCESS {
        Ok(value)
    } else {
        Err(ErrorCode { code: err_code })
    }
}

} // verus!
