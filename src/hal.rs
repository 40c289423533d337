//! Typed results for readings taken from the HAL.
use vstd::prelude::*;

verus! {

/// A failure reported by the HAL, carrying the HAL's own status code.
#[derive(Clone, Copy, Debug, PartialEq, Eq, Structural)]
pub struct HalError(pub i32);

/// A HAL reading, or the failure the HAL reported instead of it.
pub type HalResult<T> = Result<T, HalError>;

/// The HAL writes a status word beside every reading: zero means the
/// reading is valid, anything else is an error code.
pub open spec fn status_result<T>(value: T, status: i32) -> HalResult<T> {
    if status == 0 {
        Ok(value)
    } else {
        Err(HalError(status))
    }
}

/// Wraps a raw reading and its status word into a typed result.
pub fn check_status<T>(value: T, status: i32) -> (r: HalResult<T>)
    ensures
        r == status_result(value, status),
{
    if status == 0 {
        Ok(value)
    } else {
        Err(HalError(status))
    }
}

/// Wraps a HAL boolean (an integer, nonzero for true) and its status word.
pub fn check_flag(raw: i32, status: i32) -> (r: HalResult<bool>)
    ensures
        r == status_result(raw != 0, status),
{
    check_status(raw != 0, status)
}

} // verus!
