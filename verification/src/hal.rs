//! Decoding of hardware-interface status codes: every call into the
//! hardware layer reports a status beside its value, and a non-zero status
//! is an error.

use vstd::prelude::*;

verus! {

/// A non-zero status code reported by the hardware interface.
#[derive(Clone, Copy, PartialEq, Eq, Structural, Debug)]
pub struct HalError(pub i32);

impl vstd::std_specs::convert::FromSpecImpl<i32> for HalError {
    open spec fn obeys_from_spec() -> bool {
        true
    }

    open spec fn from_spec(code: i32) -> HalError {
        HalError(code)
    }
}

impl From<i32> for HalError {
    fn from(code: i32) -> (r: Self) {
        HalError(code)
    }
}

/// The result of a hardware-interface call.
pub type HalResult<T> = Result<T, HalError>;

/// Pair a hardware call's out-of-band status with its value: the value is
/// good exactly when the status is zero.
pub fn hal_result<T>(status: i32, value: T) -> (r: HalResult<T>)
    ensures
        status == 0 ==> r == Ok::<T, HalError>(value),
        status != 0 ==> r == Err::<T, HalError>(HalError(status)),
{
    if status == 0 {
        Ok(value)
    } else {
        Err(HalError(status))
    }
}

/// Is the robot browned out? Decodes the raw reading the hardware interface
/// gave for its brown-out flag, under the status it reported.
pub fn is_browned_out(status: i32, raw: i32) -> (r: HalResult<bool>)
    ensures
        status == 0 ==> r == Ok::<bool, HalError>(raw != 0),
        status != 0 ==> r == Err::<bool, HalError>(HalError(status)),
{
    match hal_result(status, raw) {
        Ok(v) => Ok(v != 0),
        Err(e) => Err(e),
    }
}

/// Are outputs enabled? A result of `Ok(false)` could be caused by a
/// disabled robot or a brownout. Decodes the raw reading the hardware
/// interface gave for its system-active flag, under the status it reported.
pub fn is_system_active(status: i32, raw: i32) -> (r: HalResult<bool>)
    ensures
        status == 0 ==> r == Ok::<bool, HalError>(raw != 0),
        status != 0 ==> r == Err::<bool, HalError>(HalError(status)),
{
    match hal_result(status, raw) {
        Ok(v) => Ok(v != 0),
        Err(e) => Err(e),
    }
}

} // verus!
