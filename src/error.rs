//! The status vocabulary exchanged with Ion C and the error type handlers return.

use vstd::prelude::*;

verus! {

/// Ion C's status code type.
#[allow(non_camel_case_types)]
pub type iERR = i32;

/// Ion C's success sentinel.
#[allow(non_upper_case_globals)]
pub const ion_error_code_IERR_OK: iERR = 0;

/// Ion C's code for a handle or state that is not what the operation expects.
#[allow(non_upper_case_globals)]
pub const ion_error_code_IERR_INVALID_STATE: iERR = 5;

/// A failure carrying one of Ion C's status codes.
#[derive(Clone, Copy, Debug, PartialEq, Eq, Structural)]
pub struct IonCError {
    pub code: iERR,
}

impl IonCError {
    /// Makes an error that carries `code`.
    pub fn from_code(code: iERR) -> (e: IonCError)
        ensures
            e.code == code,
    {
        IonCError { code }
    }
}

/// The result of an operation that fails with one of Ion C's status codes.
pub type IonCResult<T> = Result<T, IonCError>;

/// The status code Ion C is told for an outcome: the success sentinel for `Ok`,
/// the carried code, unchanged, for `Err`.
pub open spec fn code_of(r: IonCResult<()>) -> iERR {
    match r {
        Ok(()) => ion_error_code_IERR_OK,
        Err(e) => e.code,
    }
}

/// Translates an outcome into the status code Ion C expects.
pub fn error_code_of(r: &IonCResult<()>) -> (code: iERR)
    ensures
        code == code_of(*r),
{
    match r {
        Ok(()) => ion_error_code_IERR_OK,
        Err(e) => e.code,
    }
}

} // verus!
