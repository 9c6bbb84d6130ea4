//! Status codes handed back across the C boundary, and the library's error type.
use vstd::prelude::*;

verus! {

/// Status of a call that succeeded.
pub const SUCCESS: i32 = 0;

/// A pointer argument was null.
pub const ERROR_NULL_POINTER: i32 = -1;

/// A string argument was not valid UTF-8.
pub const ERROR_INVALID_UTF8: i32 = -2;

/// A value could not be read from, or written to, its JSON or string form.
pub const ERROR_SERIALIZATION: i32 = -3;

/// The FROST computation itself refused its inputs.
pub const ERROR_CRYPTO_ERROR: i32 = -4;

/// A numeric or hex parameter was out of range.
pub const ERROR_INVALID_PARAMETER: i32 = -5;

/// Why a call failed.
#[derive(Debug, Clone, Copy, PartialEq, Eq, Structural)]
pub enum FrostError {
    NullPointer,
    InvalidUtf8,
    Serialization,
    CryptoError,
    InvalidParameter,
}

/// The status code that stands for an error.
pub open spec fn spec_error_code(e: FrostError) -> i32 {
    match e {
        FrostError::NullPointer => ERROR_NULL_POINTER,
        FrostError::InvalidUtf8 => ERROR_INVALID_UTF8,
        FrostError::Serialization => ERROR_SERIALIZATION,
        FrostError::CryptoError => ERROR_CRYPTO_ERROR,
        FrostError::InvalidParameter => ERROR_INVALID_PARAMETER,
    }
}

/// The status code that stands for the outcome of a call.
pub open spec fn spec_status_code<T>(r: Result<T, FrostError>) -> i32 {
    match r {
        Ok(_) => SUCCESS,
        Err(e) => spec_error_code(e),
    }
}

/// An outcome with its value taken by its view.
pub open spec fn outcome_view<T: View>(r: Result<T, FrostError>) -> Result<T::V, FrostError> {
    match r {
        Ok(v) => Ok(v@),
        Err(e) => Err(e),
    }
}

impl FrostError {
    /// The status code of this error.
    pub fn code(&self) -> (c: i32)
        ensures
            c == spec_error_code(*self),
    {
        match self {
            FrostError::NullPointer => ERROR_NULL_POINTER,
            FrostError::InvalidUtf8 => ERROR_INVALID_UTF8,
            FrostError::Serialization => ERROR_SERIALIZATION,
            FrostError::CryptoError => ERROR_CRYPTO_ERROR,
            FrostError::InvalidParameter => ERROR_INVALID_PARAMETER,
        }
    }
}

/// The status code of an outcome: zero for success, the error's code otherwise.
pub fn status_code<T>(r: &Result<T, FrostError>) -> (c: i32)
    ensures
        c == spec_status_code(*r),
{
    match r {
        Ok(_) => SUCCESS,
        Err(e) => e.code(),
    }
}

/// Every failure is reported by a negative code, so no failure reads as success,
/// and two different failures never share a code.
pub proof fn lemma_error_codes_negative_and_distinct(e1: FrostError, e2: FrostError)
    ensures
        spec_error_code(e1) < SUCCESS,
        e1 != e2 ==> spec_error_code(e1) != spec_error_code(e2),
{
}

/// A call's status code is zero exactly when it succeeded.
pub proof fn lemma_status_zero_iff_success<T>(r: Result<T, FrostError>)
    ensures
        (spec_status_code(r) == SUCCESS) <==> r is Ok,
{
    if let Err(e) = r {
        lemma_error_codes_negative_and_distinct(e, e);
    }
}

} // verus!
