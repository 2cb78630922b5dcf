//! Platform status codes and the error domain built on them.

use vstd::prelude::*;
use vstd::std_specs::convert::FromSpecImpl;

verus! {

/// A platform status code. Negative codes report failure, all others success.
#[allow(non_camel_case_types)]
pub type HRESULT = i32;

/// The status code for an invalid (null) pointer operand, `0x80004003`.
pub const E_POINTER: HRESULT = -2147467261i32;

/// Whether a status code reports success.
pub open spec fn succeeded(hr: HRESULT) -> bool {
    hr >= 0
}

/// The standard success test on a status code.
#[allow(non_snake_case)]
#[verifier::when_used_as_spec(succeeded)]
pub fn SUCCEEDED(hr: HRESULT) -> (ok: bool)
    ensures
        ok == succeeded(hr),
{
    hr >= 0
}

/// An error of this library: the platform status code that caused it, unchanged.
#[derive(Clone, Copy, Debug, PartialEq, Eq, Structural)]
pub struct DWriteError {
    pub code: HRESULT,
}

impl From<HRESULT> for DWriteError {
    fn from(hr: HRESULT) -> (err: DWriteError) {
        DWriteError { code: hr }
    }
}

impl FromSpecImpl<HRESULT> for DWriteError {
    open spec fn obeys_from_spec() -> bool {
        true
    }

    open spec fn from_spec(hr: HRESULT) -> DWriteError {
        DWriteError { code: hr }
    }
}

/// The result of an operation that may fail with a platform status code.
pub type DWResult<T> = Result<T, DWriteError>;

} // verus!
