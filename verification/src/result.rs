use vstd::prelude::*;
use vstd::std_specs::convert::FromSpecImpl;

verus! {

/// The numeric value of `k_EResultOK`, the only code that reports success.
pub const RESULT_OK: u32 = 1;

/// The numeric value of `k_EResultInvalidState`.
pub const RESULT_INVALID_STATE: u32 = 11;

/// A Steam result code (`EResult`), held by its numeric value.
#[derive(Debug, Copy, Clone, Hash, PartialEq, Eq, Structural, PartialOrd, Ord)]
pub struct EResult(pub u32);

/// The answer of a call that reports a Steam result code.
pub type GnsResult<T> = Result<T, EResult>;

/// A result code as the library reports it, before it is read as success or failure.
#[derive(Debug, Copy, Clone, Hash, PartialEq, Eq, Structural, PartialOrd, Ord)]
pub struct GnsError(pub EResult);

/// `k_EResultOK` reads as `Ok(())`; every other code is the error.
pub open spec fn result_of_code(code: EResult) -> GnsResult<()> {
    if code.0 == RESULT_OK {
        Ok(())
    } else {
        Err(code)
    }
}

/// Only the code of value 1 (`k_EResultOK`) reads as success; every other code reads
/// as the failure that carries that very code.
pub proof fn lemma_only_ok_succeeds(code: EResult)
    ensures
        result_of_code(code) == Ok::<(), EResult>(()) <==> code.0 == 1,
        code.0 != 1 ==> result_of_code(code) == Err::<(), EResult>(code),
{
}

impl EResult {
    /// The code `k_EResultInvalidState`.
    pub fn invalid_state() -> (r: EResult)
        ensures
            r.0 == RESULT_INVALID_STATE,
    {
        EResult(RESULT_INVALID_STATE)
    }

    /// Whether this is `k_EResultOK`.
    pub fn is_ok(&self) -> (r: bool)
        ensures
            r == (self.0 == RESULT_OK),
    {
        self.0 == RESULT_OK
    }
}

impl GnsError {
    /// Reads the code: `Ok(())` for `k_EResultOK`, the code itself as the error otherwise.
    pub fn into_result(self) -> (r: GnsResult<()>)
        ensures
            r == result_of_code(self.0),
            r is Ok <==> self.0.0 == 1,
            r is Err ==> r == Err::<(), EResult>(self.0),
    {
        <GnsResult<()> as From<GnsError>>::from(self)
    }
}

impl From<GnsError> for GnsResult<()> {
    fn from(error: GnsError) -> (r: Self)
        ensures
            r == result_of_code(error.0),
            r is Ok <==> error.0.0 == 1,
            r is Err ==> r == Err::<(), EResult>(error.0),
    {
        let GnsError(code) = error;
        if code.is_ok() {
            Ok(())
        } else {
            Err(code)
        }
    }
}

impl FromSpecImpl<GnsError> for GnsResult<()> {
    open spec fn obeys_from_spec() -> bool {
        true
    }

    open spec fn from_spec(v: GnsError) -> Self {
        result_of_code(v.0)
    }
}

} // verus!
