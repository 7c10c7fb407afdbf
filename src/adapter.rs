//! Turns the two result shapes of native calls into one `Result`.
//!
//! A status-returning call yields no status on success and a status object on
//! failure; an enum-returning call yields a code, one value of which means success.
use crate::error::{Error, ErrorCode};
use vstd::prelude::*;
use vstd::string::{to_string_from_display_ensures, StringExecFns};

verus! {

/// What a failed status-returning call reported, read out of its status object.
#[derive(Clone, Debug)]
pub struct NativeStatus {
    pub code: ErrorCode,
    pub message: String,
}

/// The code by which an enum-returning call reports success.
pub const SUCCESS_CODE: u32 = 0;

/// Text that opens the diagnostic of a failed enum-returning call.
pub const CODE_FAILURE_PREFIX: &'static str = "device call failed with code ";

/// The error that a status object stands for.
pub open spec fn status_error(s: NativeStatus) -> Error {
    Error { code: s.code, message: s.message }
}

/// The outcome of a status-returning call that hands `value` back on success.
pub open spec fn status_outcome<T>(status: Option<NativeStatus>, value: T) -> Result<T, Error> {
    match status {
        None => Ok(value),
        Some(s) => Err(status_error(s)),
    }
}

/// `e` is the error that the enum-returning call with code `code` failed with.
pub open spec fn is_code_error(code: u32, e: Error) -> bool {
    &&& e.code == ErrorCode::Internal
    &&& exists|t: String|
        to_string_from_display_ensures::<u32>(&code, t) && e.message@ == CODE_FAILURE_PREFIX@
            + t@
}

/// Maps the status of a status-returning call: no status is success and gives
/// `value`, a status is the failure it describes.
pub fn status_result<T>(status: Option<NativeStatus>, value: T) -> (r: Result<T, Error>)
    ensures
        r == status_outcome(status, value),
{
    match status {
        None => Ok(value),
        Some(s) => Err(Error { code: s.code, message: s.message }),
    }
}

/// Maps the code of an enum-returning call: the success code gives `value`,
/// any other code is an internal error that names it.
pub fn code_result<T>(code: u32, value: T) -> (r: Result<T, Error>)
    ensures
        code == SUCCESS_CODE ==> r == Ok::<T, Error>(value),
        code != SUCCESS_CODE ==> r is Err && is_code_error(code, r->Err_0),
{
    if code == SUCCESS_CODE {
        Ok(value)
    } else {
        let text = code.to_string();
        let message = CODE_FAILURE_PREFIX.to_owned().concat(text.as_str());
        Err(Error { code: ErrorCode::Internal, message })
    }
}

} // verus!
