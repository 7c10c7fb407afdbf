//! Runs a unit of work with a device's execution context current on the thread.
//!
//! The synchronous entry points run the work in place. The asynchronous form
//! hands one of them to a blocking worker and then reads the worker's join
//! result through [`join_outcome`].
use crate::error::{Error, ErrorCode};
use tokio::task::JoinError;
use vstd::prelude::*;
use vstd::string::{to_string_from_display_ensures, StringExecFns};

verus! {

#[verifier::external_type_specification]
#[verifier::external_body]
pub struct ExJoinError(tokio::task::JoinError);

/// Diagnostic of a worker that could not be joined.
pub const JOIN_FAILURE_MESSAGE: &'static str = "tokio failed to join thread on run_in_context";

/// Text that opens the diagnostic of a device context that could not be made current.
pub const CONTEXT_FAILURE_PREFIX: &'static str = "cannot make the context of device ";

/// Text between the device number and the acquisition's own diagnostic.
pub const CONTEXT_FAILURE_SEPARATOR: &'static str = " current: ";

/// `r` is the error reported when the context of `device` cannot be made
/// current because acquiring it failed with `e`: an internal error whose
/// diagnostic names the device and carries `e`'s.
pub open spec fn is_context_error(device: i32, e: Error, r: Error) -> bool {
    &&& r.code == ErrorCode::Internal
    &&& exists|t: String|
        to_string_from_display_ensures::<i32>(&device, t) && r.message@ == CONTEXT_FAILURE_PREFIX@
            + t@ + CONTEXT_FAILURE_SEPARATOR@ + e.message@
}

/// Builds the error for a context of `device` that could not be made current.
fn context_error(device: i32, e: Error) -> (r: Error)
    ensures
        is_context_error(device, e, r),
{
    let number = device.to_string();
    let message = CONTEXT_FAILURE_PREFIX.to_owned().concat(number.as_str()).concat(
        CONTEXT_FAILURE_SEPARATOR,
    ).concat(e.message.as_str());
    Error { code: ErrorCode::Internal, message }
}

/// `r` is what the asynchronous form returns once its worker has been joined
/// with result `joined`.
pub open spec fn is_joined_outcome<T>(joined: Result<Result<T, Error>, JoinError>, r: Result<T, Error>) -> bool {
    match joined {
        Ok(outcome) => r == outcome,
        Err(_) => r is Err && r->Err_0.code == ErrorCode::Internal && r->Err_0.message@
            == JOIN_FAILURE_MESSAGE@,
    }
}

/// Runs `code` for `device` without device-context support: the work runs
/// directly on the calling thread and its value is returned.
pub fn run_direct_sync<T, F: FnOnce() -> T>(device: i32, code: F) -> (r: Result<T, Error>)
    requires
        code.requires(()),
    ensures
        r is Ok,
        code.ensures((), r->Ok_0),
{
    let _ = device;
    Ok(code())
}

/// Runs `code` for `device` with its context pinned. `acquire` makes the
/// device's context current and hands back a guard that restores the previous
/// context when dropped, on every way out of this function. When `acquire`
/// fails the work is not run and the failure is reported as an internal error.
pub fn run_pinned_sync<T, G, A, F>(device: i32, acquire: A, code: F) -> (r: Result<T, Error>) where
    A: FnOnce(i32) -> Result<G, Error>,
    F: FnOnce() -> T,

    requires
        acquire.requires((device,)),
        code.requires(()),
    ensures
        exists|acquired: Result<G, Error>|
            {
                &&& acquire.ensures((device,), acquired)
                &&& match acquired {
                    Err(e) => r is Err && is_context_error(device, e, r->Err_0),
                    Ok(_) => r is Ok && code.ensures((), r->Ok_0),
                }
            },
{
    let acquired = acquire(device);
    match acquired {
        Err(e) => Err(context_error(device, e)),
        Ok(guard) => {
            let value = code();
            let _ = guard;
            Ok(value)
        },
    }
}

/// The synchronous entry point: runs `code` for `device` in the mode fixed
/// when the runtime was set up, with the device's context pinned when
/// `pinning` is set and directly otherwise. Both modes give the work's value
/// on success.
pub fn run_in_context_sync<T, G, A, F>(pinning: bool, device: i32, acquire: A, code: F) -> (r: Result<T, Error>) where
    A: FnOnce(i32) -> Result<G, Error>,
    F: FnOnce() -> T,

    requires
        pinning ==> acquire.requires((device,)),
        code.requires(()),
    ensures
        !pinning ==> r is Ok && code.ensures((), r->Ok_0),
        pinning ==> exists|acquired: Result<G, Error>|
            {
                &&& acquire.ensures((device,), acquired)
                &&& match acquired {
                    Err(e) => r is Err && is_context_error(device, e, r->Err_0),
                    Ok(_) => r is Ok && code.ensures((), r->Ok_0),
                }
            },
{
    if pinning {
        run_pinned_sync(device, acquire, code)
    } else {
        run_direct_sync(device, code)
    }
}

/// A failed context acquisition is never reported with the diagnostic of a
/// lost worker, so callers can tell the two internal errors apart.
pub proof fn lemma_context_error_is_not_join_error(device: i32, e: Error, r: Error)
    requires
        is_context_error(device, e, r),
    ensures
        r.message@ != JOIN_FAILURE_MESSAGE@,
{
    reveal_strlit("cannot make the context of device ");
    reveal_strlit("tokio failed to join thread on run_in_context");
    let t = choose|t: String|
        to_string_from_display_ensures::<i32>(&device, t) && r.message@ == CONTEXT_FAILURE_PREFIX@
            + t@ + CONTEXT_FAILURE_SEPARATOR@ + e.message@;
    assert(r.message@[0] == CONTEXT_FAILURE_PREFIX@[0]);
    assert(JOIN_FAILURE_MESSAGE@[0] == 't');
}

/// Reads the join result of the worker that ran a synchronous entry point: a
/// joined worker gives its outcome unchanged, a lost one an internal error.
pub fn join_outcome<T>(joined: Result<Result<T, Error>, JoinError>) -> (r: Result<T, Error>)
    ensures
        is_joined_outcome(joined, r),
{
    match joined {
        Ok(outcome) => outcome,
        Err(_) => Err(Error::new(ErrorCode::Internal, JOIN_FAILURE_MESSAGE)),
    }
}

/// A worker that was joined hands on exactly the outcome that the synchronous
/// entry point produced, so both calling styles give the same result.
pub proof fn lemma_joined_outcome_is_sync_outcome<T>(outcome: Result<T, Error>, r: Result<T, Error>)
    ensures
        is_joined_outcome(Ok(outcome), r) <==> r == outcome,
{
}

} // verus!
