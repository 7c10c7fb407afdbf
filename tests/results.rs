use std::cell::Cell;
use tritonserver_core::adapter::{code_result, status_result, NativeStatus};
use tritonserver_core::bridge::{join_outcome, run_direct_sync, run_in_context_sync, run_pinned_sync};
use tritonserver_core::error::{Error, ErrorCode};
use tritonserver_core::text::to_cstring;

#[test]
fn status_result_maps_both_shapes() {
    assert_eq!(status_result(None, 7u32).unwrap(), 7);
    let status = NativeStatus { code: ErrorCode::Unsupported, message: "observe on gauge".to_string() };
    let e = status_result(Some(status), 7u32).err().unwrap();
    assert_eq!(e.code, ErrorCode::Unsupported);
    assert_eq!(e.message, "observe on gauge");
}

#[test]
fn code_result_names_the_failing_code() {
    assert_eq!(code_result(0, "ok").unwrap(), "ok");
    let e = code_result(700, ()).err().unwrap();
    assert_eq!(e.code, ErrorCode::Internal);
    assert_eq!(e.message, "device call failed with code 700");
}

#[test]
fn error_codes_follow_native_numbering() {
    assert_eq!(ErrorCode::from_native(1), ErrorCode::Internal);
    assert_eq!(ErrorCode::from_native(3), ErrorCode::InvalidArg);
    assert_eq!(ErrorCode::from_native(5), ErrorCode::Unsupported);
    assert_eq!(ErrorCode::from_native(99), ErrorCode::Unknown);
    assert_eq!(ErrorCode::Cancelled.to_native(), 7);
    let e = Error::new(ErrorCode::NotFound, "missing");
    assert_eq!((e.code(), e.message()), (ErrorCode::NotFound, "missing"));
}

#[test]
fn to_cstring_terminates_text() {
    assert_eq!(to_cstring("abc").unwrap(), vec![b'a', b'b', b'c', 0]);
    assert_eq!(to_cstring("").unwrap(), vec![0]);
    assert_eq!(to_cstring("a\0b").err().unwrap().code, ErrorCode::InvalidArg);
}

#[test]
fn sync_bridge_runs_the_work() {
    let runs = Cell::new(0);
    let r = run_direct_sync(0, || {
        runs.set(runs.get() + 1);
        41 + 1
    });
    assert_eq!(r.unwrap(), 42);
    assert_eq!(runs.get(), 1);
}

#[test]
fn pinned_bridge_runs_work_under_guard() {
    let restored = Cell::new(false);
    struct Guard<'a>(&'a Cell<bool>);
    impl Drop for Guard<'_> {
        fn drop(&mut self) {
            self.0.set(true);
        }
    }
    let r = run_pinned_sync(
        2,
        |device| {
            assert_eq!(device, 2);
            Ok(Guard(&restored))
        },
        || {
            assert!(!restored.get());
            "done"
        },
    );
    assert_eq!(r.unwrap(), "done");
    assert!(restored.get());
}

#[test]
fn context_failure_never_runs_work() {
    let runs = Cell::new(0);
    let r = run_pinned_sync(
        5,
        |_| Err::<(), Error>(Error::new(ErrorCode::NotFound, "no context for device 5")),
        || runs.set(runs.get() + 1),
    );
    let e = r.err().unwrap();
    assert_eq!(e.code, ErrorCode::Internal);
    assert_eq!(e.message, "cannot make the context of device 5 current: no context for device 5");
    assert_eq!(runs.get(), 0);
}

#[test]
fn async_and_sync_forms_agree() {
    let runtime = tokio::runtime::Builder::new_current_thread().build().unwrap();
    let sync = run_direct_sync(1, || 10 * 3).unwrap();
    let joined = runtime.block_on(async { tokio::task::spawn_blocking(|| run_direct_sync(1, || 10 * 3)).await });
    assert_eq!(join_outcome(joined).unwrap(), sync);

    let failing = || run_pinned_sync(1, |_| Err::<(), Error>(Error::new(ErrorCode::Unknown, "busy")), || 0);
    let sync_err = failing().err().unwrap();
    let joined = runtime.block_on(async move { tokio::task::spawn_blocking(failing).await });
    let async_err = join_outcome(joined).err().unwrap();
    assert_eq!((async_err.code, async_err.message), (sync_err.code, sync_err.message));
}

#[test]
fn lost_worker_is_an_internal_error() {
    let runtime = tokio::runtime::Builder::new_current_thread().build().unwrap();
    let joined = runtime.block_on(async {
        tokio::task::spawn_blocking(|| -> Result<u32, Error> { panic!("worker lost") }).await
    });
    let e = join_outcome(joined).err().unwrap();
    assert_eq!(e.code, ErrorCode::Internal);
    assert_eq!(e.message, "tokio failed to join thread on run_in_context");
}

#[test]
fn degraded_mode_skips_context_and_runs_work() {
    let acquisitions = Cell::new(0);
    let r = run_in_context_sync(
        false,
        4,
        |_| {
            acquisitions.set(acquisitions.get() + 1);
            Err::<(), Error>(Error::new(ErrorCode::Internal, "no device"))
        },
        || 9,
    );
    assert_eq!(r.unwrap(), 9);
    assert_eq!(acquisitions.get(), 0);
}

#[test]
fn pinning_mode_reports_context_failure() {
    let runs = Cell::new(0);
    let r = run_in_context_sync(
        true,
        4,
        |_| Err::<(), Error>(Error::new(ErrorCode::Unavailable, "device 4 busy")),
        || runs.set(runs.get() + 1),
    );
    let e = r.err().unwrap();
    assert_eq!((e.code, e.message.as_str()), (ErrorCode::Internal, "cannot make the context of device 4 current: device 4 busy"));
    assert_eq!(runs.get(), 0);
    assert_eq!(run_in_context_sync(true, 4, |_| Ok::<(), Error>(()), || "ran").unwrap(), "ran");
}
