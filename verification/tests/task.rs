use std::future::pending;

use hostkit::runtime::error::{ErrorCode, RuntimeError};
use hostkit::runtime::task::{
    cooperative_cancellation_outcome, join_failure_error, map_join_error, ContextState,
};

fn runtime() -> tokio::runtime::Runtime {
    tokio::runtime::Builder::new_current_thread()
        .enable_all()
        .build()
        .unwrap()
}

#[test]
fn new_context_accepts_work_and_owns_nothing() {
    let context = ContextState::default();
    assert!(context.is_accepting());
    assert_eq!(context.next_task_id(), 0);
    assert_eq!(context.task_count(), 0);
    assert!(context.is_idle());
}

#[test]
fn cancelled_context_rejects_new_tasks() {
    let mut context = ContextState::new();
    context.close();

    let error = match context.reserve_task() {
        Ok(_) => panic!("cancelled context accepted a new task"),
        Err(error) => error,
    };

    assert_eq!(error.code(), ErrorCode::Cancelled);
    assert_eq!(context.task_count(), 0);
    assert!(!context.is_accepting());
}

#[test]
fn registered_tasks_are_counted_until_unregistered() {
    let rt = runtime();
    let mut context = ContextState::new();
    let first = context.reserve_task().unwrap();
    let second = context.reserve_task().unwrap();
    assert_eq!((first, second), (0, 1));

    let a = rt.spawn(pending::<()>());
    let b = rt.spawn(pending::<()>());
    context.insert_task(first, a.abort_handle());
    context.insert_task(second, b.abort_handle());
    assert_eq!(context.task_count(), 2);

    assert!(!context.unregister(first));
    assert_eq!(context.task_count(), 1);
    assert!(context.unregister(second));
    assert_eq!(context.task_count(), 0);
    assert!(context.is_idle());
    assert!(context.unregister(second));
}

#[test]
fn closing_keeps_running_tasks() {
    let rt = runtime();
    let mut context = ContextState::new();
    let id = context.reserve_task().unwrap();
    let task = rt.spawn(pending::<()>());
    context.insert_task(id, task.abort_handle());

    context.close();

    assert_eq!(context.task_count(), 1);
    assert!(!task.is_finished());
    task.abort();
}

#[test]
fn dropping_context_hard_aborts_uncooperative_task() {
    let rt = runtime();
    let mut context = ContextState::new();
    let id = context.reserve_task().unwrap();
    let task = rt.spawn(pending::<()>());
    context.insert_task(id, task.abort_handle());

    context.abort_all();

    assert!(!context.is_accepting());
    assert_eq!(context.task_count(), 0);
    let join_error = rt.block_on(task).unwrap_err();
    assert!(join_error.is_cancelled());
    let error = map_join_error(join_error, false);
    assert_eq!(error.code(), ErrorCode::Cancelled);
}

#[test]
fn panic_is_mapped_to_a_structured_boundary_error() {
    let rt = runtime();
    let task = rt.spawn(async {
        panic!("dummy panic");
    });
    let join_error = rt.block_on(task).unwrap_err();

    let error = map_join_error(join_error, false);

    assert_eq!(error.code(), ErrorCode::TaskFailed);
    assert_eq!(error.message(), "owned task panicked");
}

#[test]
fn panic_during_cooperative_cleanup_is_not_hidden_by_cancellation() {
    let rt = runtime();
    let task = rt.spawn(async {
        panic!("dummy cleanup panic");
    });
    let join_error = rt.block_on(task).unwrap_err();

    let error = map_join_error(join_error, true);

    assert_eq!(error.code(), ErrorCode::TaskFailed);
    assert_eq!(error.message(), "owned task panicked");
}

#[test]
fn join_failures_map_by_cause() {
    let panicked = join_failure_error(true, true, true);
    assert_eq!(panicked.code(), ErrorCode::TaskFailed);
    assert_eq!(panicked.message(), "owned task panicked");

    assert_eq!(join_failure_error(false, true, false).code(), ErrorCode::Cancelled);
    assert_eq!(join_failure_error(false, false, true).code(), ErrorCode::Cancelled);
    assert_eq!(
        join_failure_error(false, false, true).message(),
        "request cancelled"
    );

    let stopped = join_failure_error(false, false, false);
    assert_eq!(stopped.code(), ErrorCode::TaskFailed);
    assert_eq!(stopped.message(), "owned task stopped without a result");
}

#[test]
fn cooperative_cancellation_preserves_cleanup_failure() {
    let result: Result<(), RuntimeError> =
        Err(RuntimeError::task_failed("cleanup failed".to_string()));

    let error = cooperative_cancellation_outcome(result).unwrap_err();

    assert_eq!(error.code(), ErrorCode::TaskFailed);
    assert_eq!(error.message(), "cleanup failed");
}

#[test]
fn cooperative_cancellation_turns_other_results_into_cancellation() {
    let finished: Result<u32, RuntimeError> = Ok(7);
    let error = cooperative_cancellation_outcome(finished).unwrap_err();
    assert_eq!(error.code(), ErrorCode::Cancelled);
    assert_eq!(error.message(), "request cancelled");

    let cancelled: Result<u32, RuntimeError> = Err(RuntimeError::cancelled());
    assert_eq!(
        cooperative_cancellation_outcome(cancelled).unwrap_err().code(),
        ErrorCode::Cancelled
    );
}
