use hostkit::capabilities::sys::{
    cleanup_error, process_output, spawn_failure_error, BoundedOutput, OutputStream,
    ProcessAction, ProcessCapability, ProcessEvent, ProcessFailure, ProcessPhase, ProcessRequest,
    ReapAction, ReapEvent, ReapPhase,
};
use hostkit::runtime::error::{ErrorCode, RuntimeError};

#[test]
fn request_builder_keeps_arguments_and_environment_in_order() {
    let request = ProcessRequest::new("tool")
        .arg("--exact")
        .arg("name")
        .env("A", "1")
        .env("B", "two");

    assert_eq!(request.program(), "tool");
    assert_eq!(request.arguments(), &vec!["--exact".to_string(), "name".to_string()]);
    assert_eq!(
        request.environment(),
        &vec![
            ("A".to_string(), "1".to_string()),
            ("B".to_string(), "two".to_string())
        ]
    );
    assert_eq!(request.clone(), request);
}

#[test]
fn new_request_has_no_arguments_or_environment() {
    let request = ProcessRequest::new("hostkit-program-that-does-not-exist");
    assert_eq!(request.program(), "hostkit-program-that-does-not-exist");
    assert!(request.arguments().is_empty());
    assert!(request.environment().is_empty());
}

#[test]
fn process_output_exposes_status_and_streams() {
    let output = process_output(Some(0), b"hello".to_vec(), Vec::new());
    assert!(output.success());
    assert_eq!(output.exit_code(), Some(0));
    assert_eq!(output.stdout(), b"hello");
    assert!(output.stderr().is_empty());

    let killed = process_output(None, Vec::new(), b"oops".to_vec());
    assert!(!killed.success());
    assert_eq!(killed.exit_code(), None);
    assert_eq!(killed.stderr(), b"oops");

    let failed = process_output(Some(1), Vec::new(), Vec::new());
    assert!(!failed.success());
    assert_eq!(failed.exit_code(), Some(1));
    assert_eq!(failed.clone(), failed);
}

#[test]
fn capability_keeps_its_output_limit() {
    assert_eq!(ProcessCapability::new(64 * 1024).max_output_bytes_per_stream(), 65536);
    assert_eq!(ProcessCapability::new(0).max_output_bytes_per_stream(), 0);
}

#[test]
fn stream_names() {
    assert_eq!(OutputStream::Stdout.name(), "stdout");
    assert_eq!(OutputStream::Stderr.name(), "stderr");
}

#[test]
fn output_limit_message_names_stream_and_limit() {
    let error = ProcessFailure::OutputLimitExceeded { stream: OutputStream::Stdout, limit: 0 }
        .into_runtime_error();
    assert_eq!(error.code(), ErrorCode::ResourceLimitExceeded);
    assert_eq!(error.message(), "process stdout exceeded 0 byte output limit");
    assert!(error.message().contains("stdout exceeded 0 byte output limit"));

    let error = ProcessFailure::OutputLimitExceeded { stream: OutputStream::Stderr, limit: 65536 }
        .into_runtime_error();
    assert_eq!(error.message(), "process stderr exceeded 65536 byte output limit");

    let error = ProcessFailure::OutputLimitExceeded {
        stream: OutputStream::Stdout,
        limit: usize::MAX,
    }
    .into_runtime_error();
    assert_eq!(
        error.message(),
        format!("process stdout exceeded {} byte output limit", usize::MAX)
    );
}

#[test]
fn io_failure_messages_carry_their_detail() {
    let wait = ProcessFailure::WaitFailed("interrupted".to_string()).into_runtime_error();
    assert_eq!(wait.code(), ErrorCode::CapabilityFailed);
    assert_eq!(wait.message(), "failed to wait for process: interrupted");

    let read = ProcessFailure::ReadFailed {
        stream: OutputStream::Stderr,
        detail: "broken pipe".to_string(),
    }
    .into_runtime_error();
    assert_eq!(read.code(), ErrorCode::CapabilityFailed);
    assert_eq!(read.message(), "failed to read process stderr: broken pipe");

    let spawn = spawn_failure_error("No such file or directory (os error 2)".to_string());
    assert_eq!(spawn.code(), ErrorCode::CapabilityFailed);
    assert!(spawn.message().starts_with("failed to spawn process:"));
    assert_eq!(
        spawn.message(),
        "failed to spawn process: No such file or directory (os error 2)"
    );

    let cleanup = cleanup_error("permission denied".to_string());
    assert_eq!(cleanup.code(), ErrorCode::CapabilityFailed);
    assert_eq!(
        cleanup.message(),
        "failed to terminate and reap process: permission denied"
    );
}

#[test]
fn bounded_output_accumulates_until_end_of_stream() {
    let mut output = BoundedOutput::new(OutputStream::Stdout, 8);
    assert_eq!(output.accept(b"abc"), Ok(false));
    assert_eq!(output.accept(b"defgh"), Ok(false));
    assert_eq!(output.accept(b""), Ok(true));
    assert_eq!(output.into_bytes(), b"abcdefgh".to_vec());
}

#[test]
fn bounded_output_rejects_the_chunk_that_crosses_the_limit() {
    let mut output = BoundedOutput::new(OutputStream::Stderr, 4);
    assert_eq!(output.accept(b"abc"), Ok(false));
    assert_eq!(
        output.accept(b"de"),
        Err(ProcessFailure::OutputLimitExceeded { stream: OutputStream::Stderr, limit: 4 })
    );
    assert_eq!(output.into_bytes(), b"abc".to_vec());
}

#[test]
fn zero_limit_rejects_any_output() {
    let mut output = BoundedOutput::new(OutputStream::Stdout, 0);
    assert_eq!(output.accept(b""), Ok(true));
    let failure = output.accept(b"x").unwrap_err();
    let error = failure.into_runtime_error();
    assert_eq!(error.code(), ErrorCode::ResourceLimitExceeded);
    assert!(error.message().contains("stdout exceeded 0 byte output limit"));
}

fn finished_error(action: ProcessAction) -> RuntimeError {
    match action {
        ProcessAction::Finish(Err(error)) => error,
        _ => panic!("expected a failed finish"),
    }
}

#[test]
fn rejects_cancellation_before_spawning_process() {
    let (phase, action) = ProcessPhase::Ready { limit: 1024 }.step(ProcessEvent::Started { cancelled: true });
    assert!(matches!(phase, ProcessPhase::Finished));
    assert_eq!(finished_error(action).code(), ErrorCode::Cancelled);
}

#[test]
fn reports_spawn_failures_through_capability_boundary() {
    let (phase, action) = ProcessPhase::Ready { limit: 1024 }.step(ProcessEvent::Started { cancelled: false });
    assert!(matches!(action, ProcessAction::Spawn));
    let (phase, action) = phase.step(ProcessEvent::SpawnFailed("not found".to_string()));
    assert!(matches!(phase, ProcessPhase::Finished));
    let error = finished_error(action);
    assert_eq!(error.code(), ErrorCode::CapabilityFailed);
    assert!(error.message().starts_with("failed to spawn process:"));
}

#[test]
fn completed_process_reports_its_output_without_reaping() {
    let (phase, _) = ProcessPhase::Ready { limit: 1024 }.step(ProcessEvent::Started { cancelled: false });
    let (phase, action) = phase.step(ProcessEvent::Spawned);
    assert!(matches!(action, ProcessAction::Await));
    let mut stdout = BoundedOutput::new(OutputStream::Stdout, 1024);
    assert_eq!(stdout.accept(b"out"), Ok(false));
    let stderr = BoundedOutput::new(OutputStream::Stderr, 1024);
    let (phase, action) = phase.step(ProcessEvent::Completed {
        exit_code: Some(0),
        stdout,
        stderr,
    });
    assert!(matches!(phase, ProcessPhase::Finished));
    match action {
        ProcessAction::Finish(Ok(reported)) => {
            assert_eq!(reported, process_output(Some(0), b"out".to_vec(), Vec::new()));
            assert!(reported.success());
        }
        _ => panic!("expected the buffered output"),
    }
}

#[test]
fn failed_process_is_reaped_before_its_failure_is_reported() {
    let (phase, _) = ProcessPhase::Ready { limit: 1024 }.step(ProcessEvent::Started { cancelled: false });
    let (phase, _) = phase.step(ProcessEvent::Spawned);
    let failure = ProcessFailure::OutputLimitExceeded { stream: OutputStream::Stdout, limit: 0 };
    let (phase, action) = phase.step(ProcessEvent::Failed(failure));
    assert!(matches!(action, ProcessAction::Reap));
    let (phase, action) = phase.step(ProcessEvent::Reaped(Ok(())));
    assert!(matches!(phase, ProcessPhase::Finished));
    let error = finished_error(action);
    assert_eq!(error.code(), ErrorCode::ResourceLimitExceeded);
    assert!(error.message().contains("stdout exceeded 0 byte output limit"));
}

#[test]
fn cancelled_process_is_reaped_then_reported_cancelled() {
    let (phase, _) = ProcessPhase::Ready { limit: 1024 }.step(ProcessEvent::Started { cancelled: false });
    let (phase, _) = phase.step(ProcessEvent::Spawned);
    let (phase, action) = phase.step(ProcessEvent::CancelObserved);
    assert!(matches!(action, ProcessAction::Reap));
    let (_, action) = phase.step(ProcessEvent::Reaped(Ok(())));
    assert_eq!(finished_error(action).code(), ErrorCode::Cancelled);
}

#[test]
fn failure_to_reap_replaces_the_report() {
    let (phase, _) = ProcessPhase::Ready { limit: 1024 }.step(ProcessEvent::Started { cancelled: false });
    let (phase, _) = phase.step(ProcessEvent::Spawned);
    let (phase, _) = phase.step(ProcessEvent::CancelObserved);
    let (_, action) = phase.step(ProcessEvent::Reaped(Err("no such process".to_string())));
    let error = finished_error(action);
    assert_eq!(error.code(), ErrorCode::CapabilityFailed);
    assert_eq!(
        error.message(),
        "failed to terminate and reap process: no such process"
    );
}

#[test]
fn exited_child_is_not_killed() {
    let (phase, action) = ReapPhase::Polling.step(ReapEvent::Polled(Ok(true)));
    assert!(matches!(phase, ReapPhase::Done));
    assert!(matches!(action, ReapAction::Finish(Ok(()))));
}

#[test]
fn running_child_is_killed_and_waited_for() {
    let (phase, action) = ReapPhase::Polling.step(ReapEvent::Polled(Ok(false)));
    assert!(matches!(action, ReapAction::StartKill));
    let (phase, action) = phase.step(ReapEvent::KillSent(Ok(())));
    assert!(matches!(action, ReapAction::Wait));
    let (phase, action) = phase.step(ReapEvent::Waited(Ok(())));
    assert!(matches!(phase, ReapPhase::Done));
    assert!(matches!(action, ReapAction::Finish(Ok(()))));
}

#[test]
fn failed_kill_counts_only_if_child_exited() {
    let (phase, _) = ReapPhase::Polling.step(ReapEvent::Polled(Ok(false)));
    let (phase, action) = phase.step(ReapEvent::KillSent(Err("denied".to_string())));
    assert!(matches!(action, ReapAction::TryWait));
    let (_, action) = phase.step(ReapEvent::Polled(Ok(true)));
    assert!(matches!(action, ReapAction::Finish(Ok(()))));

    let (phase, _) = ReapPhase::Polling.step(ReapEvent::Polled(Ok(false)));
    let (phase, _) = phase.step(ReapEvent::KillSent(Err("denied".to_string())));
    let (_, action) = phase.step(ReapEvent::Polled(Ok(false)));
    match action {
        ReapAction::Finish(Err(detail)) => assert_eq!(detail, "denied"),
        _ => panic!("expected the kill error"),
    }
}

#[test]
fn failed_exit_check_is_reported() {
    let (_, action) = ReapPhase::Polling.step(ReapEvent::Polled(Err("bad handle".to_string())));
    match action {
        ReapAction::Finish(Err(detail)) => assert_eq!(detail, "bad handle"),
        _ => panic!("expected the check error"),
    }
}

#[test]
fn capabilities_with_equal_limits_are_equal() {
    assert_eq!(ProcessCapability::new(8), ProcessCapability::new(8));
    assert_ne!(ProcessCapability::new(8), ProcessCapability::new(9));
}
