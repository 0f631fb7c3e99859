use paperless_ngx_tools::errors::PaperlessToolError;
use paperless_ngx_tools::task::{
    generic_failure_text, parse_document_id, parse_task_status, status_is_terminal, PollAction,
    PollEvent, TaskPoller, TaskSnapshot, TaskStatus,
};

fn snapshot(status: TaskStatus, result: Option<&str>, related: Option<i32>) -> PollEvent {
    PollEvent::Snapshot {
        snapshot: TaskSnapshot {
            file_name: "receipt.pdf".to_owned(),
            status,
            result: result.map(|s| s.to_owned()),
            related_document: related,
        },
    }
}

#[test]
fn await_completion_polls_until_success() {
    // Status sequence [Pending, Started, Started, Success]: progress is
    // observed on every poll (four steps) and the result comes only
    // with the fourth.
    let mut poller = TaskPoller::new();
    let mut progress_calls = 0;

    let statuses = [TaskStatus::Pending, TaskStatus::Started, TaskStatus::Started];
    for status in statuses {
        progress_calls += 1;
        let action = poller.step(snapshot(status, None, None));
        assert!(matches!(action, PollAction::Continue));
    }
    progress_calls += 1;
    let action = poller.step(snapshot(TaskStatus::Success, Some("Stored document"), Some(42)));
    assert_eq!(progress_calls, 4);
    match action {
        PollAction::Done { result } => {
            assert_eq!(result.result, "Stored document");
            assert_eq!(result.related_document, Some(42));
        }
        other => panic!("expected Done, got {:?}", other),
    }
}

#[test]
fn await_completion_stops_on_failure() {
    // Status sequence [Started, Failure]: the second poll fails with
    // TaskFailed and no further poll is asked for.
    let mut poller = TaskPoller::new();
    let a1 = poller.step(snapshot(TaskStatus::Started, None, None));
    assert!(matches!(a1, PollAction::Continue));
    let a2 = poller.step(snapshot(TaskStatus::Failure, Some("ingestion choked"), None));
    match a2 {
        PollAction::Fail { error: PaperlessToolError::TaskFailed { message } } => {
            assert_eq!(message, "ingestion choked");
        }
        other => panic!("expected TaskFailed, got {:?}", other),
    }
}

#[test]
fn failure_without_result_text_gets_generic_message() {
    let mut poller = TaskPoller::new();
    let action = poller.step(snapshot(TaskStatus::Failure, None, None));
    match action {
        PollAction::Fail { error: PaperlessToolError::TaskFailed { message } } => {
            assert_eq!(message, generic_failure_text());
        }
        other => panic!("expected TaskFailed, got {:?}", other),
    }
}

#[test]
fn success_without_result_text_yields_empty_result() {
    let mut poller = TaskPoller::new();
    let action = poller.step(snapshot(TaskStatus::Success, None, Some(3)));
    match action {
        PollAction::Done { result } => {
            assert_eq!(result.result, "");
            assert_eq!(result.related_document, Some(3));
        }
        other => panic!("expected Done, got {:?}", other),
    }
}

#[test]
fn one_transport_failure_is_tolerated() {
    let mut poller = TaskPoller::new();
    let a1 = poller.step(PollEvent::Transport { message: "connection reset".to_owned() });
    assert!(matches!(a1, PollAction::Continue));
    // A clean poll resets the tolerance.
    let a2 = poller.step(snapshot(TaskStatus::Started, None, None));
    assert!(matches!(a2, PollAction::Continue));
    let a3 = poller.step(PollEvent::Transport { message: "connection reset".to_owned() });
    assert!(matches!(a3, PollAction::Continue));
}

#[test]
fn two_consecutive_transport_failures_abort() {
    let mut poller = TaskPoller::new();
    let a1 = poller.step(PollEvent::Transport { message: "timed out".to_owned() });
    assert!(matches!(a1, PollAction::Continue));
    let a2 = poller.step(PollEvent::Transport { message: "still down".to_owned() });
    match a2 {
        PollAction::Fail { error: PaperlessToolError::TransportError { message } } => {
            assert_eq!(message, "still down");
        }
        other => panic!("expected TransportError, got {:?}", other),
    }
}

#[test]
fn terminal_statuses() {
    assert!(!status_is_terminal(TaskStatus::Pending));
    assert!(!status_is_terminal(TaskStatus::Started));
    assert!(status_is_terminal(TaskStatus::Success));
    assert!(status_is_terminal(TaskStatus::Failure));
}

#[test]
fn document_id_parsing() {
    assert_eq!(parse_document_id("42"), Some(42));
    assert_eq!(parse_document_id("0"), Some(0));
    assert_eq!(parse_document_id("007"), Some(7));
    assert_eq!(parse_document_id("2147483647"), Some(i32::MAX));
    assert_eq!(parse_document_id("2147483648"), None);
    assert_eq!(parse_document_id("99999999999999999999"), None);
    assert_eq!(parse_document_id(""), None);
    assert_eq!(parse_document_id("-3"), None);
    assert_eq!(parse_document_id("12a"), None);
    assert_eq!(parse_document_id(" 12"), None);
}

#[test]
fn task_status_parsing() {
    assert_eq!(parse_task_status(&"PENDING".to_owned()), Some(TaskStatus::Pending));
    assert_eq!(parse_task_status(&"STARTED".to_owned()), Some(TaskStatus::Started));
    assert_eq!(parse_task_status(&"SUCCESS".to_owned()), Some(TaskStatus::Success));
    assert_eq!(parse_task_status(&"FAILURE".to_owned()), Some(TaskStatus::Failure));
    assert_eq!(parse_task_status(&"RETRYING".to_owned()), None);
    assert_eq!(parse_task_status(&"success".to_owned()), None);
    assert_eq!(parse_task_status(&"".to_owned()), None);
}
