use indexsync::classify::classify;
use indexsync::classify::classify_notification;
use indexsync::classify::should_process;
use indexsync::classify::IndexOperation;
use indexsync::classify::NotificationKind;
use indexsync::classify::RawChangeNotification;
use indexsync::event_loop::loop_step;
use indexsync::event_loop::LoopAction;
use indexsync::event_loop::LoopInput;
use indexsync::event_loop::LoopState;

#[test]
fn classification_table() {
    assert_eq!(classify(NotificationKind::Created), IndexOperation::Upsert);
    assert_eq!(classify(NotificationKind::ModifiedContent), IndexOperation::Upsert);
    assert_eq!(classify(NotificationKind::RenamedTo), IndexOperation::Upsert);
    assert_eq!(classify(NotificationKind::RenamedBoth), IndexOperation::Upsert);
    assert_eq!(classify(NotificationKind::RenamedFrom), IndexOperation::Delete);
    assert_eq!(classify(NotificationKind::Removed), IndexOperation::Delete);
    assert_eq!(classify(NotificationKind::Other), IndexOperation::Ignore);
}

#[test]
fn notifications_without_paths_or_operation_are_dropped() {
    let empty = RawChangeNotification { kind: NotificationKind::Created, paths: Vec::new() };
    assert!(!should_process(&empty));

    let other = RawChangeNotification {
        kind: NotificationKind::Other,
        paths: vec!["a.txt".to_string()],
    };
    assert!(!should_process(&other));

    let create = RawChangeNotification {
        kind: NotificationKind::Created,
        paths: vec!["a.txt".to_string()],
    };
    assert!(should_process(&create));
    assert_eq!(classify_notification(&create), IndexOperation::Upsert);
}

#[test]
fn loop_starts_and_runs() {
    assert_eq!(
        loop_step(LoopState::Idle, LoopInput::Started),
        (LoopState::Running, LoopAction::NoAction)
    );
    assert_eq!(
        loop_step(LoopState::Running, LoopInput::NotificationReady),
        (LoopState::Running, LoopAction::ProcessNext)
    );
    assert_eq!(
        loop_step(LoopState::Running, LoopInput::QueueEmpty),
        (LoopState::Running, LoopAction::YieldBriefly)
    );
}

#[test]
fn loop_cancellation_drains_then_stops() {
    assert_eq!(
        loop_step(LoopState::Running, LoopInput::CancellationSignaled),
        (LoopState::Draining, LoopAction::NoAction)
    );
    // In-flight notifications still run to completion.
    assert_eq!(
        loop_step(LoopState::Draining, LoopInput::NotificationReady),
        (LoopState::Draining, LoopAction::ProcessNext)
    );
    // The loop exits once the queue is empty.
    assert_eq!(
        loop_step(LoopState::Draining, LoopInput::QueueEmpty),
        (LoopState::Stopped, LoopAction::Exit)
    );
}

#[test]
fn loop_stops_on_closed_source() {
    assert_eq!(
        loop_step(LoopState::Running, LoopInput::SourceClosed),
        (LoopState::Stopped, LoopAction::Exit)
    );
    assert_eq!(
        loop_step(LoopState::Stopped, LoopInput::NotificationReady),
        (LoopState::Stopped, LoopAction::NoAction)
    );
}
