use xbus::client::ServiceDescWatchResult;
use xbus::service::AppNodes;
use xbus::watcher::{observe, RevisionResult, WatchAction, WatchEvent, WatchPhase, WatchTask, WATCH_DELAY};

#[test]
fn spawn_polls_from_the_initial_revision() {
    let (task, action) = WatchTask::spawn(Some(3));
    assert_eq!(task.last_revision, Some(3));
    assert_eq!(task.phase, WatchPhase::Polling);
    assert_eq!(action, WatchAction::Watch(Some(3)));
    let (task, action) = WatchTask::spawn(None);
    assert_eq!(task.last_revision, None);
    assert_eq!(action, WatchAction::Watch(None));
}

#[test]
fn watch_reconnects_and_advances_the_revision() {
    let (mut task, action) = WatchTask::spawn(None);
    assert_eq!(action, WatchAction::Watch(None));
    // a value of revision 10 is delivered
    let a = task.poll(WatchEvent::Value { revision: 10, delivered: true });
    assert_eq!(a, WatchAction::Watch(Some(10)));
    // the long poll runs out: poll again at once, from 10
    let a = task.poll(WatchEvent::Unchanged);
    assert_eq!(a, WatchAction::Watch(Some(10)));
    assert_eq!(task.phase, WatchPhase::Polling);
    // a failure: wait five seconds, the revision stays
    let a = task.poll(WatchEvent::Failed);
    assert_eq!(a, WatchAction::Wait(5));
    assert_eq!(WATCH_DELAY, 5);
    assert_eq!(task.phase, WatchPhase::Backoff);
    assert_eq!(task.last_revision, Some(10));
    // the wait is over: poll from 10
    let a = task.poll(WatchEvent::Unchanged);
    assert_eq!(a, WatchAction::Watch(Some(10)));
    // the next value
    let a = task.poll(WatchEvent::Value { revision: 11, delivered: true });
    assert_eq!(a, WatchAction::Watch(Some(11)));
    assert_eq!(task.last_revision, Some(11));
    assert!(!task.is_terminated());
}

#[test]
fn revision_zero_does_not_touch_the_stored_revision() {
    let (mut task, _) = WatchTask::spawn(Some(7));
    let a = task.poll(WatchEvent::Value { revision: 0, delivered: true });
    assert_eq!(a, WatchAction::Watch(Some(7)));
    assert_eq!(task.last_revision, Some(7));
    let (mut task, _) = WatchTask::spawn(None);
    let a = task.poll(WatchEvent::Value { revision: 0, delivered: true });
    assert_eq!(a, WatchAction::Watch(None));
    assert_eq!(task.last_revision, None);
}

#[test]
fn cancellation_ends_the_task() {
    let (mut task, _) = WatchTask::spawn(Some(1));
    assert_eq!(task.poll(WatchEvent::Cancelled), WatchAction::Stop);
    assert!(task.is_terminated());
    assert_eq!(task.poll(WatchEvent::Unchanged), WatchAction::Stop);
    assert_eq!(task.poll(WatchEvent::Value { revision: 9, delivered: true }), WatchAction::Stop);
    assert_eq!(task.last_revision, Some(1));
}

#[test]
fn a_receiver_that_is_gone_ends_the_task() {
    let (mut task, _) = WatchTask::spawn(None);
    let a = task.poll(WatchEvent::Value { revision: 4, delivered: false });
    assert_eq!(a, WatchAction::Stop);
    assert!(task.is_terminated());
    assert_eq!(task.last_revision, Some(4));
}

#[test]
fn cancellation_interrupts_a_backoff() {
    let (mut task, _) = WatchTask::spawn(None);
    assert_eq!(task.poll(WatchEvent::Failed), WatchAction::Wait(5));
    assert_eq!(task.poll(WatchEvent::Cancelled), WatchAction::Stop);
    assert!(task.is_terminated());
}

#[test]
fn watch_once_chooses_between_delay_and_poll() {
    let (mut task, _) = WatchTask::spawn(Some(2));
    assert_eq!(task.watch_once(true), WatchAction::Wait(5));
    assert_eq!(task.phase, WatchPhase::Backoff);
    assert_eq!(task.watch_once(false), WatchAction::Watch(Some(2)));
    assert_eq!(task.phase, WatchPhase::Polling);
}

#[test]
fn observe_reads_the_revision_of_a_value() {
    let mut nodes = AppNodes { nodes: std::collections::HashMap::new(), revision: 12 };
    nodes.nodes.insert("k".to_string(), "c".to_string());
    assert_eq!(nodes.get_revision(), 12);
    assert_eq!(observe(&nodes, true), WatchEvent::Value { revision: 12, delivered: true });
    let descs = ServiceDescWatchResult { events: None, revision: 0 };
    assert_eq!(observe(&descs, false), WatchEvent::Value { revision: 0, delivered: false });
}

#[test]
fn stored_revision_rises_with_rising_reports() {
    let (mut task, _) = WatchTask::spawn(Some(5));
    let mut last = 5;
    for r in [5u64, 0, 6, 6, 0, 9] {
        task.poll(WatchEvent::Value { revision: r, delivered: true });
        let now = task.last_revision.unwrap_or(0);
        assert!(now >= last);
        last = now;
    }
    assert_eq!(task.last_revision, Some(9));
}
