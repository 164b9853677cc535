//! The exit watcher: exactly one report per terminated process.

use pty_session::watcher::{WaitEvent, Watcher};

#[test]
fn exit_code_is_reported_exactly_once() {
    let mut watcher = Watcher::new();
    assert!(!watcher.done);
    let report = watcher.conclude(WaitEvent::Exited(7));
    assert_eq!(report, Some(7));
    // a concluded watcher can never report again
    assert!(watcher.done);
}

#[test]
fn zero_exit_code_is_reported_too() {
    let mut watcher = Watcher::new();
    assert_eq!(watcher.conclude(WaitEvent::Exited(0)), Some(0));
}

#[test]
fn failed_wait_reports_nothing() {
    let mut watcher = Watcher::new();
    assert_eq!(watcher.conclude(WaitEvent::Failed), None);
    assert!(watcher.done);
}
