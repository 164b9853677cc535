//! The session slot and the outcomes of open, write and resize.

use pty_session::errors::ErrorKind;
use pty_session::relay::{ReadEvent, Relay, RelayAction};
use pty_session::session::{
    open_failure, resize_outcome, write_outcome, OpenStage, SessionSlot,
};
use pty_session::watcher::{WaitEvent, Watcher};

#[test]
fn write_before_any_open_is_a_silent_noop() {
    let slot: SessionSlot<u32, u32> = SessionSlot::empty();
    assert!(!slot.has_writer());
    assert!(write_outcome(false, None).is_ok());
}

#[test]
fn resize_before_any_open_is_a_silent_noop() {
    let slot: SessionSlot<u32, u32> = SessionSlot::empty();
    assert!(!slot.has_master());
    assert!(resize_outcome(false, None).is_ok());
}

#[test]
fn open_installs_both_handles_at_once() {
    let mut slot: SessionSlot<u32, u32> = SessionSlot::empty();
    slot.install(11, 22);
    assert!(slot.has_writer());
    assert!(slot.has_master());
    assert_eq!(slot.take_writer(), Some(11));
    slot.restore_writer(11);
    assert_eq!(slot.take_master(), Some(22));
}

#[test]
fn write_with_a_session_forwards_the_io_outcome() {
    let mut slot: SessionSlot<u32, u32> = SessionSlot::empty();
    slot.install(1, 2);
    assert!(slot.has_writer());
    assert!(write_outcome(true, Some(Ok(()))).is_ok());
}

#[test]
fn failed_write_is_an_io_error_with_the_reason() {
    let err = write_outcome(true, Some(Err("broken pipe".to_string()))).unwrap_err();
    assert_eq!(err.kind, ErrorKind::Io);
    assert_eq!(err.reason, "broken pipe");
}

#[test]
fn failed_resize_is_an_io_error_with_the_reason() {
    let err = resize_outcome(true, Some(Err("gone".to_string()))).unwrap_err();
    assert_eq!(err.kind, ErrorKind::Io);
    assert_eq!(err.reason, "gone");
}

#[test]
fn each_open_stage_reports_its_own_error_kind() {
    assert_eq!(
        open_failure(OpenStage::Allocate, "out of ptys".to_string()).kind,
        ErrorKind::PtyAllocation
    );
    assert_eq!(
        open_failure(OpenStage::Spawn, "no such file".to_string()).kind,
        ErrorKind::Spawn
    );
    assert_eq!(
        open_failure(OpenStage::CloneReader, "dup failed".to_string()).kind,
        ErrorKind::IoSetup
    );
    assert_eq!(
        open_failure(OpenStage::TakeWriter, "already taken".to_string()).kind,
        ErrorKind::IoSetup
    );
    assert_eq!(
        open_failure(OpenStage::Spawn, "no such file".to_string()).reason,
        "no such file"
    );
}

#[test]
fn failed_open_leaves_the_previous_session_untouched() {
    let mut slot: SessionSlot<u32, u32> = SessionSlot::empty();
    slot.install(1, 2);
    let result = slot.apply_open(Err(open_failure(OpenStage::Spawn, "missing".to_string())));
    let err = result.unwrap_err();
    assert_eq!(err.kind, ErrorKind::Spawn);
    assert_eq!(slot.take_writer(), Some(1));
    assert_eq!(slot.take_master(), Some(2));
}

#[test]
fn successful_open_replaces_both_handles() {
    let mut slot: SessionSlot<u32, u32> = SessionSlot::empty();
    slot.install(1, 2);
    assert!(slot.apply_open(Ok((3, 4))).is_ok());
    assert_eq!(slot.take_writer(), Some(3));
    assert_eq!(slot.take_master(), Some(4));
}

#[test]
fn old_session_tasks_outlive_an_overwrite() {
    // session 1 is live: its relay and watcher hold their own state
    let mut slot: SessionSlot<u32, u32> = SessionSlot::empty();
    slot.install(1, 2);
    let mut relay_one = Relay::new();
    let mut watcher_one = Watcher::new();

    // session 2 replaces the slot while session 1's tasks still run
    slot.install(3, 4);
    assert_eq!(slot.take_writer(), Some(3));
    slot.restore_writer(3);

    // session 1's tasks still deliver their final events
    match relay_one.step(ReadEvent::Data(b"bye".to_vec())) {
        RelayAction::Emit(text) => assert_eq!(text, "bye"),
        RelayAction::Stop => panic!("old relay stopped early"),
    }
    assert!(matches!(relay_one.step(ReadEvent::Eof), RelayAction::Stop));
    assert_eq!(watcher_one.conclude(WaitEvent::Exited(0)), Some(0));
}
