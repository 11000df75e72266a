use serial_bridge::adapter::{AdapterState, OpState, OutboundQueue};
use serial_bridge::transfer::{RawOutcome, Transfer};

#[test]
fn fresh_adapter_is_idle_in_both_directions() {
    let s = AdapterState::new();
    assert_eq!(s.read, OpState::Idle);
    assert_eq!(s.write, OpState::Idle);
}

#[test]
fn write_completes_while_read_is_pending() {
    let mut s = AdapterState::new();
    s.begin_read();
    s.begin_write();
    let done = s.wake_write(RawOutcome::Transferred(5));
    assert_eq!(done, Some(Transfer::Count(5)));
    assert_eq!(s.write, OpState::Idle);
    assert_eq!(s.read, OpState::Suspended);
    let done = s.wake_read(RawOutcome::Transferred(2));
    assert_eq!(done, Some(Transfer::Count(2)));
}

#[test]
fn read_completes_while_write_is_pending() {
    let mut s = AdapterState::new();
    s.begin_write();
    s.begin_read();
    let done = s.wake_read(RawOutcome::Transferred(7));
    assert_eq!(done, Some(Transfer::Count(7)));
    assert_eq!(s.read, OpState::Idle);
    assert_eq!(s.write, OpState::Suspended);
    let done = s.wake_write(RawOutcome::Transferred(1));
    assert_eq!(done, Some(Transfer::Count(1)));
}

#[test]
fn suspended_read_absorbs_spurious_wakes() {
    let mut s = AdapterState::new();
    s.begin_read();
    assert_eq!(s.wake_read(RawOutcome::WouldBlock), None);
    assert_eq!(s.read, OpState::Suspended);
    assert_eq!(s.wake_read(RawOutcome::Interrupted), None);
    assert_eq!(s.read, OpState::Suspended);
    assert_eq!(
        s.wake_read(RawOutcome::Transferred(0)),
        Some(Transfer::Count(0))
    );
    assert_eq!(s.read, OpState::Idle);
}

#[test]
fn abandoned_read_leaves_the_adapter_usable() {
    let mut s = AdapterState::new();
    s.begin_write();
    s.begin_read();
    s.abandon_read();
    assert_eq!(s.read, OpState::Idle);
    assert_eq!(s.write, OpState::Suspended);
    s.begin_read();
    assert_eq!(
        s.wake_read(RawOutcome::Transferred(1)),
        Some(Transfer::Count(1))
    );
}

#[test]
fn abandoned_write_leaves_the_adapter_usable() {
    let mut s = AdapterState::new();
    s.begin_write();
    s.abandon_write();
    assert_eq!(s.write, OpState::Idle);
    s.begin_write();
    assert_eq!(
        s.wake_write(RawOutcome::Transferred(9)),
        Some(Transfer::Count(9))
    );
}

#[test]
fn flush_waits_for_an_empty_outbound_queue() {
    let mut q = OutboundQueue::new();
    assert!(q.flush_complete());
    q.accept(10);
    assert!(!q.flush_complete());
    q.drain(4);
    assert!(!q.flush_complete());
    q.drain(6);
    assert!(q.flush_complete());
    assert_eq!(q.pending, 0);
}
