use durlog::errors::SessionError;
use durlog::observer::{check_direct_read, plan_read, verify_payload};
use durlog::session::Session;
use durlog::signal::Signal;

#[test]
fn signal_buffers_at_most_one_notification() {
    let mut s = Signal::new();
    assert!(!s.pending_now());
    s.notify();
    s.notify();
    assert!(s.try_wait());
    assert!(!s.try_wait());
}

#[test]
fn signal_sent_before_wait_is_not_lost() {
    let mut s = Signal::new();
    s.notify();
    assert!(s.pending_now());
    assert!(s.try_wait());
}

#[test]
fn session_happy_path_publishes_the_captured_offset() {
    let mut s = Session::new();
    assert!(s.ready_to_append());
    assert!(!s.ready_to_flush());

    s.begin_append();
    s.record_write_success(10);
    assert_eq!(s.written_offset(), 10);
    assert_eq!(s.durable_offset(), 0);
    assert!(s.ready_to_flush());

    assert_eq!(s.begin_flush(), Some(10));
    assert_eq!(s.record_sync_success(), 10);
    assert_eq!(s.durable_offset(), 10);
    assert_eq!(s.await_flush(), Some(10));
}

#[test]
fn session_write_failure_signals_nothing() {
    let mut s = Session::new();
    s.begin_append();
    s.record_write_failure();
    assert_eq!(s.written_offset(), 0);
    assert!(!s.ready_to_flush());
    assert!(s.ready_to_append());
    assert_eq!(s.begin_flush(), None);
}

#[test]
fn session_sync_failure_keeps_the_capture_for_retry() {
    let mut s = Session::new();
    s.begin_append();
    s.record_write_success(7);
    assert_eq!(s.begin_flush(), Some(7));
    s.record_sync_failure();
    assert_eq!(s.durable_offset(), 0);
    assert_eq!(s.await_flush(), None);
    assert!(s.ready_to_flush());
    // the retry consumes no new signal but publishes the same capture
    assert_eq!(s.begin_flush(), None);
    assert_eq!(s.record_sync_success(), 7);
    assert_eq!(s.durable_offset(), 7);
    assert_eq!(s.await_flush(), Some(7));
}

#[test]
fn plan_read_accepts_a_prefix_and_rejects_an_overrun() {
    assert_eq!(plan_read(3, 5), Ok(3));
    assert_eq!(plan_read(5, 5), Ok(5));
    assert_eq!(plan_read(0, 0), Ok(0));
    assert_eq!(
        plan_read(5, 3),
        Err(SessionError::BoundsError { expected: 5, actual: 3 })
    );
}

#[test]
fn direct_read_requires_exact_length_agreement() {
    assert_eq!(check_direct_read(4, 4), Ok(()));
    assert_eq!(
        check_direct_read(4, 6),
        Err(SessionError::BoundsError { expected: 4, actual: 6 })
    );
    assert_eq!(
        check_direct_read(6, 4),
        Err(SessionError::BoundsError { expected: 6, actual: 4 })
    );
}

#[test]
fn verify_payload_compares_bytes_exactly() {
    assert!(verify_payload(b"lorem ipsum", b"lorem ipsum"));
    assert!(!verify_payload(b"lorem ipsum", b"lorem ipsu?"));
    assert!(!verify_payload(b"lorem", b"lorem "));
    assert!(verify_payload(b"", b""));
}
