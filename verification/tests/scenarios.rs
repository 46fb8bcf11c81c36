use durlog::errors::SessionError;
use durlog::pipeline::MemPipeline;

fn ascii_payload(len: usize) -> Vec<u8> {
    let mut v = Vec::new();
    for i in 0..len {
        v.push(b'a' + (i % 26) as u8);
    }
    v
}

#[test]
fn full_round_returns_payload() {
    let payload = ascii_payload(125);
    let mut p = MemPipeline::new();
    let read_back = p.run_round(payload.as_slice());
    assert_eq!(read_back, payload);
    assert_eq!(p.file_len(), 125);
    assert_eq!(p.durable_offset(), 125);
    assert_eq!(p.written_offset(), 125);
}

#[test]
fn two_observers_report_identical_content() {
    let payload = ascii_payload(64);
    let mut p = MemPipeline::new();
    p.append(payload.as_slice(), true).unwrap();
    p.flush(true).unwrap();
    assert_eq!(p.await_flush(), Some(64));
    let mapped = p.observe();
    let direct = p.observe_direct().unwrap();
    assert_eq!(mapped, direct);
    assert_eq!(mapped, payload);
}

#[test]
fn sync_failure_publishes_nothing_until_retry_succeeds() {
    let payload = ascii_payload(125);
    let mut p = MemPipeline::new();
    p.append(payload.as_slice(), true).unwrap();

    assert_eq!(p.flush(false), Err(SessionError::SyncError));
    assert_eq!(p.durable_offset(), 0);
    // no flush-complete signal fired: the observer stays blocked
    assert_eq!(p.await_flush(), None);
    assert_eq!(p.observe(), Vec::<u8>::new());

    assert_eq!(p.flush(true), Ok(125));
    assert_eq!(p.durable_offset(), 125);
    assert_eq!(p.await_flush(), Some(125));
    assert_eq!(p.observe(), payload);
}

#[test]
fn two_rounds_concatenate() {
    let first = ascii_payload(10);
    let second = ascii_payload(40);
    let mut p = MemPipeline::new();
    let after_first = p.run_round(first.as_slice());
    assert_eq!(after_first, first);
    let after_second = p.run_round(second.as_slice());
    assert_eq!(p.durable_offset(), 50);
    let mut both = first.clone();
    both.extend(second.iter().copied());
    assert_eq!(after_second, both);
    assert_eq!(p.observe(), both);
}

#[test]
fn observation_is_idempotent_after_one_flush() {
    let payload = ascii_payload(33);
    let mut p = MemPipeline::new();
    p.append(payload.as_slice(), true).unwrap();
    p.flush(true).unwrap();
    assert_eq!(p.await_flush(), Some(33));
    let first = p.observe();
    let second = p.observe();
    let third = p.observe();
    assert_eq!(first, second);
    assert_eq!(second, third);
    assert_eq!(first, payload);
}

#[test]
fn observer_without_flush_sees_no_bytes() {
    let payload = ascii_payload(17);
    let mut p = MemPipeline::new();
    // the write lands but sync is delayed: nothing is durable yet
    p.append(payload.as_slice(), true).unwrap();
    assert_eq!(p.durable_offset(), 0);
    assert_eq!(p.observe(), Vec::<u8>::new());
    // the direct reader notices the mismatch and fails loudly
    assert_eq!(
        p.observe_direct(),
        Err(SessionError::BoundsError { expected: 0, actual: 17 })
    );
}

#[test]
fn offsets_never_decrease_across_rounds() {
    let mut p = MemPipeline::new();
    let mut last_written = 0;
    let mut last_durable = 0;
    for len in [5usize, 0, 12, 1] {
        let payload = ascii_payload(len);
        p.append(payload.as_slice(), true).unwrap();
        assert!(p.written_offset() >= last_written);
        assert!(p.durable_offset() >= last_durable);
        assert!(p.durable_offset() <= p.written_offset());
        last_written = p.written_offset();
        last_durable = p.durable_offset();

        p.flush(true).unwrap();
        assert!(p.written_offset() >= last_written);
        assert!(p.durable_offset() >= last_durable);
        assert!(p.durable_offset() <= p.written_offset());
        last_written = p.written_offset();
        last_durable = p.durable_offset();
        p.await_flush();
    }
    assert_eq!(p.durable_offset(), 18);
    assert_eq!(p.written_offset(), 18);
}

#[test]
fn write_failure_means_the_append_never_happened() {
    let payload = ascii_payload(9);
    let mut p = MemPipeline::new();
    assert_eq!(p.append(payload.as_slice(), false), Err(SessionError::IoError));
    assert_eq!(p.written_offset(), 0);
    assert_eq!(p.file_len(), 0);
    // no write-complete signal fired: the durabilizer has no work
    assert!(!p.ready_to_flush());
    // the pipeline is idle again and a later append succeeds
    assert!(p.ready_to_append());
    assert_eq!(p.run_round(payload.as_slice()), payload);
}
