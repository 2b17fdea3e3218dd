use ledger_feed::protocol::{
    run, step, Invocation, Marker, Phase, ProtocolError, Record, SourceTermination, StreamOutcome,
};

fn marker(milestone_index: u32, consumed_count: usize, created_count: usize) -> Marker {
    Marker { milestone_index, consumed_count, created_count }
}

fn batch(m: Marker, consumed: &[u64], created: &[u64]) -> Vec<Record> {
    let mut records = vec![Record::Begin(m)];
    for &id in consumed {
        records.push(Record::Consumed(id));
    }
    for &id in created {
        records.push(Record::Created(id));
    }
    records.push(Record::End(m));
    records
}

#[test]
fn protocol_validity_three_milestones() {
    let mut records = Vec::new();
    records.extend(batch(marker(1, 2, 1), &[10, 11], &[12]));
    records.extend(batch(marker(2, 0, 2), &[], &[20, 21]));
    records.extend(batch(marker(3, 1, 0), &[30], &[]));

    let report = run(&records, SourceTermination::Ended);

    assert_eq!(report.outcome, Ok(StreamOutcome::Exhausted));
    assert_eq!(
        report.invocations,
        vec![
            Invocation::Consumed(10),
            Invocation::Consumed(11),
            Invocation::Created(12),
            Invocation::Created(20),
            Invocation::Created(21),
            Invocation::Consumed(30),
        ]
    );
}

#[test]
fn empty_feed_is_exhausted() {
    let report = run(&Vec::new(), SourceTermination::Ended);
    assert_eq!(report.outcome, Ok(StreamOutcome::Exhausted));
    assert!(report.invocations.is_empty());
}

#[test]
fn zero_count_batch_is_valid() {
    let m = marker(5, 0, 0);
    let records = vec![Record::Begin(m), Record::End(m)];
    let report = run(&records, SourceTermination::Ended);
    assert_eq!(report.outcome, Ok(StreamOutcome::Exhausted));
    assert!(report.invocations.is_empty());
}

#[test]
fn malformed_batch_detected_without_dispatch() {
    // begin(1, 2, 0) followed immediately by a created record instead of the
    // two announced consumed records.
    let records = vec![Record::Begin(marker(1, 2, 0)), Record::Created(99)];
    let report = run(&records, SourceTermination::Ended);
    assert_eq!(report.outcome, Err(ProtocolError::InvalidState));
    assert!(report.invocations.is_empty());
}

#[test]
fn body_record_without_begin_is_invalid() {
    let records = vec![Record::Consumed(1)];
    let report = run(&records, SourceTermination::Ended);
    assert_eq!(report.outcome, Err(ProtocolError::InvalidState));
    assert!(report.invocations.is_empty());
}

#[test]
fn mismatched_end_marker_is_invalid() {
    let records = vec![Record::Begin(marker(1, 0, 0)), Record::End(marker(1, 1, 0))];
    let report = run(&records, SourceTermination::Ended);
    assert_eq!(report.outcome, Err(ProtocolError::InvalidState));
}

#[test]
fn premature_clean_end_is_invalid() {
    // The source ends on its own in the middle of a batch.
    let records = vec![Record::Begin(marker(1, 1, 0))];
    let report = run(&records, SourceTermination::Ended);
    assert_eq!(report.outcome, Err(ProtocolError::InvalidState));
}

#[test]
fn cancellation_mid_batch_truncates_without_error() {
    // begin(1, 3, 0), one consumed record arrives, then cancellation fires.
    let records = vec![Record::Begin(marker(1, 3, 0)), Record::Consumed(7)];
    let report = run(&records, SourceTermination::Cancelled);
    assert_eq!(report.outcome, Ok(StreamOutcome::Truncated));
    assert_eq!(report.invocations, vec![Invocation::Consumed(7)]);
}

#[test]
fn cancellation_between_batches_truncates() {
    let records = batch(marker(1, 1, 0), &[4], &[]);
    let report = run(&records, SourceTermination::Cancelled);
    assert_eq!(report.outcome, Ok(StreamOutcome::Truncated));
    assert_eq!(report.invocations, vec![Invocation::Consumed(4)]);
}

#[test]
fn upstream_failure_is_propagated() {
    let records = batch(marker(1, 1, 0), &[4], &[]);
    let report = run(&records, SourceTermination::Failed);
    assert_eq!(report.outcome, Err(ProtocolError::Upstream));
}

#[test]
fn error_wins_over_source_failure_when_earlier() {
    // The protocol violation happens before the source stops: it is the
    // violation that is reported.
    let records = vec![Record::Created(1)];
    let report = run(&records, SourceTermination::Failed);
    assert_eq!(report.outcome, Err(ProtocolError::InvalidState));
}

#[test]
fn step_walks_one_batch() {
    let m = marker(9, 1, 1);
    let (p, inv) = step(Phase::AwaitBegin, Record::Begin(m)).unwrap();
    assert_eq!(inv, None);
    let (p, inv) = step(p, Record::Consumed(41)).unwrap();
    assert_eq!(inv, Some(Invocation::Consumed(41)));
    let (p, inv) = step(p, Record::Created(42)).unwrap();
    assert_eq!(inv, Some(Invocation::Created(42)));
    let (p, inv) = step(p, Record::End(m)).unwrap();
    assert_eq!(inv, None);
    assert_eq!(p, Phase::AwaitBegin);
}

#[test]
fn step_rejects_begin_inside_batch() {
    let m = marker(2, 1, 0);
    let (p, _) = step(Phase::AwaitBegin, Record::Begin(m)).unwrap();
    assert_eq!(step(p, Record::Begin(m)), Err(ProtocolError::InvalidState));
}
