use ledger_feed::protocol::{ProtocolError, StreamOutcome};
use ledger_feed::shutdown::{Coordinator, RecvPoll};
use ledger_feed::supervisor::{consumer_triggers_shutdown, settle, RaceWinner};

#[test]
fn exhausted_consumer_requests_shutdown_once() {
    let mut c = Coordinator::create();
    settle(&mut c, RaceWinner::ConsumerFinished(Ok(StreamOutcome::Exhausted)));
    assert!(c.wait_ready());
    // Exactly one request was enqueued before the broadcast.
    assert_eq!(c.recv_poll(), RecvPoll::Request);
    assert_eq!(c.recv_poll(), RecvPoll::Pending);
}

#[test]
fn failed_consumer_requests_shutdown() {
    let mut c = Coordinator::create();
    settle(&mut c, RaceWinner::ConsumerFinished(Err(ProtocolError::InvalidState)));
    assert!(c.wait_ready());
    assert_eq!(c.recv_poll(), RecvPoll::Request);
    assert_eq!(c.recv_poll(), RecvPoll::Pending);
}

#[test]
fn truncated_consumer_requests_nothing() {
    let mut c = Coordinator::create();
    settle(&mut c, RaceWinner::ConsumerFinished(Ok(StreamOutcome::Truncated)));
    assert!(c.wait_ready());
    assert_eq!(c.recv_poll(), RecvPoll::Pending);
}

#[test]
fn interrupt_only_broadcasts() {
    let mut c = Coordinator::create();
    settle(&mut c, RaceWinner::Interrupt);
    assert!(c.wait_ready());
    assert_eq!(c.recv_poll(), RecvPoll::Pending);
}

#[test]
fn trigger_decision_per_result() {
    assert!(consumer_triggers_shutdown(&Ok(StreamOutcome::Exhausted)));
    assert!(consumer_triggers_shutdown(&Err(ProtocolError::Upstream)));
    assert!(consumer_triggers_shutdown(&Err(ProtocolError::InvalidState)));
    assert!(!consumer_triggers_shutdown(&Ok(StreamOutcome::Truncated)));
}
