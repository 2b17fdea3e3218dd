//! The supervisor's decision logic: which completion triggers shutdown, and
//! how the coordinator is settled before the process exits.
//!
//! The running supervisor races four sources — the OS interrupt, the report
//! channel, the API task, the consumer task — and calls into this module
//! with whichever arm won.  The decision itself is plain state logic and is
//! verified here: an unexpected closure of the feed (the consumer finishing
//! with `Exhausted`, or failing) must itself request shutdown, and whichever
//! arm wins, the broadcast is fired exactly once before exit.

use vstd::prelude::*;

use crate::protocol::{ProtocolError, StreamOutcome};
use crate::shutdown::{after_broadcast, after_request, Coordinator};

verus! {

/// The arm of the supervisor's race that completed first.
#[derive(Clone, Copy, PartialEq, Eq, Debug)]
pub enum RaceWinner {
    /// The OS delivered an interrupt or terminate request.
    Interrupt,
    /// A component requested shutdown through the report channel.
    ShutdownRequested,
    /// The API task finished.
    ApiFinished,
    /// The consumer task finished, with its result.
    ConsumerFinished(Result<StreamOutcome, ProtocolError>),
}

/// Whether a finished consumer task is an unplanned closure of the feed:
/// the source ended on its own (`Exhausted`), or the task failed with a
/// protocol or upstream error.  A `Truncated` consumer stopped because
/// shutdown was already underway, so it triggers nothing.
pub open spec fn consumer_triggers(r: Result<StreamOutcome, ProtocolError>) -> bool {
    match r {
        Ok(outcome) => outcome is Exhausted,
        Err(_) => true,
    }
}

/// Whether the winning race arm must itself request shutdown.  Only an
/// unplanned consumer closure does: the other arms already are shutdown
/// causes in their own right.
pub open spec fn winner_triggers(w: RaceWinner) -> bool {
    match w {
        RaceWinner::ConsumerFinished(r) => consumer_triggers(r),
        _ => false,
    }
}

/// Decides whether a finished consumer task is an unplanned closure that
/// must trigger shutdown.
pub fn consumer_triggers_shutdown(r: &Result<StreamOutcome, ProtocolError>) -> (b: bool)
    ensures
        b == consumer_triggers(*r),
{
    match r {
        Ok(outcome) => match outcome {
            StreamOutcome::Exhausted => true,
            StreamOutcome::Truncated => false,
        },
        Err(_) => true,
    }
}

/// Settles the coordinator once the supervisor's race is decided: exactly
/// one shutdown request is enqueued if and only if the winning arm was an
/// unplanned consumer closure, and then the broadcast fires, whatever the
/// arm was.  After this, every current and future wait resolves.
pub fn settle(c: &mut Coordinator, w: RaceWinner)
    requires
        old(c).pending < u64::MAX,
        winner_triggers(w) ==> old(c).listeners > 0,
    ensures
        *final(c) == after_broadcast(
            if winner_triggers(w) {
                after_request(*old(c))
            } else {
                *old(c)
            },
        ),
        final(c).fired,
        final(c).listeners == old(c).listeners,
        final(c).pending == old(c).pending + (if winner_triggers(w) {
            1int
        } else {
            0int
        }),
{
    match w {
        RaceWinner::ConsumerFinished(r) => {
            if consumer_triggers_shutdown(&r) {
                c.request_shutdown();
            }
        },
        _ => {},
    }
    c.broadcast();
}

/// Unexpected closure triggers shutdown: when the feed ends on its own —
/// the consumer finishing with `Exhausted`, or failing — settling the race
/// enqueues exactly one shutdown request before the broadcast; every other
/// arm enqueues none.
pub proof fn lemma_unexpected_closure_requests_once(c: Coordinator, w: RaceWinner)
    requires
        c.pending < u64::MAX,
    ensures
        winner_triggers(w) ==> after_broadcast(after_request(c)).pending == c.pending + 1,
        !winner_triggers(w) ==> after_broadcast(c).pending == c.pending,
        winner_triggers(w) == (w matches RaceWinner::ConsumerFinished(r) && consumer_triggers(r)),
{
}

} // verus!
