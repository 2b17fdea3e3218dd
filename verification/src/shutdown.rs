//! The shutdown coordinator: one shared cancellation state behind three
//! capabilities.
//!
//! A `Coordinator` value is the shared state that the listener handles, the
//! notifier and the report channel of a running process all point at: whether
//! the one-shot broadcast has fired, how many listener handles are alive, and
//! how many shutdown requests sit unconsumed in the report channel.  Each
//! operation of the three capabilities is a small transition on this state,
//! stated as a spec function and implemented by an executable method, so that
//! the coordination invariants — the broadcast fires once and is seen by every
//! past and future waiter, the report channel closes exactly when no listener
//! is left — are proved rather than assumed.

use vstd::prelude::*;

verus! {

/// Shared state of the shutdown coordinator.
///
/// `fired` is the one-shot broadcast flag: once true it never returns to
/// false.  `listeners` counts the live listener handles (the original and all
/// clones).  `pending` counts shutdown requests enqueued on the report
/// channel and not yet received by the supervisor.
#[derive(Clone, Copy, PartialEq, Eq, Structural, Debug)]
pub struct Coordinator {
    pub fired: bool,
    pub listeners: u64,
    pub pending: u64,
}

/// What a single poll of the report channel observes.
#[derive(Clone, Copy, PartialEq, Eq, Structural, Debug)]
pub enum RecvPoll {
    /// A shutdown request was dequeued.
    Request,
    /// Every listener handle is gone and no request is queued: nothing can
    /// ever ask for shutdown again.
    Closed,
    /// No request yet, but listeners are still alive; the receiver would
    /// suspend.
    Pending,
}

/// State after the notifier broadcasts: the flag is set, nothing else moves.
pub open spec fn after_broadcast(c: Coordinator) -> Coordinator {
    Coordinator { fired: true, ..c }
}

/// State after broadcasting `n` times in a row.
pub open spec fn after_broadcast_n(c: Coordinator, n: nat) -> Coordinator
    decreases n,
{
    if n == 0 {
        c
    } else {
        after_broadcast(after_broadcast_n(c, (n - 1) as nat))
    }
}

/// Whether a listener's wait operation resolves without suspending.
pub open spec fn wait_resolves_now(c: Coordinator) -> bool {
    c.fired
}

/// State after a listener handle is cloned.
pub open spec fn after_clone(c: Coordinator) -> Coordinator {
    Coordinator { listeners: (c.listeners + 1) as u64, ..c }
}

/// State after a listener handle is dropped.
pub open spec fn after_drop(c: Coordinator) -> Coordinator {
    Coordinator { listeners: (c.listeners - 1) as u64, ..c }
}

/// State after a listener enqueues a shutdown request.
pub open spec fn after_request(c: Coordinator) -> Coordinator {
    Coordinator { pending: (c.pending + 1) as u64, ..c }
}

/// What a poll of the report channel yields in state `c`.
pub open spec fn recv_outcome(c: Coordinator) -> RecvPoll {
    if c.pending > 0 {
        RecvPoll::Request
    } else if c.listeners == 0 {
        RecvPoll::Closed
    } else {
        RecvPoll::Pending
    }
}

/// State after a poll of the report channel: one request is consumed if one
/// was queued, otherwise nothing moves.
pub open spec fn after_recv(c: Coordinator) -> Coordinator {
    if c.pending > 0 {
        Coordinator { pending: (c.pending - 1) as u64, ..c }
    } else {
        c
    }
}

impl Coordinator {
    /// Constructs the shared state at process start: broadcast not fired, one
    /// listener handle (to be cloned per task), an empty report channel.
    pub fn create() -> (c: Coordinator)
        ensures
            !c.fired,
            c.listeners == 1,
            c.pending == 0,
    {
        Coordinator { fired: false, listeners: 1, pending: 0 }
    }

    /// The notifier's broadcast: fires the cancellation state.  Safe to call
    /// any number of times; every call leaves the state exactly as the first
    /// one did.
    pub fn broadcast(&mut self)
        ensures
            *final(self) == after_broadcast(*old(self)),
    {
        self.fired = true;
    }

    /// A listener's wait, as a poll: reports whether the wait resolves now.
    /// It never fails; before the broadcast it merely suspends.
    pub fn wait_ready(&self) -> (r: bool)
        ensures
            r == wait_resolves_now(*self),
    {
        self.fired
    }

    /// A listener handle is cloned for one more task.
    pub fn clone_listener(&mut self)
        requires
            old(self).listeners < u64::MAX,
        ensures
            *final(self) == after_clone(*old(self)),
    {
        self.listeners = self.listeners + 1;
    }

    /// A listener handle is dropped when its task finishes.
    pub fn drop_listener(&mut self)
        requires
            old(self).listeners > 0,
        ensures
            *final(self) == after_drop(*old(self)),
    {
        self.listeners = self.listeners - 1;
    }

    /// A listener asks the whole system to shut down: the request is
    /// enqueued on the report channel.  It resolves once enqueued, not once
    /// shutdown actually happens, and it never fails.
    pub fn request_shutdown(&mut self)
        requires
            old(self).listeners > 0,
            old(self).pending < u64::MAX,
        ensures
            *final(self) == after_request(*old(self)),
    {
        self.pending = self.pending + 1;
    }

    /// The supervisor polls the report channel: one queued request is
    /// yielded, and the terminal `Closed` comes exactly when every listener
    /// handle has been dropped and no request is left unconsumed.
    pub fn recv_poll(&mut self) -> (r: RecvPoll)
        ensures
            r == recv_outcome(*old(self)),
            *final(self) == after_recv(*old(self)),
            r is Closed <==> old(self).listeners == 0 && old(self).pending == 0,
    {
        if self.pending > 0 {
            self.pending = self.pending - 1;
            RecvPoll::Request
        } else if self.listeners == 0 {
            RecvPoll::Closed
        } else {
            RecvPoll::Pending
        }
    }
}

/// Broadcast is idempotent: firing the broadcast any positive number of
/// times leaves the coordinator exactly as firing it once does, so no
/// observation — a wait, a poll of the report channel — can tell the two
/// apart.
pub proof fn lemma_broadcast_idempotent(c: Coordinator, n: nat)
    requires
        n >= 1,
    ensures
        after_broadcast_n(c, n) == after_broadcast(c),
    decreases n,
{
    if n == 1 {
        assert(after_broadcast_n(c, 1) == after_broadcast(after_broadcast_n(c, 0)));
        assert(after_broadcast_n(c, 0) == c);
    } else {
        lemma_broadcast_idempotent(c, (n - 1) as nat);
        assert(after_broadcast(after_broadcast(c)) == after_broadcast(c));
    }
}

/// A late listener sees an immediate fire: a wait issued after the broadcast
/// has fired resolves at once, with no further suspension.
pub proof fn lemma_late_listener_immediate(c: Coordinator)
    ensures
        wait_resolves_now(after_broadcast(c)),
{
}

/// The report channel closes exactly when it is listener-free: a poll yields
/// the terminal `Closed` if and only if every listener handle has been
/// dropped and none of them left a request unconsumed.
pub proof fn lemma_closed_iff_listener_free(c: Coordinator)
    ensures
        recv_outcome(c) is Closed <==> c.listeners == 0 && c.pending == 0,
{
}

/// The broadcast is monotonic: it can never be un-fired.  Broadcasting sets
/// the flag, and no other transition of the coordinator clears it.
pub proof fn lemma_fired_is_permanent(c: Coordinator)
    ensures
        after_broadcast(c).fired,
        c.fired ==> after_clone(c).fired,
        c.fired ==> after_drop(c).fired,
        c.fired ==> after_request(c).fired,
        c.fired ==> after_recv(c).fired,
{
}

} // verus!
