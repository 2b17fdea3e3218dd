//! The marker-protocol consumer: a strict begin/body/end state machine over
//! ledger-update records.
//!
//! The upstream feed delivers a lazy sequence of records, each one of four
//! kinds: a begin marker announcing a milestone batch and its expected
//! record counts, the consumed records, the created records, and an end
//! marker repeating the begin marker.  The consumer walks this sequence one
//! record at a time, dispatching one handler invocation per body record, and
//! fails with `ProtocolError::InvalidState` the moment a record arrives in a
//! phase where it is not structurally permitted.  The whole walk is
//! cancellable: when the shutdown signal cuts the stream short, the batch in
//! progress is simply abandoned — no error, no partial dispatch beyond what
//! already arrived — and the consumer reports `Truncated` instead of
//! `Exhausted`.
//!
//! The transition function `step` is the per-record decision that the
//! process's event loop calls; `run` folds it over a fully delivered
//! sequence.  Both are specified against the same spec-level state machine,
//! and the batch laws at the end of the module state what the machine does
//! to a well-formed batch as a whole.

use vstd::prelude::*;

verus! {

/// A begin/end marker delimiting one milestone's batch: the milestone
/// sequence number and the expected counts of consumed and created records
/// between the two markers.
#[derive(Clone, Copy, PartialEq, Eq, Structural, Debug)]
pub struct Marker {
    pub milestone_index: u32,
    pub consumed_count: usize,
    pub created_count: usize,
}

/// One record of the upstream feed, reduced to what the protocol reads: its
/// kind, the marker fields, and the opaque output identifier a body record
/// carries for its handler.
#[derive(Clone, Copy, PartialEq, Eq, Structural, Debug)]
pub enum Record {
    /// Begin marker of a milestone batch.
    Begin(Marker),
    /// A consumed (spent) output, with its output identifier.
    Consumed(u64),
    /// A created output, with its output identifier.
    Created(u64),
    /// End marker, which must repeat the begin marker exactly.
    End(Marker),
}

/// One handler invocation dispatched by the consumer, in dispatch order.
#[derive(Clone, Copy, PartialEq, Eq, Structural, Debug)]
pub enum Invocation {
    /// The consumed-record handler was invoked with this output identifier.
    Consumed(u64),
    /// The created-record handler was invoked with this output identifier.
    Created(u64),
}

/// Why the consumer stopped without completing the protocol.
#[derive(Clone, Copy, PartialEq, Eq, Structural, Debug)]
pub enum ProtocolError {
    /// A record arrived in a phase where it is not structurally permitted:
    /// wrong record kind, mismatched end marker, or the source ending in the
    /// middle of a batch.
    InvalidState,
    /// The source itself failed independently of protocol shape.
    Upstream,
}

/// How a completed run ended.  The distinction decides whether the
/// supervisor must itself trigger shutdown.
#[derive(Clone, Copy, PartialEq, Eq, Structural, Debug)]
pub enum StreamOutcome {
    /// The cancellation signal fired and the stream was deliberately cut
    /// short.
    Truncated,
    /// The upstream feed ended on its own.
    Exhausted,
}

/// How the record source stopped producing.
#[derive(Clone, Copy, PartialEq, Eq, Structural, Debug)]
pub enum SourceTermination {
    /// The cancellation signal cut the stream short.
    Cancelled,
    /// The source ended cleanly on its own.
    Ended,
    /// The source reported an error of its own.
    Failed,
}

/// The consumer's phase between two records.
#[derive(Clone, Copy, PartialEq, Eq, Structural, Debug)]
pub enum Phase {
    /// Waiting for the next begin marker.
    AwaitBegin,
    /// Inside a batch, expecting consumed records; `seen` of them have
    /// arrived so far.
    ConsumedPhase { marker: Marker, seen: usize },
    /// Inside a batch, expecting created records; `seen` of them have
    /// arrived so far.
    CreatedPhase { marker: Marker, seen: usize },
    /// The batch body is complete; exactly the end marker may follow.
    AwaitEnd { marker: Marker },
}

/// Well-formedness of a phase: inside a body phase, fewer records have been
/// seen than the marker announced, so at least one more is still expected.
/// `step` establishes this for every phase it returns.
pub open spec fn phase_wf(p: Phase) -> bool {
    match p {
        Phase::AwaitBegin => true,
        Phase::ConsumedPhase { marker, seen } => seen < marker.consumed_count,
        Phase::CreatedPhase { marker, seen } => seen < marker.created_count,
        Phase::AwaitEnd { marker } => true,
    }
}

/// Runtime check of `phase_wf`, for callers outside the verified world that
/// must test the machine's phase invariant before handing a phase back to
/// `step`.
pub fn phase_is_wf(p: &Phase) -> (r: bool)
    ensures
        r == phase_wf(*p),
{
    match p {
        Phase::AwaitBegin => true,
        Phase::ConsumedPhase { marker, seen } => *seen < marker.consumed_count,
        Phase::CreatedPhase { marker, seen } => *seen < marker.created_count,
        Phase::AwaitEnd { marker: _ } => true,
    }
}

/// The phase entered right after a begin marker: phases whose expected count
/// is zero are skipped, as the protocol has no record to await in them.
pub open spec fn enter_body(m: Marker) -> Phase {
    if m.consumed_count > 0 {
        Phase::ConsumedPhase { marker: m, seen: 0 }
    } else if m.created_count > 0 {
        Phase::CreatedPhase { marker: m, seen: 0 }
    } else {
        Phase::AwaitEnd { marker: m }
    }
}

/// The phase after one more consumed record in `ConsumedPhase { m, seen }`.
pub open spec fn after_consumed(m: Marker, seen: usize) -> Phase {
    if seen + 1 < m.consumed_count {
        Phase::ConsumedPhase { marker: m, seen: (seen + 1) as usize }
    } else if m.created_count > 0 {
        Phase::CreatedPhase { marker: m, seen: 0 }
    } else {
        Phase::AwaitEnd { marker: m }
    }
}

/// The phase after one more created record in `CreatedPhase { m, seen }`.
pub open spec fn after_created(m: Marker, seen: usize) -> Phase {
    if seen + 1 < m.created_count {
        Phase::CreatedPhase { marker: m, seen: (seen + 1) as usize }
    } else {
        Phase::AwaitEnd { marker: m }
    }
}

/// The state machine of the protocol: what one record does in one phase.
/// A permitted record yields the next phase and at most one handler
/// invocation; any other record is `InvalidState`.
pub open spec fn spec_step(p: Phase, rec: Record) -> Result<
    (Phase, Option<Invocation>),
    ProtocolError,
> {
    match p {
        Phase::AwaitBegin => match rec {
            Record::Begin(m) => Ok((enter_body(m), None)),
            _ => Err(ProtocolError::InvalidState),
        },
        Phase::ConsumedPhase { marker, seen } => match rec {
            Record::Consumed(id) => Ok(
                (after_consumed(marker, seen), Some(Invocation::Consumed(id))),
            ),
            _ => Err(ProtocolError::InvalidState),
        },
        Phase::CreatedPhase { marker, seen } => match rec {
            Record::Created(id) => Ok(
                (after_created(marker, seen), Some(Invocation::Created(id))),
            ),
            _ => Err(ProtocolError::InvalidState),
        },
        Phase::AwaitEnd { marker } => match rec {
            Record::End(m) => if m == marker {
                Ok((Phase::AwaitBegin, None))
            } else {
                Err(ProtocolError::InvalidState)
            },
            _ => Err(ProtocolError::InvalidState),
        },
    }
}

/// What the consumer reports once the source has stopped producing, given
/// the phase it stopped in and why the source stopped.  Cancellation wins
/// unconditionally — a batch in progress is abandoned without error; a clean
/// end is only in order between batches; a source failure is propagated.
pub open spec fn spec_finish(p: Phase, t: SourceTermination) -> Result<
    StreamOutcome,
    ProtocolError,
> {
    match t {
        SourceTermination::Cancelled => Ok(StreamOutcome::Truncated),
        SourceTermination::Ended => if p is AwaitBegin {
            Ok(StreamOutcome::Exhausted)
        } else {
            Err(ProtocolError::InvalidState)
        },
        SourceTermination::Failed => Err(ProtocolError::Upstream),
    }
}

/// Feeds one record to the state machine.  This is the per-record decision
/// of the consumer: the surrounding event loop hands it each record the
/// source delivers (unless cancellation fired first), dispatches the handler
/// invocation it returns, and carries the returned phase into the next
/// round.
pub fn step(p: Phase, rec: Record) -> (r: Result<(Phase, Option<Invocation>), ProtocolError>)
    requires
        phase_wf(p),
    ensures
        r == spec_step(p, rec),
        r matches Ok(pr) ==> phase_wf(pr.0),
{
    match p {
        Phase::AwaitBegin => match rec {
            Record::Begin(m) => {
                let next = if m.consumed_count > 0 {
                    Phase::ConsumedPhase { marker: m, seen: 0 }
                } else if m.created_count > 0 {
                    Phase::CreatedPhase { marker: m, seen: 0 }
                } else {
                    Phase::AwaitEnd { marker: m }
                };
                Ok((next, None))
            },
            _ => Err(ProtocolError::InvalidState),
        },
        Phase::ConsumedPhase { marker, seen } => match rec {
            Record::Consumed(id) => {
                let next = if seen + 1 < marker.consumed_count {
                    Phase::ConsumedPhase { marker, seen: seen + 1 }
                } else if marker.created_count > 0 {
                    Phase::CreatedPhase { marker, seen: 0 }
                } else {
                    Phase::AwaitEnd { marker }
                };
                Ok((next, Some(Invocation::Consumed(id))))
            },
            _ => Err(ProtocolError::InvalidState),
        },
        Phase::CreatedPhase { marker, seen } => match rec {
            Record::Created(id) => {
                let next = if seen + 1 < marker.created_count {
                    Phase::CreatedPhase { marker, seen: seen + 1 }
                } else {
                    Phase::AwaitEnd { marker }
                };
                Ok((next, Some(Invocation::Created(id))))
            },
            _ => Err(ProtocolError::InvalidState),
        },
        Phase::AwaitEnd { marker } => match rec {
            Record::End(m) => if m == marker {
                Ok((Phase::AwaitBegin, None))
            } else {
                Err(ProtocolError::InvalidState)
            },
            _ => Err(ProtocolError::InvalidState),
        },
    }
}

/// Reports the outcome once the source has stopped producing.
pub fn finish(p: Phase, t: SourceTermination) -> (r: Result<StreamOutcome, ProtocolError>)
    ensures
        r == spec_finish(p, t),
{
    match t {
        SourceTermination::Cancelled => Ok(StreamOutcome::Truncated),
        SourceTermination::Ended => match p {
            Phase::AwaitBegin => Ok(StreamOutcome::Exhausted),
            _ => Err(ProtocolError::InvalidState),
        },
        SourceTermination::Failed => Err(ProtocolError::Upstream),
    }
}

/// The invocations, if any, of one step's result as a sequence.
pub open spec fn inv_of(o: Option<Invocation>) -> Seq<Invocation> {
    match o {
        Some(i) => seq![i],
        None => Seq::empty(),
    }
}

/// The handler invocations the consumer dispatches, in order, when it walks
/// `recs` starting in phase `p`: each successful step contributes its
/// invocation; the first protocol violation stops the walk, and nothing
/// after it is dispatched.
pub open spec fn spec_invocations(p: Phase, recs: Seq<Record>) -> Seq<Invocation>
    decreases recs.len(),
{
    if recs.len() == 0 {
        Seq::empty()
    } else {
        match spec_step(p, recs[0]) {
            Ok(pr) => inv_of(pr.1) + spec_invocations(pr.0, recs.subrange(1, recs.len() as int)),
            Err(_) => Seq::empty(),
        }
    }
}

/// What the consumer returns when it walks `recs` starting in phase `p` and
/// the source then stops for reason `t`: the first protocol violation, if
/// any, else the outcome `spec_finish` assigns to the final phase.
pub open spec fn spec_outcome(p: Phase, recs: Seq<Record>, t: SourceTermination) -> Result<
    StreamOutcome,
    ProtocolError,
>
    decreases recs.len(),
{
    if recs.len() == 0 {
        spec_finish(p, t)
    } else {
        match spec_step(p, recs[0]) {
            Ok(pr) => spec_outcome(pr.0, recs.subrange(1, recs.len() as int), t),
            Err(e) => Err(e),
        }
    }
}

/// Everything one run of the consumer did: the handler invocations it
/// dispatched, in dispatch order, and how it ended.
pub struct RunReport {
    pub invocations: Vec<Invocation>,
    pub outcome: Result<StreamOutcome, ProtocolError>,
}

/// Runs the consumer over a fully delivered record sequence.  `records`
/// holds every record the source produced before it stopped, and
/// `termination` says why it stopped — because the cancellation signal cut
/// it short, because it ended on its own, or because it failed.  The report
/// lists exactly the invocations the state machine dispatches on that
/// sequence and the outcome the protocol assigns to its ending.
pub fn run(records: &Vec<Record>, termination: SourceTermination) -> (r: RunReport)
    ensures
        r.invocations@ == spec_invocations(Phase::AwaitBegin, records@),
        r.outcome == spec_outcome(Phase::AwaitBegin, records@, termination),
{
    let ghost all = records@;
    let mut phase = Phase::AwaitBegin;
    let mut invocations: Vec<Invocation> = Vec::new();
    let mut i: usize = 0;
    proof {
        assert(all.subrange(0, all.len() as int) =~= all);
        assert(Seq::<Invocation>::empty() + spec_invocations(Phase::AwaitBegin, all)
            =~= spec_invocations(Phase::AwaitBegin, all));
    }
    while i < records.len()
        invariant
            i <= records.len(),
            records@ == all,
            phase_wf(phase),
            spec_invocations(Phase::AwaitBegin, all) == invocations@ + spec_invocations(
                phase,
                all.subrange(i as int, all.len() as int),
            ),
            spec_outcome(Phase::AwaitBegin, all, termination) == spec_outcome(
                phase,
                all.subrange(i as int, all.len() as int),
                termination,
            ),
        decreases records.len() - i,
    {
        let ghost rest = all.subrange(i as int, all.len() as int);
        let ghost prev = invocations@;
        proof {
            assert(rest.len() == all.len() - i);
            assert(rest[0] == all[i as int]);
            assert(rest.subrange(1, rest.len() as int) =~= all.subrange(
                i + 1,
                all.len() as int,
            ));
        }
        match step(phase, records[i]) {
            Ok((next, dispatched)) => {
                match dispatched {
                    Some(inv) => invocations.push(inv),
                    None => (),
                }
                proof {
                    assert(invocations@ =~= prev + inv_of(dispatched));
                    assert(spec_invocations(phase, rest) == inv_of(dispatched)
                        + spec_invocations(next, rest.subrange(1, rest.len() as int)));
                    assert(spec_outcome(phase, rest, termination) == spec_outcome(
                        next,
                        rest.subrange(1, rest.len() as int),
                        termination,
                    ));
                    assert(invocations@ + spec_invocations(
                        next,
                        all.subrange(i + 1, all.len() as int),
                    ) =~= prev + spec_invocations(phase, rest));
                }
                phase = next;
                i = i + 1;
            },
            Err(e) => {
                proof {
                    assert(spec_invocations(phase, rest) =~= Seq::<Invocation>::empty());
                    assert(prev + Seq::<Invocation>::empty() =~= prev);
                    assert(spec_outcome(phase, rest, termination) == Err::<
                        StreamOutcome,
                        ProtocolError,
                    >(e));
                }
                return RunReport { invocations, outcome: Err(e) };
            },
        }
    }
    proof {
        assert(all.subrange(i as int, all.len() as int) =~= Seq::<Record>::empty());
        assert(invocations@ =~= invocations@ + Seq::<Invocation>::empty());
    }
    let outcome = finish(phase, termination);
    RunReport { invocations, outcome }
}

/// Whether every record of `recs` is permitted by the protocol when the walk
/// starts in phase `p`: no step raises `InvalidState`.
pub open spec fn prefix_valid(p: Phase, recs: Seq<Record>) -> bool
    decreases recs.len(),
{
    recs.len() == 0 || (match spec_step(p, recs[0]) {
        Ok(pr) => prefix_valid(pr.0, recs.subrange(1, recs.len() as int)),
        Err(_) => false,
    })
}

/// Cancellation mid-stream truncates without error: however far into a batch
/// the walk has come, if no record so far violated the protocol and the
/// cancellation signal then cuts the stream short, the consumer reports
/// `Truncated` and raises no error — the batch in progress is simply
/// abandoned.
pub proof fn lemma_cancellation_truncates(p: Phase, recs: Seq<Record>)
    requires
        prefix_valid(p, recs),
    ensures
        spec_outcome(p, recs, SourceTermination::Cancelled) == Ok::<
            StreamOutcome,
            ProtocolError,
        >(StreamOutcome::Truncated),
    decreases recs.len(),
{
    if recs.len() > 0 {
        match spec_step(p, recs[0]) {
            Ok(pr) => {
                lemma_cancellation_truncates(pr.0, recs.subrange(1, recs.len() as int));
            },
            Err(_) => {},
        }
    }
}

/// The consumed records of a batch, one `Record::Consumed` per identifier.
pub open spec fn consumed_records(ids: Seq<u64>) -> Seq<Record> {
    ids.map_values(|id: u64| Record::Consumed(id))
}

/// The created records of a batch, one `Record::Created` per identifier.
pub open spec fn created_records(ids: Seq<u64>) -> Seq<Record> {
    ids.map_values(|id: u64| Record::Created(id))
}

/// The consumed-handler invocations for a batch, in arrival order.
pub open spec fn consumed_invocations(ids: Seq<u64>) -> Seq<Invocation> {
    ids.map_values(|id: u64| Invocation::Consumed(id))
}

/// The created-handler invocations for a batch, in arrival order.
pub open spec fn created_invocations(ids: Seq<u64>) -> Seq<Invocation> {
    ids.map_values(|id: u64| Invocation::Created(id))
}

/// A well-formed batch on the wire: begin marker, the announced consumed
/// records, the announced created records, matching end marker.
pub open spec fn batch_records(m: Marker, cs: Seq<u64>, rs: Seq<u64>) -> Seq<Record> {
    seq![Record::Begin(m)] + consumed_records(cs) + created_records(rs) + seq![Record::End(m)]
}

/// The invocations a well-formed batch dispatches: all its consumed records,
/// then all its created records, each in arrival order.
pub open spec fn batch_invocations(cs: Seq<u64>, rs: Seq<u64>) -> Seq<Invocation> {
    consumed_invocations(cs) + created_invocations(rs)
}

/// The phase after the consumed part of a batch is complete.
pub open spec fn after_consumed_phase(m: Marker) -> Phase {
    if m.created_count > 0 {
        Phase::CreatedPhase { marker: m, seen: 0 }
    } else {
        Phase::AwaitEnd { marker: m }
    }
}

proof fn lemma_await_end_run(m: Marker, rest: Seq<Record>, t: SourceTermination)
    ensures
        spec_invocations(Phase::AwaitEnd { marker: m }, seq![Record::End(m)] + rest)
            == spec_invocations(Phase::AwaitBegin, rest),
        spec_outcome(Phase::AwaitEnd { marker: m }, seq![Record::End(m)] + rest, t)
            == spec_outcome(Phase::AwaitBegin, rest, t),
{
    let recs = seq![Record::End(m)] + rest;
    assert(recs[0] == Record::End(m));
    assert(recs.subrange(1, recs.len() as int) =~= rest);
    assert(inv_of(None::<Invocation>) + spec_invocations(Phase::AwaitBegin, rest)
        =~= spec_invocations(Phase::AwaitBegin, rest));
}

proof fn lemma_consumed_phase_run(
    m: Marker,
    seen: usize,
    cs: Seq<u64>,
    tail: Seq<Record>,
    t: SourceTermination,
)
    requires
        seen + cs.len() == m.consumed_count,
        cs.len() > 0,
    ensures
        spec_invocations(Phase::ConsumedPhase { marker: m, seen }, consumed_records(cs) + tail)
            == consumed_invocations(cs) + spec_invocations(after_consumed_phase(m), tail),
        spec_outcome(Phase::ConsumedPhase { marker: m, seen }, consumed_records(cs) + tail, t)
            == spec_outcome(after_consumed_phase(m), tail, t),
    decreases cs.len(),
{
    let recs = consumed_records(cs) + tail;
    assert(recs[0] == Record::Consumed(cs[0]));
    let p2 = after_consumed(m, seen);
    let cs2 = cs.subrange(1, cs.len() as int);
    assert(recs.subrange(1, recs.len() as int) =~= consumed_records(cs2) + tail);
    if cs.len() == 1 {
        assert(p2 == after_consumed_phase(m));
        assert(consumed_records(cs2) + tail =~= tail);
        assert(inv_of(Some(Invocation::Consumed(cs[0])))
            + spec_invocations(after_consumed_phase(m), tail)
            =~= consumed_invocations(cs) + spec_invocations(after_consumed_phase(m), tail));
    } else {
        assert(p2 == Phase::ConsumedPhase { marker: m, seen: (seen + 1) as usize });
        lemma_consumed_phase_run(m, (seen + 1) as usize, cs2, tail, t);
        assert(inv_of(Some(Invocation::Consumed(cs[0]))) + (consumed_invocations(cs2)
            + spec_invocations(after_consumed_phase(m), tail))
            =~= consumed_invocations(cs) + spec_invocations(after_consumed_phase(m), tail));
    }
}

proof fn lemma_created_phase_run(
    m: Marker,
    seen: usize,
    rs: Seq<u64>,
    tail: Seq<Record>,
    t: SourceTermination,
)
    requires
        seen + rs.len() == m.created_count,
        rs.len() > 0,
    ensures
        spec_invocations(Phase::CreatedPhase { marker: m, seen }, created_records(rs) + tail)
            == created_invocations(rs) + spec_invocations(Phase::AwaitEnd { marker: m }, tail),
        spec_outcome(Phase::CreatedPhase { marker: m, seen }, created_records(rs) + tail, t)
            == spec_outcome(Phase::AwaitEnd { marker: m }, tail, t),
    decreases rs.len(),
{
    let recs = created_records(rs) + tail;
    assert(recs[0] == Record::Created(rs[0]));
    let p2 = after_created(m, seen);
    let rs2 = rs.subrange(1, rs.len() as int);
    assert(recs.subrange(1, recs.len() as int) =~= created_records(rs2) + tail);
    if rs.len() == 1 {
        assert(p2 == Phase::AwaitEnd { marker: m });
        assert(created_records(rs2) + tail =~= tail);
        assert(inv_of(Some(Invocation::Created(rs[0])))
            + spec_invocations(Phase::AwaitEnd { marker: m }, tail)
            =~= created_invocations(rs) + spec_invocations(Phase::AwaitEnd { marker: m }, tail));
    } else {
        assert(p2 == Phase::CreatedPhase { marker: m, seen: (seen + 1) as usize });
        lemma_created_phase_run(m, (seen + 1) as usize, rs2, tail, t);
        assert(inv_of(Some(Invocation::Created(rs[0]))) + (created_invocations(rs2)
            + spec_invocations(Phase::AwaitEnd { marker: m }, tail))
            =~= created_invocations(rs) + spec_invocations(Phase::AwaitEnd { marker: m }, tail));
    }
}

proof fn lemma_created_part_run(m: Marker, rs: Seq<u64>, rest: Seq<Record>, t: SourceTermination)
    requires
        rs.len() == m.created_count,
    ensures
        spec_invocations(after_consumed_phase(m), created_records(rs) + seq![Record::End(m)] + rest)
            == created_invocations(rs) + spec_invocations(Phase::AwaitBegin, rest),
        spec_outcome(after_consumed_phase(m), created_records(rs) + seq![Record::End(m)] + rest, t)
            == spec_outcome(Phase::AwaitBegin, rest, t),
{
    lemma_await_end_run(m, rest, t);
    if rs.len() == 0 {
        assert(after_consumed_phase(m) == Phase::AwaitEnd { marker: m });
        assert(created_records(rs) + seq![Record::End(m)] + rest =~= seq![Record::End(m)] + rest);
        assert(created_invocations(rs) + spec_invocations(Phase::AwaitBegin, rest)
            =~= spec_invocations(Phase::AwaitBegin, rest));
    } else {
        assert(created_records(rs) + seq![Record::End(m)] + rest =~= created_records(rs) + (seq![
            Record::End(m),
        ] + rest));
        lemma_created_phase_run(m, 0, rs, seq![Record::End(m)] + rest, t);
    }
}

/// Protocol validity for one batch: a well-formed batch — begin marker, the
/// announced number of consumed records, the announced number of created
/// records, matching end marker — dispatches exactly its consumed handlers
/// then its created handlers, in arrival order, and returns the machine to
/// `AwaitBegin` for whatever follows, leaving the eventual outcome
/// untouched.
pub proof fn lemma_batch_valid(
    m: Marker,
    cs: Seq<u64>,
    rs: Seq<u64>,
    rest: Seq<Record>,
    t: SourceTermination,
)
    requires
        cs.len() == m.consumed_count,
        rs.len() == m.created_count,
    ensures
        spec_invocations(Phase::AwaitBegin, batch_records(m, cs, rs) + rest)
            == batch_invocations(cs, rs) + spec_invocations(Phase::AwaitBegin, rest),
        spec_outcome(Phase::AwaitBegin, batch_records(m, cs, rs) + rest, t)
            == spec_outcome(Phase::AwaitBegin, rest, t),
{
    let recs = batch_records(m, cs, rs) + rest;
    assert(recs[0] == Record::Begin(m));
    let body = recs.subrange(1, recs.len() as int);
    lemma_created_part_run(m, rs, rest, t);
    if cs.len() == 0 {
        assert(enter_body(m) == after_consumed_phase(m));
        assert(body =~= created_records(rs) + seq![Record::End(m)] + rest);
        assert(inv_of(None::<Invocation>) + (created_invocations(rs) + spec_invocations(
            Phase::AwaitBegin,
            rest,
        )) =~= batch_invocations(cs, rs) + spec_invocations(Phase::AwaitBegin, rest));
    } else {
        assert(enter_body(m) == Phase::ConsumedPhase { marker: m, seen: 0 });
        let tail = created_records(rs) + seq![Record::End(m)] + rest;
        assert(body =~= consumed_records(cs) + tail);
        lemma_consumed_phase_run(m, 0, cs, tail, t);
        assert(inv_of(None::<Invocation>) + (consumed_invocations(cs) + (created_invocations(rs)
            + spec_invocations(Phase::AwaitBegin, rest)))
            =~= batch_invocations(cs, rs) + spec_invocations(Phase::AwaitBegin, rest));
    }
}

/// One milestone batch of the feed, as the ghost description the validity
/// law quantifies over: its marker and the output identifiers of its
/// consumed and created records.
pub struct BatchSpec {
    pub marker: Marker,
    pub consumed: Seq<u64>,
    pub created: Seq<u64>,
}

/// A batch description is well formed when its record counts are the ones
/// its marker announces.
pub open spec fn batch_spec_wf(b: BatchSpec) -> bool {
    b.consumed.len() == b.marker.consumed_count && b.created.len() == b.marker.created_count
}

/// The wire records of a sequence of batches, in order.
pub open spec fn batches_records(bs: Seq<BatchSpec>) -> Seq<Record>
    decreases bs.len(),
{
    if bs.len() == 0 {
        Seq::empty()
    } else {
        batch_records(bs[0].marker, bs[0].consumed, bs[0].created) + batches_records(
            bs.subrange(1, bs.len() as int),
        )
    }
}

/// The invocations a sequence of batches dispatches, batch by batch in
/// order.
pub open spec fn batches_invocations(bs: Seq<BatchSpec>) -> Seq<Invocation>
    decreases bs.len(),
{
    if bs.len() == 0 {
        Seq::empty()
    } else {
        batch_invocations(bs[0].consumed, bs[0].created) + batches_invocations(
            bs.subrange(1, bs.len() as int),
        )
    }
}

/// Protocol validity: on any well-formed input — any number of batches, each
/// carrying exactly the records its marker announces — the consumer
/// dispatches, per batch, exactly the consumed handlers then the created
/// handlers in arrival order, batches strictly in order, and returns
/// `Exhausted` with no error when the source ends cleanly after the last end
/// marker.
pub proof fn lemma_protocol_validity(bs: Seq<BatchSpec>)
    requires
        forall|i: int| 0 <= i < bs.len() ==> batch_spec_wf(#[trigger] bs[i]),
    ensures
        spec_invocations(Phase::AwaitBegin, batches_records(bs)) == batches_invocations(bs),
        spec_outcome(Phase::AwaitBegin, batches_records(bs), SourceTermination::Ended) == Ok::<
            StreamOutcome,
            ProtocolError,
        >(StreamOutcome::Exhausted),
    decreases bs.len(),
{
    if bs.len() == 0 {
        assert(batches_records(bs).len() == 0);
    } else {
        let bs2 = bs.subrange(1, bs.len() as int);
        assert(forall|i: int| 0 <= i < bs2.len() ==> batch_spec_wf(#[trigger] bs2[i]));
        lemma_protocol_validity(bs2);
        lemma_batch_valid(
            bs[0].marker,
            bs[0].consumed,
            bs[0].created,
            batches_records(bs2),
            SourceTermination::Ended,
        );
    }
}

} // verus!
