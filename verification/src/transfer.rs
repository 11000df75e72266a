//! The transfer loop's decisions.
//!
//! Each of read, write and flush is driven the same way by the platform
//! layer: wait for a readiness notification in the relevant direction,
//! attempt the raw operation, and hand the raw outcome to this module. The
//! decision is always the same: an interrupted call is retried at once and
//! invisibly; a would-block result is a spurious wake, so the notification is
//! discarded and the wait re-armed, again invisibly; anything else — a byte
//! count, a zero count included, or a genuine failure — finishes the
//! operation with exactly that result.

use vstd::prelude::*;

verus! {

/// What one raw attempt on the device handle reported.
#[derive(Clone, Copy, Debug, PartialEq, Eq, Structural)]
pub enum RawOutcome {
    /// The call moved this many bytes; on a read, zero means the peer closed
    /// the line.
    Transferred(usize),
    /// Nothing could move: the readiness notification was spurious.
    WouldBlock,
    /// The call was interrupted before doing anything.
    Interrupted,
    /// A genuine failure, with its OS error code.
    Failed(i32),
}

/// The visible result of a finished operation.
#[derive(Clone, Copy, Debug, PartialEq, Eq, Structural)]
pub enum Transfer {
    /// Bytes moved (zero on a read: the line closed).
    Count(usize),
    /// A genuine failure, propagated unchanged.
    Fault(i32),
}

/// What the driving loop must do next.
#[derive(Clone, Copy, Debug, PartialEq, Eq, Structural)]
pub enum Step {
    /// Discard the spurious notification and wait for readiness again.
    AwaitReadiness,
    /// Retry the raw call immediately, without waiting.
    RetryNow,
    /// Return this result to the caller.
    Finish(Transfer),
}

/// The decision taken on one raw outcome.
pub open spec fn step_of(raw: RawOutcome) -> Step {
    match raw {
        RawOutcome::Interrupted => Step::RetryNow,
        RawOutcome::WouldBlock => Step::AwaitReadiness,
        RawOutcome::Transferred(n) => Step::Finish(Transfer::Count(n)),
        RawOutcome::Failed(code) => Step::Finish(Transfer::Fault(code)),
    }
}

/// An outcome the loop absorbs without the caller ever seeing it.
pub open spec fn is_absorbed(raw: RawOutcome) -> bool {
    raw == RawOutcome::Interrupted || raw == RawOutcome::WouldBlock
}

/// One decision of the transfer loop: interrupted calls retry invisibly,
/// would-block re-arms the readiness wait, and anything else — a zero byte
/// count included — finishes the operation with the raw result unchanged.
pub fn next_step(raw: RawOutcome) -> (s: Step)
    ensures
        s == step_of(raw),
        (s is Finish) <==> !is_absorbed(raw),
{
    match raw {
        RawOutcome::Interrupted => Step::RetryNow,
        RawOutcome::WouldBlock => Step::AwaitReadiness,
        RawOutcome::Transferred(n) => Step::Finish(Transfer::Count(n)),
        RawOutcome::Failed(code) => Step::Finish(Transfer::Fault(code)),
    }
}

/// The visible outcome of a whole run of raw attempts: the first attempt the
/// loop does not absorb decides; `None` while every attempt so far was
/// absorbed, that is, while the operation is still suspended.
pub open spec fn outcome_of(attempts: Seq<RawOutcome>) -> Option<Transfer>
    decreases attempts.len(),
{
    if attempts.len() == 0 {
        None
    } else {
        match step_of(attempts[0]) {
            Step::Finish(t) => Some(t),
            _ => outcome_of(attempts.skip(1)),
        }
    }
}

/// Replays a recorded run of raw attempts and returns what the caller saw:
/// the result of the first attempt that was not absorbed, or `None` if the
/// operation would still be suspended.
pub fn resolve(attempts: &Vec<RawOutcome>) -> (r: Option<Transfer>)
    ensures
        r == outcome_of(attempts@),
{
    let mut i: usize = 0;
    assert(attempts@.skip(0) =~= attempts@);
    while i < attempts.len()
        invariant
            i <= attempts@.len(),
            outcome_of(attempts@) == outcome_of(attempts@.skip(i as int)),
        decreases attempts@.len() - i,
    {
        let step = next_step(attempts[i]);
        assert(attempts@.skip(i as int)[0] == attempts@[i as int]);
        match step {
            Step::Finish(t) => {
                return Some(t);
            }
            _ => {}
        }
        assert(attempts@.skip(i as int).skip(1) =~= attempts@.skip(i as int + 1));
        i = i + 1;
    }
    assert(attempts@.skip(i as int) =~= Seq::<RawOutcome>::empty());
    None
}

/// An absorbed attempt — an interrupted call or a spurious wake — anywhere in
/// a run leaves the visible outcome exactly as if it had not occurred.
pub proof fn lemma_absorbed_invisible(attempts: Seq<RawOutcome>, i: int)
    requires
        0 <= i < attempts.len(),
        is_absorbed(attempts[i]),
    ensures
        outcome_of(attempts) == outcome_of(attempts.remove(i)),
    decreases i,
{
    if i == 0 {
        assert(attempts.remove(0) =~= attempts.skip(1));
    } else {
        assert(attempts.remove(i)[0] == attempts[0]);
        match step_of(attempts[0]) {
            Step::Finish(_) => {}
            _ => {
                assert(attempts.skip(1)[i - 1] == attempts[i]);
                lemma_absorbed_invisible(attempts.skip(1), i - 1);
                assert(attempts.skip(1).remove(i - 1) =~= attempts.remove(i).skip(1));
            }
        }
    }
}

/// An operation that meets exactly one interrupted condition completes with
/// the same result as if the interruption had not occurred: no visible error,
/// no change to what is returned.
pub proof fn lemma_interrupted_invisible(attempts: Seq<RawOutcome>, i: int)
    requires
        0 <= i < attempts.len(),
        attempts[i] == RawOutcome::Interrupted,
    ensures
        outcome_of(attempts) == outcome_of(attempts.remove(i)),
{
    lemma_absorbed_invisible(attempts, i);
}

/// A spurious readiness wake is equally invisible: discarding the
/// notification and waiting again never changes what the caller sees.
pub proof fn lemma_spurious_wake_invisible(attempts: Seq<RawOutcome>, i: int)
    requires
        0 <= i < attempts.len(),
        attempts[i] == RawOutcome::WouldBlock,
    ensures
        outcome_of(attempts) == outcome_of(attempts.remove(i)),
{
    lemma_absorbed_invisible(attempts, i);
}

/// While every attempt was absorbed, the operation is still suspended: no
/// visible return happens before a byte arrives, the line closes, or a
/// genuine failure occurs.
pub proof fn lemma_absorbed_run_still_pending(attempts: Seq<RawOutcome>)
    requires
        forall|i: int| 0 <= i < attempts.len() ==> is_absorbed(attempts[i]),
    ensures
        outcome_of(attempts) is None,
    decreases attempts.len(),
{
    if attempts.len() > 0 {
        assert(is_absorbed(attempts[0]));
        assert(forall|i: int|
            0 <= i < attempts.skip(1).len() ==> is_absorbed(#[trigger] attempts.skip(1)[i]));
        lemma_absorbed_run_still_pending(attempts.skip(1));
    }
}

/// The first attempt the loop does not absorb decides the whole run: the
/// operation returns exactly that attempt's result, whatever was absorbed
/// before it and whatever would have come after.
pub proof fn lemma_first_effective_decides(attempts: Seq<RawOutcome>, i: int)
    requires
        0 <= i < attempts.len(),
        !is_absorbed(attempts[i]),
        forall|j: int| 0 <= j < i ==> is_absorbed(#[trigger] attempts[j]),
    ensures
        outcome_of(attempts) == (match step_of(attempts[i]) {
            Step::Finish(t) => Some(t),
            _ => None::<Transfer>,
        }),
    decreases i,
{
    if i > 0 {
        assert(is_absorbed(attempts[0]));
        assert(attempts.skip(1)[i - 1] == attempts[i]);
        assert(forall|j: int| 0 <= j < i - 1 ==> is_absorbed(#[trigger] attempts.skip(1)[j]));
        lemma_first_effective_decides(attempts.skip(1), i - 1);
    }
}

/// How a finished read presents to the caller.
#[derive(Clone, Copy, Debug, PartialEq, Eq, Structural)]
pub enum ReadEvent {
    /// This many bytes arrived (always at least one).
    Data(usize),
    /// The peer closed or hung up the line: a value, never an error.
    Closed,
    /// A genuine failure, with its OS error code.
    Failed(i32),
}

/// What a finished read means: a zero count is the line closing.
pub open spec fn read_event_of(t: Transfer) -> ReadEvent {
    match t {
        Transfer::Count(n) => if n == 0 {
            ReadEvent::Closed
        } else {
            ReadEvent::Data(n)
        },
        Transfer::Fault(code) => ReadEvent::Failed(code),
    }
}

/// Classifies a finished read: a zero-length success means the peer closed
/// the line, and is never retried or reported as an error.
pub fn classify_read(t: Transfer) -> (ev: ReadEvent)
    ensures
        ev == read_event_of(t),
        (ev is Closed) <==> t == Transfer::Count(0usize),
        (ev is Failed) <==> t is Fault,
{
    match t {
        Transfer::Count(n) => {
            if n == 0 {
                ReadEvent::Closed
            } else {
                ReadEvent::Data(n)
            }
        },
        Transfer::Fault(code) => ReadEvent::Failed(code),
    }
}

/// A read on a closed line — the first attempt the loop does not absorb
/// reports zero bytes — returns a zero-length success, and that success is
/// distinguishable from every error result and from every data result.
pub proof fn lemma_hangup_reads_closed(attempts: Seq<RawOutcome>, i: int)
    requires
        0 <= i < attempts.len(),
        attempts[i] == RawOutcome::Transferred(0usize),
        forall|j: int| 0 <= j < i ==> is_absorbed(#[trigger] attempts[j]),
    ensures
        outcome_of(attempts) == Some(Transfer::Count(0usize)),
        read_event_of(Transfer::Count(0usize)) is Closed,
        forall|code: i32| read_event_of(Transfer::Fault(code)) != ReadEvent::Closed,
        forall|n: usize| n > 0 ==> read_event_of(Transfer::Count(n)) != ReadEvent::Closed,
{
    lemma_first_effective_decides(attempts, i);
}

} // verus!
