//! The adapter's suspension state, direction by direction.
//!
//! Read-direction and write-direction operations on one adapter track
//! separate wait state and may proceed concurrently without interference;
//! two concurrent operations in the same direction are the caller's to
//! serialize. Abandoning a suspended operation — dropping its future — must
//! leave the adapter fully usable. Both claims are proved here over the
//! transition functions that the executable methods are specified against.

use vstd::prelude::*;

verus! {

use crate::transfer::{RawOutcome, Step, Transfer, next_step, step_of};

/// One direction's progress: either no operation is outstanding, or one is
/// suspended, waiting for readiness or completion.
#[derive(Clone, Copy, Debug, PartialEq, Eq, Structural)]
pub enum OpState {
    Idle,
    Suspended,
}

/// What can happen to one direction: an operation begins and suspends, a
/// wake-up arrives carrying a raw outcome, or the suspended operation is
/// abandoned by its caller.
#[derive(Clone, Copy, Debug, PartialEq, Eq, Structural)]
pub enum DirEvent {
    Begin,
    Wake(RawOutcome),
    Abandon,
}

/// How one direction's state moves under an event: a wake-up ends the
/// suspension exactly when the transfer loop does not absorb the outcome,
/// and abandonment always restores idleness.
pub open spec fn dir_next(s: OpState, e: DirEvent) -> OpState {
    match e {
        DirEvent::Begin => OpState::Suspended,
        DirEvent::Wake(raw) => match step_of(raw) {
            Step::Finish(_) => OpState::Idle,
            _ => OpState::Suspended,
        },
        DirEvent::Abandon => OpState::Idle,
    }
}

/// The adapter's wait state: one slot per direction, nothing shared.
#[derive(Clone, Copy, Debug, PartialEq, Eq, Structural)]
pub struct AdapterState {
    pub read: OpState,
    pub write: OpState,
}

/// A read-direction event touches the read slot alone.
pub open spec fn read_apply(s: AdapterState, e: DirEvent) -> AdapterState {
    AdapterState { read: dir_next(s.read, e), write: s.write }
}

/// A write-direction event touches the write slot alone.
pub open spec fn write_apply(s: AdapterState, e: DirEvent) -> AdapterState {
    AdapterState { read: s.read, write: dir_next(s.write, e) }
}

impl AdapterState {
    /// A freshly constructed adapter has nothing outstanding in either
    /// direction.
    pub fn new() -> (s: AdapterState)
        ensures
            s == (AdapterState { read: OpState::Idle, write: OpState::Idle }),
    {
        AdapterState { read: OpState::Idle, write: OpState::Idle }
    }

    /// A read begins and suspends. The write direction is untouched.
    pub fn begin_read(&mut self)
        requires
            old(self).read is Idle,
        ensures
            *final(self) == read_apply(*old(self), DirEvent::Begin),
            final(self).read is Suspended,
            final(self).write == old(self).write,
    {
        self.read = OpState::Suspended;
    }

    /// A wake-up reaches the suspended read with a raw outcome. The read
    /// finishes with exactly that outcome's result when the loop does not
    /// absorb it, and stays suspended otherwise; the write direction is
    /// untouched either way.
    pub fn wake_read(&mut self, raw: RawOutcome) -> (done: Option<Transfer>)
        requires
            old(self).read is Suspended,
        ensures
            *final(self) == read_apply(*old(self), DirEvent::Wake(raw)),
            final(self).write == old(self).write,
            match step_of(raw) {
                Step::Finish(t) => done == Some(t) && final(self).read is Idle,
                _ => done is None && final(self).read is Suspended,
            },
    {
        match next_step(raw) {
            Step::Finish(t) => {
                self.read = OpState::Idle;
                Some(t)
            },
            _ => None,
        }
    }

    /// The suspended read is dropped. The read slot is idle again and the
    /// write direction is untouched: the adapter stays fully usable.
    pub fn abandon_read(&mut self)
        ensures
            *final(self) == read_apply(*old(self), DirEvent::Abandon),
            final(self).read is Idle,
            final(self).write == old(self).write,
    {
        self.read = OpState::Idle;
    }

    /// A write begins and suspends. The read direction is untouched.
    pub fn begin_write(&mut self)
        requires
            old(self).write is Idle,
        ensures
            *final(self) == write_apply(*old(self), DirEvent::Begin),
            final(self).write is Suspended,
            final(self).read == old(self).read,
    {
        self.write = OpState::Suspended;
    }

    /// A wake-up reaches the suspended write; the mirror of `wake_read`.
    pub fn wake_write(&mut self, raw: RawOutcome) -> (done: Option<Transfer>)
        requires
            old(self).write is Suspended,
        ensures
            *final(self) == write_apply(*old(self), DirEvent::Wake(raw)),
            final(self).read == old(self).read,
            match step_of(raw) {
                Step::Finish(t) => done == Some(t) && final(self).write is Idle,
                _ => done is None && final(self).write is Suspended,
            },
    {
        match next_step(raw) {
            Step::Finish(t) => {
                self.write = OpState::Idle;
                Some(t)
            },
            _ => None,
        }
    }

    /// The suspended write is dropped; the mirror of `abandon_read`.
    pub fn abandon_write(&mut self)
        ensures
            *final(self) == write_apply(*old(self), DirEvent::Abandon),
            final(self).write is Idle,
            final(self).read == old(self).read,
    {
        self.write = OpState::Idle;
    }
}

/// The two directions are independent: a step of either never touches the
/// other's state, and steps of the two commute — a pending read and a
/// pending write on the same adapter proceed without interference.
pub proof fn lemma_directions_independent(s: AdapterState, er: DirEvent, ew: DirEvent)
    ensures
        read_apply(s, er).write == s.write,
        write_apply(s, ew).read == s.read,
        write_apply(read_apply(s, er), ew) == read_apply(write_apply(s, ew), er),
{
}

/// What a write-direction step does is decided by the write state alone:
/// whether the read has completed, is pending, or was never issued changes
/// nothing — the write completes independently of the read.
pub proof fn lemma_write_blind_to_read(s1: AdapterState, s2: AdapterState, e: DirEvent)
    requires
        s1.write == s2.write,
    ensures
        write_apply(s1, e).write == write_apply(s2, e).write,
{
}

/// And symmetrically: the read completes independently of the write.
pub proof fn lemma_read_blind_to_write(s1: AdapterState, s2: AdapterState, e: DirEvent)
    requires
        s1.read == s2.read,
    ensures
        read_apply(s1, e).read == read_apply(s2, e).read,
{
}

/// Abandoning a suspended operation leaves the adapter fully usable: the
/// direction is idle again, the other direction is untouched, and a
/// subsequent operation starts exactly as it would on an adapter that never
/// carried the abandoned one.
pub proof fn lemma_abandon_then_reuse(s: AdapterState)
    ensures
        read_apply(s, DirEvent::Abandon).read is Idle,
        read_apply(s, DirEvent::Abandon).write == s.write,
        read_apply(read_apply(s, DirEvent::Abandon), DirEvent::Begin) == read_apply(
            (AdapterState { read: OpState::Idle, write: s.write }),
            DirEvent::Begin,
        ),
        write_apply(s, DirEvent::Abandon).write is Idle,
        write_apply(s, DirEvent::Abandon).read == s.read,
        write_apply(write_apply(s, DirEvent::Abandon), DirEvent::Begin) == write_apply(
            (AdapterState { read: s.read, write: OpState::Idle }),
            DirEvent::Begin,
        ),
{
}

/// The local outbound queue as the bytes-pending query reports it: bytes a
/// write has handed to the driver that are not yet physically on the wire.
pub struct OutboundQueue {
    pub pending: u64,
}

impl OutboundQueue {
    /// A fresh line has nothing queued.
    pub fn new() -> (q: OutboundQueue)
        ensures
            q.pending == 0,
    {
        OutboundQueue { pending: 0 }
    }

    /// A completed write left `n` more bytes queued for the wire.
    pub fn accept(&mut self, n: usize)
        requires
            old(self).pending + n <= u64::MAX,
        ensures
            final(self).pending == old(self).pending + n,
    {
        self.pending = self.pending + (n as u64);
    }

    /// The device put `n` of the queued bytes on the wire.
    pub fn drain(&mut self, n: u64)
        requires
            n <= old(self).pending,
        ensures
            final(self).pending == old(self).pending - n,
    {
        self.pending = self.pending - n;
    }

    /// The drain check that ends a flush: flush may report completion exactly
    /// when nothing remains queued, so when flush returns, a bytes-pending
    /// query reads zero. Writable — buffer space being free — is weaker and
    /// never ends a flush.
    pub fn flush_complete(&self) -> (done: bool)
        ensures
            done <==> self.pending == 0,
    {
        self.pending == 0
    }
}

} // verus!
