//! A byte-exact model of the serial line.
//!
//! The line is a queue of bytes in flight: a raw write appends some prefix of
//! what the caller still has to send, a raw read removes some bytes from the
//! front. The OS chooses how a transfer fragments into partial operations;
//! here that choice is an explicit schedule of per-attempt sizes, so the
//! contracts hold for every fragmentation. The round-trip law at the end
//! states that a payload written in full and read back in full comes back
//! byte for byte.

use vstd::prelude::*;

verus! {

use crate::transfer::RawOutcome;

/// A loopback line: whatever one end wrote and the other has not read yet,
/// oldest byte first, plus whether the peer has hung up.
pub struct Loopback {
    queue: Vec<u8>,
    closed: bool,
}

impl View for Loopback {
    type V = Seq<u8>;

    closed spec fn view(&self) -> Seq<u8> {
        self.queue@
    }
}

impl Loopback {
    /// Whether the peer has hung up the line.
    pub closed spec fn is_closed(&self) -> bool {
        self.closed
    }

    /// An idle line carries nothing and is open.
    pub fn new() -> (line: Loopback)
        ensures
            line@ == Seq::<u8>::empty(),
            !line.is_closed(),
    {
        Loopback { queue: Vec::new(), closed: false }
    }

    /// The peer closes or hangs up the line. Bytes already in flight stay
    /// readable; once they are gone, every read attempt reports the zero
    /// count.
    pub fn close(&mut self)
        ensures
            final(self)@ == old(self)@,
            final(self).is_closed(),
    {
        self.closed = true;
    }

    /// What one raw read attempt reports on this line: an empty open line
    /// would block — the operation stays suspended, no bytes invented — an
    /// empty closed line reports the zero count that means hang-up, and
    /// otherwise up to `capacity` front bytes leave the line, at least one.
    pub fn attempt_read(&mut self, capacity: usize) -> (r: (RawOutcome, Vec<u8>))
        requires
            capacity >= 1,
        ensures
            final(self).is_closed() == old(self).is_closed(),
            (old(self)@.len() == 0 && !old(self).is_closed()) ==> (r.0 == RawOutcome::WouldBlock
                && final(self)@ == old(self)@ && r.1@.len() == 0),
            (old(self)@.len() == 0 && old(self).is_closed()) ==> (r.0
                == RawOutcome::Transferred(0usize) && final(self)@ == old(self)@ && r.1@.len()
                == 0),
            old(self)@.len() > 0 ==> ({
                let n = if capacity < old(self)@.len() {
                    capacity as int
                } else {
                    old(self)@.len() as int
                };
                r.0 == RawOutcome::Transferred(n as usize) && r.1@ == old(self)@.take(n)
                    && final(self)@ == old(self)@.skip(n)
            }),
    {
        let len = self.queue.len();
        if len == 0 {
            if self.closed {
                (RawOutcome::Transferred(0), Vec::new())
            } else {
                (RawOutcome::WouldBlock, Vec::new())
            }
        } else {
            let n = if capacity < len {
                capacity
            } else {
                len
            };
            let bytes = self.receive(n);
            (RawOutcome::Transferred(n), bytes)
        }
    }

    /// One raw write: the OS accepted `n` bytes of `data` starting at
    /// `offset`, and exactly those bytes, in order, joined the line.
    pub fn transmit(&mut self, data: &Vec<u8>, offset: usize, n: usize)
        requires
            offset + n <= data@.len(),
        ensures
            final(self)@ == old(self)@ + data@.subrange(offset as int, offset as int + n as int),
            final(self).is_closed() == old(self).is_closed(),
    {
        let mut i: usize = 0;
        assert(offset + n <= data.len());
        assert(self@ =~= old(self)@ + data@.subrange(offset as int, offset as int));
        while i < n
            invariant
                i <= n,
                offset + n <= data@.len(),
                offset + n <= usize::MAX,
                self@ == old(self)@ + data@.subrange(offset as int, offset as int + i as int),
                self.is_closed() == old(self).is_closed(),
            decreases n - i,
        {
            self.queue.push(data[offset + i]);
            assert(self@ =~= old(self)@ + data@.subrange(offset as int, offset as int + i as int + 1));
            i = i + 1;
        }
    }

    /// One raw read: the first `n` queued bytes leave the line, in order.
    pub fn receive(&mut self, n: usize) -> (out: Vec<u8>)
        requires
            n <= old(self)@.len(),
        ensures
            out@ == old(self)@.take(n as int),
            final(self)@ == old(self)@.skip(n as int),
            final(self).is_closed() == old(self).is_closed(),
    {
        let mut out: Vec<u8> = Vec::new();
        let mut i: usize = 0;
        while i < n
            invariant
                i <= n,
                n <= self@.len(),
                self@ == old(self)@,
                out@ == self@.take(i as int),
            decreases n - i,
        {
            out.push(self.queue[i]);
            assert(out@ =~= self@.take(i as int + 1));
            i = i + 1;
        }
        let mut rest: Vec<u8> = Vec::new();
        let mut j: usize = n;
        while j < self.queue.len()
            invariant
                n <= j <= self@.len(),
                self@ == old(self)@,
                rest@ == self@.subrange(n as int, j as int),
            decreases self@.len() - j,
        {
            rest.push(self.queue[j]);
            assert(rest@ =~= self@.subrange(n as int, j as int + 1));
            j = j + 1;
        }
        assert(rest@ =~= old(self)@.skip(n as int));
        self.queue = rest;
        out
    }

    /// Drives `transmit` until every byte of `payload` is on the line or the
    /// schedule runs out. `chunks[k]` bounds how many bytes the OS accepts on
    /// attempt `k`; whatever the schedule, exactly the first `sent` bytes of
    /// the payload joined the line, in order, and a schedule of positive
    /// entries at least as long as the payload always sends it whole.
    pub fn write_all(&mut self, payload: &Vec<u8>, chunks: &Vec<usize>) -> (sent: usize)
        ensures
            sent <= payload@.len(),
            final(self)@ == old(self)@ + payload@.take(sent as int),
            final(self).is_closed() == old(self).is_closed(),
            (chunks@.len() >= payload@.len() && (forall|k: int|
                0 <= k < chunks@.len() ==> #[trigger] chunks@[k] >= 1)) ==> sent == payload@.len(),
    {
        let mut sent: usize = 0;
        let mut k: usize = 0;
        assert(self@ =~= old(self)@ + payload@.take(0));
        while k < chunks.len() && sent < payload.len()
            invariant
                sent <= payload@.len(),
                k <= chunks@.len(),
                self@ == old(self)@ + payload@.take(sent as int),
                self.is_closed() == old(self).is_closed(),
                (forall|m: int| 0 <= m < chunks@.len() ==> #[trigger] chunks@[m] >= 1)
                    ==> (sent >= k || sent == payload@.len()),
            decreases chunks@.len() - k,
        {
            let c = chunks[k];
            let remaining = payload.len() - sent;
            let n = if c < remaining {
                c
            } else {
                remaining
            };
            self.transmit(payload, sent, n);
            assert(payload@.take(sent as int) + payload@.subrange(
                sent as int,
                sent as int + n as int,
            ) =~= payload@.take(sent as int + n as int));
            sent = sent + n;
            k = k + 1;
        }
        sent
    }

    /// Drives `receive` until `want` bytes came back or the schedule runs
    /// out. Whatever the schedule, what comes back is exactly the front of
    /// the line, in order, and a schedule of positive entries at least as
    /// long as `want` always reads the full count.
    pub fn read_exact(&mut self, want: usize, chunks: &Vec<usize>) -> (out: Vec<u8>)
        requires
            want <= old(self)@.len(),
        ensures
            out@.len() <= want,
            out@ == old(self)@.take(out@.len() as int),
            final(self)@ == old(self)@.skip(out@.len() as int),
            final(self).is_closed() == old(self).is_closed(),
            (chunks@.len() >= want && (forall|k: int|
                0 <= k < chunks@.len() ==> #[trigger] chunks@[k] >= 1)) ==> out@.len() == want,
    {
        let mut out: Vec<u8> = Vec::new();
        let mut got: usize = 0;
        let mut k: usize = 0;
        assert(self@ =~= old(self)@.skip(0));
        while k < chunks.len() && got < want
            invariant
                got == out@.len(),
                got <= want,
                want <= old(self)@.len(),
                k <= chunks@.len(),
                out@ == old(self)@.take(got as int),
                self@ == old(self)@.skip(got as int),
                self.is_closed() == old(self).is_closed(),
                (forall|m: int| 0 <= m < chunks@.len() ==> #[trigger] chunks@[m] >= 1)
                    ==> (got >= k || got == want),
            decreases chunks@.len() - k,
        {
            let c = chunks[k];
            let remaining = want - got;
            let n = if c < remaining {
                c
            } else {
                remaining
            };
            let mut piece = self.receive(n);
            assert(piece@ =~= old(self)@.subrange(got as int, got as int + n as int));
            out.append(&mut piece);
            assert(out@ =~= old(self)@.take(got as int + n as int));
            assert(self@ =~= old(self)@.skip(got as int + n as int));
            got = got + n;
            k = k + 1;
        }
        out
    }
}

/// The round-trip law: write a payload in full to an idle line, then read
/// exactly its length — the bytes come back identical and in order, and the
/// line is idle again. `write_all` ensures the line then carries what it
/// carried before plus the payload, and `read_exact` ensures the front of
/// the line comes back unchanged; on an idle line those two facts compose to
/// this identity, however either transfer was fragmented.
pub proof fn lemma_loopback_round_trip(payload: Seq<u8>)
    ensures
        (Seq::<u8>::empty() + payload).take(payload.len() as int) == payload,
        (Seq::<u8>::empty() + payload).skip(payload.len() as int) == Seq::<u8>::empty(),
{
    assert((Seq::<u8>::empty() + payload).take(payload.len() as int) =~= payload);
    assert((Seq::<u8>::empty() + payload).skip(payload.len() as int) =~= Seq::<u8>::empty());
}

} // verus!
