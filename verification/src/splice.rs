//! The byte-splicing engine: a fixed-capacity ring buffer with backpressure
//! signaling, a directional pump that owns one buffer and the end-of-input
//! sequencing for one direction, and a relay pair composing two pumps.
//!
//! The pump is a poll-style state machine: the host scheduler performs the
//! actual non-blocking reads, writes, and the half-close, and feeds their
//! outcomes back in; every decision about cursors, state transitions, and
//! waiter wake-ups is made here, verified.

use vstd::prelude::*;
use vstd::assert_seqs_equal;

verus! {

/// Capacity of the splice buffer, in bytes.
pub const BUFFER_SIZE: usize = 4096;

/// A fixed-capacity byte buffer with cursor-based occupancy tracking.
///
/// `data` is a zero-initialized arena of exactly `BUFFER_SIZE` bytes. The
/// readable region is `[start, end)`; the writable region is
/// `[end, BUFFER_SIZE)`. There is no wraparound: once the buffer is fully
/// drained, both cursors reset to 0 to reclaim the whole capacity.
///
/// `filled` and `drained` record every byte that ever entered or left the
/// buffer; they witness that the buffer never duplicates, drops, or reorders
/// a byte.
pub struct SpliceBuffer {
    pub data: Vec<u8>,
    /// First readable byte.
    pub start: usize,
    /// First writable byte.
    pub end: usize,
    /// Whether a "resume when data arrives" waiter is registered.
    pub parked_not_empty: bool,
    /// Whether a "resume when space frees" waiter is registered.
    pub parked_not_full: bool,
    /// Every byte that ever entered the buffer, in order.
    pub filled: Ghost<Seq<u8>>,
    /// Every byte that ever left the buffer, in order.
    pub drained: Ghost<Seq<u8>>,
}

impl SpliceBuffer {
    /// The bytes currently buffered, oldest first.
    pub open spec fn contents(self) -> Seq<u8> {
        self.data@.subrange(self.start as int, self.end as int)
    }

    /// Structural invariant: cursors in bounds and only ever equal at 0 (a
    /// fully drained buffer resets), and the fill history is exactly the
    /// drain history followed by what is still buffered.
    pub open spec fn wf(self) -> bool {
        &&& self.data@.len() == BUFFER_SIZE
        &&& self.start <= self.end <= BUFFER_SIZE
        &&& self.start == self.end ==> self.start == 0
        &&& self.filled@ == self.drained@ + self.contents()
    }

    pub open spec fn spec_is_empty(self) -> bool {
        self.start >= self.end
    }

    pub open spec fn spec_is_full(self) -> bool {
        self.end >= BUFFER_SIZE
    }

    /// How many bytes the writable region can still take.
    pub open spec fn free_len(self) -> int {
        BUFFER_SIZE - self.end
    }

    /// A fresh, empty buffer over a zero-initialized arena.
    pub fn new() -> (b: SpliceBuffer)
        ensures
            b.wf(),
            b.contents() =~= Seq::<u8>::empty(),
            b.filled@ =~= Seq::<u8>::empty(),
            b.drained@ =~= Seq::<u8>::empty(),
            !b.parked_not_empty,
            !b.parked_not_full,
            b.free_len() == BUFFER_SIZE,
    {
        let data: Vec<u8> = vec![0u8; BUFFER_SIZE];
        SpliceBuffer {
            data,
            start: 0,
            end: 0,
            parked_not_empty: false,
            parked_not_full: false,
            filled: Ghost(Seq::empty()),
            drained: Ghost(Seq::empty()),
        }
    }

    pub fn is_empty(&self) -> (r: bool)
        ensures
            r == self.spec_is_empty(),
            self.wf() ==> r == (self.contents().len() == 0),
    {
        self.start >= self.end
    }

    pub fn is_full(&self) -> (r: bool)
        ensures
            r == self.spec_is_full(),
            self.wf() ==> r == (self.free_len() == 0),
    {
        self.end >= BUFFER_SIZE
    }

    /// Reports whether data is available; if not, registers the single
    /// "resume when data arrives" waiter (replacing any previous one).
    pub fn poll_not_empty(&mut self) -> (ready: bool)
        ensures
            ready == !old(self).spec_is_empty(),
            final(self).parked_not_empty == (if ready {
                old(self).parked_not_empty
            } else {
                true
            }),
            final(self).data == old(self).data,
            final(self).start == old(self).start,
            final(self).end == old(self).end,
            final(self).parked_not_full == old(self).parked_not_full,
            final(self).filled == old(self).filled,
            final(self).drained == old(self).drained,
    {
        if self.is_empty() {
            self.parked_not_empty = true;
            false
        } else {
            true
        }
    }

    /// Reports whether space is available; if not, registers the single
    /// "resume when space frees" waiter (replacing any previous one).
    pub fn poll_not_full(&mut self) -> (ready: bool)
        ensures
            ready == !old(self).spec_is_full(),
            final(self).parked_not_full == (if ready {
                old(self).parked_not_full
            } else {
                true
            }),
            final(self).data == old(self).data,
            final(self).start == old(self).start,
            final(self).end == old(self).end,
            final(self).parked_not_empty == old(self).parked_not_empty,
            final(self).filled == old(self).filled,
            final(self).drained == old(self).drained,
    {
        if self.is_full() {
            self.parked_not_full = true;
            false
        } else {
            true
        }
    }

    /// Appends `chunk` to the readable region by copying it into the
    /// writable region `[end, BUFFER_SIZE)` and advancing `end`.
    ///
    /// Returns whether the "data arrived" waiter fired: it fires, and is
    /// cleared, exactly when it was registered and the buffer is non-empty
    /// afterwards.
    pub fn fill(&mut self, chunk: &[u8]) -> (woke: bool)
        requires
            old(self).wf(),
            chunk@.len() <= old(self).free_len(),
        ensures
            final(self).wf(),
            final(self).contents() =~= old(self).contents() + chunk@,
            final(self).filled@ == old(self).filled@ + chunk@,
            final(self).drained@ == old(self).drained@,
            final(self).start == old(self).start,
            final(self).free_len() == old(self).free_len() - chunk@.len(),
            final(self).parked_not_full == (if final(self).spec_is_full() {
                true
            } else {
                old(self).parked_not_full
            }),
            final(self).parked_not_empty == (if final(self).spec_is_empty() {
                old(self).parked_not_empty
            } else {
                false
            }),
            woke == (old(self).parked_not_empty && !final(self).spec_is_empty()),
    {
        let ghost e0 = self.end as int;
        let n = chunk.len();
        let mut k: usize = 0;
        while k < n
            invariant
                k <= n,
                n == chunk@.len(),
                self.start == old(self).start,
                self.end == old(self).end,
                self.parked_not_empty == old(self).parked_not_empty,
                self.parked_not_full == old(self).parked_not_full,
                self.filled == old(self).filled,
                self.drained == old(self).drained,
                e0 == self.end as int,
                n <= BUFFER_SIZE - e0,
                self.data@.len() == BUFFER_SIZE,
                forall|t: int|
                    0 <= t < BUFFER_SIZE && !(e0 <= t < e0 + k) ==> self.data@[t] == old(self).data@[t],
                forall|t: int| 0 <= t < k ==> self.data@[e0 + t] == chunk@[t],
            decreases n - k,
        {
            self.data[self.end + k] = chunk[k];
            k = k + 1;
        }
        self.end = self.end + n;
        proof {
            self.filled@ = self.filled@ + chunk@;
            assert_seqs_equal!(self.contents() == old(self).contents() + chunk@);
            assert_seqs_equal!(self.filled@ == self.drained@ + self.contents());
        }

        self.poll_not_full();

        if !self.is_empty() {
            let woke = self.parked_not_empty;
            self.parked_not_empty = false;
            woke
        } else {
            false
        }
    }

    /// A copy of the readable region, for the host to offer the destination.
    pub fn readable(&self) -> (r: Vec<u8>)
        requires
            self.wf(),
        ensures
            r@ == self.contents(),
    {
        let mut r: Vec<u8> = Vec::new();
        let mut k: usize = self.start;
        while k < self.end
            invariant
                self.start <= k <= self.end,
                self.wf(),
                r@ =~= self.data@.subrange(self.start as int, k as int),
            decreases self.end - k,
        {
            let byte = self.data[k];
            r.push(byte);
            proof {
                assert_seqs_equal!(r@ == self.data@.subrange(self.start as int, k + 1 as int));
            }
            k = k + 1;
        }
        r
    }

    /// Removes the `n` oldest buffered bytes, which the destination has
    /// accepted. Resets both cursors to 0 once the buffer is fully drained,
    /// reclaiming the whole capacity.
    ///
    /// Returns whether the "space freed" waiter fired: it fires, and is
    /// cleared, exactly when it was registered and the buffer is non-full
    /// afterwards.
    pub fn drain(&mut self, n: usize) -> (woke: bool)
        requires
            old(self).wf(),
            n <= old(self).contents().len(),
        ensures
            final(self).wf(),
            final(self).contents() =~= old(self).contents().skip(n as int),
            final(self).drained@ == old(self).drained@ + old(self).contents().take(n as int),
            final(self).filled@ == old(self).filled@,
            final(self).contents().len() == 0 ==> final(self).free_len() == BUFFER_SIZE,
            final(self).parked_not_empty == (if final(self).spec_is_empty() {
                true
            } else {
                old(self).parked_not_empty
            }),
            final(self).parked_not_full == (if final(self).spec_is_full() {
                old(self).parked_not_full
            } else {
                false
            }),
            woke == (old(self).parked_not_full && !final(self).spec_is_full()),
    {
        self.start = self.start + n;
        proof {
            self.drained@ = self.drained@ + old(self).contents().take(n as int);
        }
        if self.start == self.end {
            self.start = 0;
            self.end = 0;
        }
        proof {
            assert_seqs_equal!(self.contents() == old(self).contents().skip(n as int));
            assert_seqs_equal!(self.filled@ == self.drained@ + self.contents());
        }

        self.poll_not_empty();

        if !self.is_full() {
            let woke = self.parked_not_full;
            self.parked_not_full = false;
            woke
        } else {
            false
        }
    }
}

/// Byte preservation: at every point in a buffer's lifetime, the bytes that
/// left it are exactly the first bytes that entered it, in the same order,
/// and once the buffer is empty everything that entered has left. No byte is
/// duplicated, dropped, or reordered.
pub proof fn lemma_byte_preservation(b: SpliceBuffer)
    requires
        b.wf(),
    ensures
        b.drained@ == b.filled@.take(b.drained@.len() as int),
        b.filled@ == b.drained@ + b.contents(),
        b.contents().len() == 0 ==> b.drained@ == b.filled@,
{
    assert_seqs_equal!(b.drained@ == b.filled@.take(b.drained@.len() as int));
    if b.contents().len() == 0 {
        assert_seqs_equal!(b.drained@ == b.filled@);
    }
}

/// Backpressure bound: a well-formed buffer never holds more than
/// `BUFFER_SIZE` bytes, and what is buffered plus what the writable region
/// can still take never exceeds the capacity — so a fill that respects
/// `free_len` can never displace unread data (`fill` only ever appends).
pub proof fn lemma_backpressure_bound(b: SpliceBuffer)
    requires
        b.wf(),
    ensures
        b.contents().len() <= BUFFER_SIZE,
        b.contents().len() + b.free_len() <= BUFFER_SIZE,
{
}

/// State of a directional pump.
#[derive(Clone, Copy, Debug, PartialEq, Eq, Structural)]
pub enum PumpState {
    /// The source may still produce bytes.
    Streaming,
    /// The source reported end-of-input; the buffer may still hold unflushed
    /// bytes.
    SourceClosed,
    /// The destination's write side has been shut down. Terminal.
    Finished,
}

/// A directional pump: drives one `SpliceBuffer` from a source endpoint to a
/// destination endpoint and owns the end-of-input sequencing for that
/// direction.
///
/// The host scheduler performs the actual non-blocking I/O: it asks
/// `fill_capacity` how much to read and reports the bytes through `filled`;
/// it takes `drain_pending`, writes some prefix of it, and reports the count
/// through `drained`; and it performs the half-close exactly when
/// `take_shutdown` says so. Any transport error aborts the pump: the host
/// simply stops stepping it.
pub struct Splicer {
    pub buf: SpliceBuffer,
    pub state: PumpState,
}

impl Splicer {
    /// Structural invariant: the buffer is well-formed, and a finished pump
    /// holds no undelivered bytes.
    pub open spec fn wf(self) -> bool {
        &&& self.buf.wf()
        &&& self.state is Finished ==> self.buf.contents().len() == 0
    }

    /// Creates a new pump with an empty buffer, ready to stream.
    pub fn new() -> (p: Splicer)
        ensures
            p.wf(),
            p.state is Streaming,
            p.buf.contents() =~= Seq::<u8>::empty(),
            p.buf.filled@ =~= Seq::<u8>::empty(),
            p.buf.drained@ =~= Seq::<u8>::empty(),
            p.buf.free_len() == BUFFER_SIZE,
            !p.buf.parked_not_empty,
            !p.buf.parked_not_full,
    {
        Splicer { buf: SpliceBuffer::new(), state: PumpState::Streaming }
    }

    /// How many bytes the host may read from the source right now: the size
    /// of the buffer's writable region while streaming, and 0 when the
    /// source is closed or the buffer is full (in which case the "space
    /// freed" waiter is registered).
    pub fn fill_capacity(&mut self) -> (n: usize)
        requires
            old(self).wf(),
        ensures
            final(self).wf(),
            n as int == (if old(self).state is Streaming && !old(self).buf.spec_is_full() {
                old(self).buf.free_len()
            } else {
                0
            }),
            final(self).state == old(self).state,
            final(self).buf.contents() == old(self).buf.contents(),
            final(self).buf.filled == old(self).buf.filled,
            final(self).buf.drained == old(self).buf.drained,
            final(self).buf.free_len() == old(self).buf.free_len(),
            final(self).buf.parked_not_empty == old(self).buf.parked_not_empty,
            final(self).buf.parked_not_full == (if old(self).state is Streaming && old(self).buf.spec_is_full() {
                true
            } else {
                old(self).buf.parked_not_full
            }),
    {
        match self.state {
            PumpState::Streaming => {
                if self.buf.poll_not_full() {
                    BUFFER_SIZE - self.buf.end
                } else {
                    0
                }
            },
            _ => 0,
        }
    }

    /// Reports the outcome of a source read. An empty chunk is the source's
    /// permanent end-of-input (not backpressure) and moves the pump to
    /// `SourceClosed`; a non-empty chunk enters the buffer unchanged.
    ///
    /// Returns whether the "data arrived" waiter fired.
    pub fn filled(&mut self, chunk: &[u8]) -> (woke: bool)
        requires
            old(self).wf(),
            old(self).state is Streaming,
            chunk@.len() <= old(self).buf.free_len(),
        ensures
            final(self).wf(),
            chunk@.len() == 0 ==> final(self).state is SourceClosed && final(self).buf == old(self).buf && !woke,
            chunk@.len() > 0 ==> final(self).state is Streaming,
            chunk@.len() > 0 ==> final(self).buf.contents() =~= old(self).buf.contents() + chunk@,
            chunk@.len() > 0 ==> final(self).buf.filled@ == old(self).buf.filled@ + chunk@,
            final(self).buf.drained@ == old(self).buf.drained@,
            chunk@.len() > 0 ==> final(self).buf.free_len() == old(self).buf.free_len()
                - chunk@.len(),
            chunk@.len() > 0 ==> final(self).buf.parked_not_full == (if final(self).buf.spec_is_full() {
                true
            } else {
                old(self).buf.parked_not_full
            }),
            chunk@.len() > 0 ==> final(self).buf.parked_not_empty == (if final(self).buf.spec_is_empty() {
                old(self).buf.parked_not_empty
            } else {
                false
            }),
            chunk@.len() > 0 ==> woke == (old(self).buf.parked_not_empty && !final(self).buf.spec_is_empty()),
    {
        if chunk.len() == 0 {
            self.state = PumpState::SourceClosed;
            false
        } else {
            self.buf.fill(chunk)
        }
    }

    /// The bytes the host should offer the destination: a copy of the
    /// buffer's readable region, or empty when the pump is finished or the
    /// buffer is empty (in which case the "data arrived" waiter is
    /// registered).
    pub fn drain_pending(&mut self) -> (pending: Vec<u8>)
        requires
            old(self).wf(),
        ensures
            final(self).wf(),
            pending@ == (if !(old(self).state is Finished) && !old(self).buf.spec_is_empty() {
                old(self).buf.contents()
            } else {
                Seq::<u8>::empty()
            }),
            final(self).state == old(self).state,
            final(self).buf.contents() == old(self).buf.contents(),
            final(self).buf.filled == old(self).buf.filled,
            final(self).buf.drained == old(self).buf.drained,
            final(self).buf.parked_not_full == old(self).buf.parked_not_full,
            final(self).buf.parked_not_empty == (if !(old(self).state is Finished) && old(self).buf.spec_is_empty() {
                true
            } else {
                old(self).buf.parked_not_empty
            }),
    {
        match self.state {
            PumpState::Finished => Vec::new(),
            _ => {
                if self.buf.poll_not_empty() {
                    self.buf.readable()
                } else {
                    Vec::new()
                }
            },
        }
    }

    /// Reports that the destination accepted the `n` oldest buffered bytes.
    ///
    /// Returns whether the "space freed" waiter fired.
    pub fn drained(&mut self, n: usize) -> (woke: bool)
        requires
            old(self).wf(),
            n <= old(self).buf.contents().len(),
        ensures
            final(self).wf(),
            final(self).state == old(self).state,
            final(self).buf.contents() =~= old(self).buf.contents().skip(n as int),
            final(self).buf.drained@ == old(self).buf.drained@ + old(self).buf.contents().take(
                n as int,
            ),
            final(self).buf.filled@ == old(self).buf.filled@,
            final(self).buf.contents().len() == 0 ==> final(self).buf.free_len() == BUFFER_SIZE,
            final(self).buf.parked_not_empty == (if final(self).buf.spec_is_empty() {
                true
            } else {
                old(self).buf.parked_not_empty
            }),
            final(self).buf.parked_not_full == (if final(self).buf.spec_is_full() {
                old(self).buf.parked_not_full
            } else {
                false
            }),
            woke == (old(self).buf.parked_not_full && !final(self).buf.spec_is_full()),
    {
        self.buf.drain(n)
    }

    /// Asks whether the host must half-close the destination's write side
    /// now. Answers true exactly when the source has reported end-of-input
    /// and the buffer has drained to empty, and moves the pump to
    /// `Finished`; a finished pump never asks again.
    pub fn take_shutdown(&mut self) -> (do_shutdown: bool)
        requires
            old(self).wf(),
        ensures
            final(self).wf(),
            shutdown_step(*old(self), *final(self), do_shutdown),
            do_shutdown ==> final(self).buf.drained@ == final(self).buf.filled@,
    {
        let fire = match self.state {
            PumpState::SourceClosed => self.buf.is_empty(),
            _ => false,
        };
        if fire {
            self.state = PumpState::Finished;
            proof {
                lemma_byte_preservation(self.buf);
            }
        }
        fire
    }

    pub fn is_finished(&self) -> (r: bool)
        ensures
            r == (self.state is Finished),
    {
        self.state == PumpState::Finished
    }
}

/// The transition relation of `take_shutdown`: from pump `s0` it fires
/// exactly when the source has closed and the buffer is empty, and then (and
/// only then) moves the pump to `Finished`; the buffer is untouched.
pub open spec fn shutdown_step(s0: Splicer, s1: Splicer, fired: bool) -> bool {
    &&& fired == (s0.state is SourceClosed && s0.buf.contents().len() == 0)
    &&& s1.state == (if fired {
        PumpState::Finished
    } else {
        s0.state
    })
    &&& s1.buf == s0.buf
}

/// EOF sequencing: once the half-close has fired, the pump is finished, and
/// a second `take_shutdown` step can neither fire again nor change the pump
/// — the destination's write side is half-closed exactly once.
pub proof fn lemma_shutdown_exactly_once(s0: Splicer, s1: Splicer, s2: Splicer, f1: bool, f2: bool)
    requires
        shutdown_step(s0, s1, f1),
        shutdown_step(s1, s2, f2),
        f1,
    ensures
        s1.state is Finished,
        !f2,
        s2.state is Finished,
        s2.buf == s0.buf,
{
}

/// No jammed states: a pump that has not finished can always act — read
/// (while streaming with free space), write (while bytes are buffered), or
/// half-close (once the source has closed and the buffer has drained). A
/// stalled relay can therefore only come from a missed wake or an unready
/// transport, never from the state machine itself.
pub proof fn lemma_pump_never_jams(p: Splicer)
    requires
        p.wf(),
        !(p.state is Finished),
    ensures
        (p.state is Streaming && p.buf.free_len() > 0) || p.buf.contents().len() > 0 || (
        p.state is SourceClosed && p.buf.contents().len() == 0),
{
}

/// A finished pump has delivered every byte it ever received, in order:
/// nothing remains buffered and the drain history equals the fill history.
pub proof fn lemma_finished_pump_delivered(p: Splicer)
    requires
        p.wf(),
        p.state is Finished,
    ensures
        p.buf.contents().len() == 0,
        p.buf.drained@ == p.buf.filled@,
{
    lemma_byte_preservation(p.buf);
}

/// One bidirectional connection relay: two directional pumps over the same
/// two endpoints, one per direction, sharing no state.
///
/// The pair is done only when both pumps have finished; if either direction
/// surfaces a transport error, the host propagates that error and abandons
/// the other pump rather than draining it.
pub struct RelayPair {
    pub a_to_b: Splicer,
    pub b_to_a: Splicer,
}

impl RelayPair {
    pub open spec fn wf(self) -> bool {
        &&& self.a_to_b.wf()
        &&& self.b_to_a.wf()
    }

    /// Creates a relay over two endpoints just handed over by the pairing
    /// collaborator: both directions start streaming with empty buffers.
    pub fn new() -> (pair: RelayPair)
        ensures
            pair.wf(),
            pair.a_to_b.state is Streaming,
            pair.b_to_a.state is Streaming,
            pair.a_to_b.buf.filled@ =~= Seq::<u8>::empty(),
            pair.b_to_a.buf.filled@ =~= Seq::<u8>::empty(),
    {
        RelayPair { a_to_b: Splicer::new(), b_to_a: Splicer::new() }
    }

    /// The pair reports success only once both directions have cleanly
    /// finished.
    pub fn is_done(&self) -> (r: bool)
        ensures
            r == (self.a_to_b.state is Finished && self.b_to_a.state is Finished),
    {
        self.a_to_b.is_finished() && self.b_to_a.is_finished()
    }
}

} // verus!
