//! A fixed ring of interleaved 16-bit samples that drops its oldest samples on
//! overflow.

use crate::model::{count, newest, RingView};
use vstd::prelude::*;

verus! {

/// Where the `i`-th queued sample of a ring of `capacity` slots stands, the
/// oldest standing at `read`.
pub open spec fn slot(read: int, i: int, capacity: int) -> int {
    if read + i < capacity {
        read + i
    } else {
        read + i - capacity
    }
}

/// The `fill` samples of `buf` from `read` on, in the order in which they were
/// queued.
pub open spec fn unrolled(buf: Seq<i16>, read: int, fill: nat) -> Seq<i16> {
    Seq::new(fill, |i: int| buf[slot(read, i, buf.len() as int)])
}

/// A position less than two rounds ahead, brought back into the ring.
fn wrap(pos: usize, capacity: usize) -> (r: usize)
    requires
        pos < 2 * capacity,
    ensures
        r == slot(pos as int, 0, capacity as int),
{
    proof {
        if pos < capacity {
            vstd::arithmetic::div_mod::lemma_small_mod(pos as nat, capacity as nat);
        } else {
            vstd::arithmetic::div_mod::lemma_mod_sub_multiples_vanish(pos as int, capacity as int);
            vstd::arithmetic::div_mod::lemma_small_mod(
                (pos - capacity) as nat,
                capacity as nat,
            );
        }
    }
    pos % capacity
}

/// Adds `n` to a running total, wrapping at 64 bits.
fn counted(total: u64, n: usize) -> (r: u64)
    ensures
        r == count(total, n as nat),
{
    total.wrapping_add(n as u64)
}

/// The ring. Samples are pushed at one end and leave at the other; an overflow
/// discards the oldest samples and is reported once until the ring has been
/// empty. Playback starts when the prefill is reached and waits for it again
/// each time the ring was played empty.
pub struct SampleRing {
    buf: Vec<i16>,
    read: usize,
    write: usize,
    fill: usize,
    overflow_warned: bool,
    primed: bool,
    prefill: usize,
    pushed: u64,
    pulled: u64,
    dropped: u64,
    underflows: u64,
    clears: u64,
}

impl View for SampleRing {
    type V = RingView;

    closed spec fn view(&self) -> RingView {
        RingView {
            queue: unrolled(self.buf@, self.read as int, self.fill as nat),
            capacity: self.buf@.len(),
            prefill: self.prefill as nat,
            primed: self.primed,
            overflow_warned: self.overflow_warned,
            pushed: self.pushed,
            pulled: self.pulled,
            dropped: self.dropped,
            underflows: self.underflows,
            clears: self.clears,
        }
    }
}

impl SampleRing {
    /// The positions fit the buffer, and the buffer fits in memory.
    spec fn placed(self) -> bool {
        &&& self.buf@.len() * 2 <= isize::MAX
        &&& self.fill <= self.buf@.len()
        &&& self.read < self.buf@.len() || (self.read == 0 && self.buf@.len() == 0)
        &&& self.write == slot(self.read as int, self.fill as int, self.buf@.len() as int)
    }

    /// The ring's invariant.
    pub closed spec fn wf(self) -> bool {
        &&& self.placed()
        &&& self@.valid()
    }

    /// An empty ring of `capacity_samples` slots that releases playback once
    /// `prefill` samples are queued (0: at once).
    pub fn new(capacity_samples: usize, prefill: usize) -> (ring: SampleRing)
        requires
            capacity_samples * 2 <= isize::MAX,
        ensures
            ring.wf(),
            ring@ == RingView::fresh(capacity_samples as nat, prefill as nat),
    {
        SampleRing {
            buf: vec![0i16; capacity_samples],
            read: 0,
            write: 0,
            fill: 0,
            overflow_warned: false,
            primed: prefill == 0,
            prefill,
            pushed: 0,
            pulled: 0,
            dropped: 0,
            underflows: 0,
            clears: 0,
        }
    }

    /// What the invariant says of the queue, the flags and the sizes.
    pub proof fn wf_is_valid(self)
        requires
            self.wf(),
        ensures
            self@.valid(),
            self@.capacity * 2 <= isize::MAX,
            self@.prefill <= usize::MAX,
    {
    }

    /// How many samples are queued.
    pub fn fill(&self) -> (r: u64)
        ensures
            r == self@.queue.len(),
    {
        self.fill as u64
    }

    /// Discards the `n` oldest samples.
    fn skip(&mut self, n: usize)
        requires
            old(self).placed(),
            n <= old(self)@.queue.len(),
        ensures
            final(self).placed(),
            final(self)@ == (RingView { queue: old(self)@.queue.skip(n as int), ..old(self)@ }),
    {
        if n == 0 {
            assert(self@.queue.skip(0) =~= self@.queue);
            return;
        }
        self.read = wrap(self.read + n, self.buf.len());
        self.fill = self.fill - n;
        assert(self@.queue =~= old(self)@.queue.skip(n as int));
    }

    /// Appends `data`, which fits.
    fn append(&mut self, data: &[i16])
        requires
            old(self).placed(),
            old(self)@.queue.len() + data@.len() <= old(self)@.capacity,
        ensures
            final(self).placed(),
            final(self)@ == (RingView { queue: old(self)@.queue + data@, ..old(self)@ }),
    {
        let capacity: usize = self.buf.len();
        if capacity == 0 {
            assert(self@.queue + data@ =~= self@.queue);
            return;
        }
        let mut i: usize = 0;
        let ghost read = self.read as int;
        let ghost fill = self.fill as int;
        let ghost joined = self@.queue + data@;
        while i < data.len()
            invariant
                0 <= i <= data@.len(),
                capacity > 0,
                0 <= read < capacity,
                0 <= fill,
                fill + data@.len() <= capacity,
                capacity * 2 <= isize::MAX,
                joined.len() == fill + data@.len(),
                forall|k: int| 0 <= k < data@.len() ==> joined[fill + k] == #[trigger] data@[k],
                forall|j: int|
                    0 <= j < fill + i ==> self.buf@[#[trigger] slot(read, j, capacity as int)]
                        == joined[j],
                self.write == slot(read, fill + i, capacity as int),
                self.read == read,
                self.fill == fill,
                self.buf@.len() == capacity,
                self.overflow_warned == old(self).overflow_warned,
                self.primed == old(self).primed,
                self.prefill == old(self).prefill,
                self.pushed == old(self).pushed,
                self.pulled == old(self).pulled,
                self.dropped == old(self).dropped,
                self.underflows == old(self).underflows,
                self.clears == old(self).clears,
            decreases data@.len() - i,
        {
            let ghost before = self.buf@;
            assert(joined[fill + i] == data@[i as int]);
            self.buf[self.write] = data[i];
            assert forall|j: int| 0 <= j < fill + i + 1 implies self.buf@[#[trigger] slot(
                read,
                j,
                capacity as int,
            )] == joined[j] by {
                if j < fill + i {
                    assert(before[slot(read, j, capacity as int)] == joined[j]);
                }
            }
            self.write = wrap(self.write + 1, capacity);
            i = i + 1;
        }
        self.fill = self.fill + data.len();
        assert(self@.queue =~= joined);
    }

    /// Queues `data`. Where more than `clear_threshold` samples are queued, they
    /// are discarded first; where the rest and `data` do not fit together, the
    /// oldest go; of more than the ring can hold, only the end stays.
    #[verifier::spinoff_prover]
    #[verifier::rlimit(40)]
    pub fn push(&mut self, data: &[i16], clear_threshold: u64)
        requires
            old(self).wf(),
        ensures
            final(self).wf(),
            final(self)@ == old(self)@.push(data@, clear_threshold),
    {
        if data.is_empty() {
            return;
        }
        self.pushed = counted(self.pushed, data.len());
        let capacity: usize = self.buf.len();
        if capacity == 0 {
            assert(self@ =~= old(self)@.push(data@, clear_threshold));
            return;
        }
        let over: bool = self.fill as u64 > clear_threshold;
        let lost: usize = if over || data.len() >= capacity {
            self.fill
        } else if data.len() > capacity - self.fill {
            data.len() - (capacity - self.fill)
        } else {
            0
        };
        self.dropped = counted(self.dropped, lost);
        self.clears = counted(self.clears, if over { 1 } else { 0 });
        let ghost kept = old(self)@.kept(clear_threshold);
        if over {
            self.overflow_warned = false;
            self.primed = false;
        }
        self.skip(lost);
        if data.len() >= capacity {
            self.overflow_warned = false;
            self.append(&data[data.len() - capacity..data.len()]);
            assert(self@.queue =~= newest(kept + data@, capacity as nat));
        } else {
            if !over && lost > 0 {
                self.overflow_warned = true;
            }
            self.append(data);
            assert(self@.queue =~= newest(kept + data@, capacity as nat));
        }
        let ghost goal = old(self)@.push(data@, clear_threshold);
        assert(self@.queue == goal.queue);
        assert(self@.overflow_warned == goal.overflow_warned);
        assert(self@.primed == (old(self)@.primed && !over));
        if self.fill >= self.prefill {
            self.primed = true;
        }
        assert(self@ == goal);
    }

    /// The `i`-th queued sample, counted from the oldest.
    fn sample(&self, i: usize) -> (r: i16)
        requires
            self.placed(),
            i < self@.queue.len(),
        ensures
            r == self@.queue[i as int],
    {
        self.buf[wrap(self.read + i, self.buf.len())]
    }

    /// Takes up to `out.len()` samples for playback, into the front of `out`,
    /// and returns how many; the rest of `out` stays as it was. While the ring
    /// waits for its prefill, none are taken.
    pub fn pull(&mut self, out: &mut [i16]) -> (done: usize)
        requires
            old(self).wf(),
        ensures
            final(self).wf(),
            final(self)@ == old(self)@.pull(old(out)@.len()),
            done == old(self)@.playable(old(out)@.len()),
            final(out)@ == old(self)@.queue.take(done as int) + old(out)@.skip(done as int),
    {
        let want: usize = out.len();
        let capacity: usize = self.buf.len();
        let priming: bool = capacity > 0 && !self.primed && self.fill < self.prefill;
        let done: usize = if priming {
            0
        } else if want <= self.fill {
            want
        } else {
            self.fill
        };
        let mut i: usize = 0;
        while i < done
            invariant
                0 <= i <= done,
                done <= self@.queue.len(),
                done <= old(out)@.len(),
                self.placed(),
                *self == *old(self),
                out@ =~= self@.queue.take(i as int) + old(out)@.skip(i as int),
            decreases done - i,
        {
            out[i] = self.sample(i);
            i = i + 1;
        }
        self.skip(done);
        if capacity > 0 && !priming && self.fill == 0 {
            self.primed = false;
            self.overflow_warned = false;
        }
        self.underflows = counted(self.underflows, if done < want && !priming { 1 } else { 0 });
        self.pulled = counted(self.pulled, done);
        assert(self@ =~= old(self)@.pull(old(out)@.len()));
        done
    }

    /// Moves up to `max` samples into `out`, whose former contents go, and
    /// returns how many. Prefill and underflows play no part.
    pub fn pop(&mut self, max: usize, out: &mut Vec<i16>) -> (want: usize)
        requires
            old(self).wf(),
        ensures
            final(self).wf(),
            final(self)@ == old(self)@.pop(max as nat),
            want == old(self)@.poppable(max as nat),
            final(out)@ == old(self)@.queue.take(want as int),
    {
        out.clear();
        let want: usize = if max <= self.fill {
            max
        } else {
            self.fill
        };
        let mut i: usize = 0;
        while i < want
            invariant
                0 <= i <= want,
                want <= self@.queue.len(),
                self.placed(),
                *self == *old(self),
                out@ =~= self@.queue.take(i as int),
            decreases want - i,
        {
            out.push(self.sample(i));
            i = i + 1;
        }
        self.skip(want);
        if self.fill == 0 {
            self.overflow_warned = false;
        }
        assert(self@ =~= old(self)@.pop(max as nat));
        want
    }

    /// Discards the whole backlog and starts a new prime phase.
    pub fn clear_backlog(&mut self)
        requires
            old(self).wf(),
        ensures
            final(self).wf(),
            final(self)@ == old(self)@.clear_backlog(),
    {
        self.dropped = counted(self.dropped, self.fill);
        self.skip(self.fill);
        self.overflow_warned = false;
        self.primed = false;
        self.clears = counted(self.clears, 1);
        assert(self@ =~= old(self)@.clear_backlog());
    }

    /// Whether an overflow was reported and the ring has not been empty since.
    pub fn overflow_warned(&self) -> (r: bool)
        ensures
            r == self@.overflow_warned,
    {
        self.overflow_warned
    }

    /// Samples handed to `push`, in total.
    pub fn pushed(&self) -> (r: u64)
        ensures
            r == self@.pushed,
    {
        self.pushed
    }

    /// Samples taken by `pull`, in total.
    pub fn pulled(&self) -> (r: u64)
        ensures
            r == self@.pulled,
    {
        self.pulled
    }

    /// Queued samples that an overflow or a clear discarded, in total.
    pub fn dropped(&self) -> (r: u64)
        ensures
            r == self@.dropped,
    {
        self.dropped
    }

    /// Pulls that came up short during playback, in total.
    pub fn underflows(&self) -> (r: u64)
        ensures
            r == self@.underflows,
    {
        self.underflows
    }

    /// Backlogs discarded for their latency, in total.
    pub fn clears(&self) -> (r: u64)
        ensures
            r == self@.clears,
    {
        self.clears
    }
}

} // verus!
