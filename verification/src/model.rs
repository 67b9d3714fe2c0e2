//! The abstract state of a sample ring and what each operation does to it.

use vstd::prelude::*;

verus! {

/// What a ring is to its users: the queued samples, oldest first, beside its
/// fixed sizes, its two flags and its running totals.
#[verifier::ext_equal]
pub struct RingView {
    /// Queued samples, oldest first.
    pub queue: Seq<i16>,
    /// How many samples the ring can hold.
    pub capacity: nat,
    /// How many samples must be queued before playback starts.
    pub prefill: nat,
    /// Playback has been released and has not run the ring empty since.
    pub primed: bool,
    /// An overflow was reported and the ring has not been empty since.
    pub overflow_warned: bool,
    /// Samples handed to `push`.
    pub pushed: u64,
    /// Samples taken by `pull`.
    pub pulled: u64,
    /// Queued samples that were discarded.
    pub dropped: u64,
    /// Pulls that came up short during playback.
    pub underflows: u64,
    /// Backlogs discarded as a whole.
    pub clears: u64,
}

/// A running total after `n` more events. Totals are 64 bits wide and wrap.
pub open spec fn count(total: u64, n: nat) -> u64 {
    ((total + n) % 0x1_0000_0000_0000_0000) as u64
}

/// The newest `limit` samples of `s`, or all of `s` where it has no more.
pub open spec fn newest(s: Seq<i16>, limit: nat) -> Seq<i16> {
    if s.len() <= limit {
        s
    } else {
        s.skip(s.len() - limit)
    }
}

/// The smaller of two sizes.
pub open spec fn lesser(a: nat, b: nat) -> nat {
    if a <= b {
        a
    } else {
        b
    }
}

impl RingView {
    /// A fresh ring: empty, all totals zero, released at once only where no
    /// prefill is asked for.
    pub open spec fn fresh(capacity: nat, prefill: nat) -> RingView {
        RingView {
            queue: Seq::empty(),
            capacity,
            prefill,
            primed: prefill == 0,
            overflow_warned: false,
            pushed: 0,
            pulled: 0,
            dropped: 0,
            underflows: 0,
            clears: 0,
        }
    }

    /// What holds of every ring between operations.
    pub open spec fn valid(self) -> bool {
        // Never more queued than fits.
        &&& self.queue.len() <= self.capacity
        // An overflow stays reported only while something is queued.
        &&& self.overflow_warned ==> self.queue.len() > 0
        // A ring filled up to its prefill is released.
        &&& 0 < self.queue.len() && self.prefill <= self.queue.len() ==> self.primed
    }

    /// The ring waits for its prefill: a pull gets nothing yet.
    pub open spec fn priming(self) -> bool {
        self.capacity > 0 && !self.primed && self.queue.len() < self.prefill
    }

    /// The latency guard fires: more is queued than `clear_threshold` allows.
    pub open spec fn over(self, clear_threshold: u64) -> bool {
        self.queue.len() > clear_threshold
    }

    /// What of the queue a push lets pass the latency guard: everything or
    /// nothing.
    pub open spec fn kept(self, clear_threshold: u64) -> Seq<i16> {
        if self.over(clear_threshold) {
            Seq::empty()
        } else {
            self.queue
        }
    }

    /// How many queued samples a push of `len` new ones discards.
    pub open spec fn lost(self, len: nat, clear_threshold: u64) -> nat {
        if self.over(clear_threshold) || len >= self.capacity {
            self.queue.len()
        } else if self.queue.len() + len > self.capacity {
            (self.queue.len() + len - self.capacity) as nat
        } else {
            0
        }
    }

    /// The overflow flag after a push of `len` samples: set where stale samples
    /// made room for some of the new ones, reset where nothing queued before
    /// remains, as it was otherwise.
    pub open spec fn warned_after_push(self, len: nat, clear_threshold: u64) -> bool {
        if len >= self.capacity || self.over(clear_threshold) {
            false
        } else {
            self.overflow_warned || self.queue.len() + len > self.capacity
        }
    }

    /// The ring after a push: what passed the guard followed by the new
    /// samples, cut to the newest that fit.
    pub open spec fn push(self, data: Seq<i16>, clear_threshold: u64) -> RingView {
        if data.len() == 0 {
            self
        } else if self.capacity == 0 {
            RingView { pushed: count(self.pushed, data.len()), ..self }
        } else {
            let queue = newest(self.kept(clear_threshold) + data, self.capacity);
            RingView {
                queue,
                primed: queue.len() >= self.prefill || (self.primed && !self.over(clear_threshold)),
                overflow_warned: self.warned_after_push(data.len(), clear_threshold),
                pushed: count(self.pushed, data.len()),
                dropped: count(self.dropped, self.lost(data.len(), clear_threshold)),
                clears: count(self.clears, if self.over(clear_threshold) { 1 } else { 0 }),
                ..self
            }
        }
    }

    /// How many samples a pull of `want` gets.
    pub open spec fn playable(self, want: nat) -> nat {
        if self.priming() {
            0
        } else {
            lesser(want, self.queue.len())
        }
    }

    /// The ring after a pull of `want` samples. Playing the ring empty starts a
    /// new prime phase; coming up short is an underflow unless the ring was
    /// priming.
    pub open spec fn pull(self, want: nat) -> RingView {
        let queue = self.queue.skip(self.playable(want) as int);
        let played_empty = self.capacity > 0 && !self.priming() && queue.len() == 0;
        let short = self.playable(want) < want && !self.priming();
        RingView {
            queue,
            primed: self.primed && !played_empty,
            overflow_warned: self.overflow_warned && !played_empty,
            pulled: count(self.pulled, self.playable(want)),
            underflows: count(self.underflows, if short { 1 } else { 0 }),
            ..self
        }
    }

    /// How many samples a pop of at most `max` gets.
    pub open spec fn poppable(self, max: nat) -> nat {
        lesser(max, self.queue.len())
    }

    /// The ring after a pop of at most `max` samples.
    pub open spec fn pop(self, max: nat) -> RingView {
        let queue = self.queue.skip(self.poppable(max) as int);
        RingView { queue, overflow_warned: self.overflow_warned && queue.len() > 0, ..self }
    }

    /// The ring after its backlog was discarded.
    pub open spec fn clear_backlog(self) -> RingView {
        RingView {
            queue: Seq::empty(),
            primed: false,
            overflow_warned: false,
            dropped: count(self.dropped, self.queue.len()),
            clears: count(self.clears, 1),
            ..self
        }
    }
}

} // verus!
