//! Moving samples from the first stage to the second.

use crate::model::{lesser, RingView};
use crate::ring::SampleRing;
use crate::sizes::{drain_target, latency_limit};
use vstd::prelude::*;

verus! {

/// The second stage once the latency guard has looked at it: a backlog of more
/// than three buffers is discarded as a whole.
pub open spec fn guarded(device: RingView, buffer_samples: nat) -> RingView {
    if device.queue.len() > latency_limit(buffer_samples) {
        device.clear_backlog()
    } else {
        device
    }
}

/// How many samples a drain moves: what is missing from the second stage up to
/// its target, as far as the first stage has it.
pub open spec fn refill(decode: RingView, device: RingView, buffer_samples: nat) -> nat {
    let queued = guarded(device, buffer_samples).queue.len();
    let target = drain_target(buffer_samples);
    if queued < target {
        lesser((target - queued) as nat, decode.queue.len())
    } else {
        0
    }
}

/// The first stage after a drain.
pub open spec fn drained(decode: RingView, device: RingView, buffer_samples: nat) -> RingView {
    decode.pop(refill(decode, device, buffer_samples))
}

/// The second stage after a drain.
pub open spec fn refilled(decode: RingView, device: RingView, buffer_samples: nat) -> RingView {
    guarded(device, buffer_samples).push(
        decode.queue.take(refill(decode, device, buffer_samples) as int),
        latency_limit(buffer_samples) as u64,
    )
}

/// Discards the backlog of `device` where it is over the latency limit, then
/// moves samples from `decode` to `device`, up to the latter's target.
/// `scratch` carries them over; its former contents go.
pub fn drain_stages(
    decode: &mut SampleRing,
    device: &mut SampleRing,
    buffer_samples: usize,
    scratch: &mut Vec<i16>,
)
    requires
        old(decode).wf(),
        old(device).wf(),
        drain_target(buffer_samples as nat) <= old(device)@.capacity,
        latency_limit(buffer_samples as nat) <= usize::MAX,
    ensures
        final(decode).wf(),
        final(device).wf(),
        final(decode)@ == drained(old(decode)@, old(device)@, buffer_samples as nat),
        final(device)@ == refilled(old(decode)@, old(device)@, buffer_samples as nat),
        final(scratch)@ == old(decode)@.queue.take(
            refill(old(decode)@, old(device)@, buffer_samples as nat) as int,
        ),
{
    let target: usize = buffer_samples * 2;
    let limit: u64 = (buffer_samples * 3) as u64;
    if device.fill() > limit {
        device.clear_backlog();
    }
    let fill: u64 = device.fill();
    let want: usize = if fill < target as u64 {
        target - fill as usize
    } else {
        0
    };
    decode.pop(want, scratch);
    device.push(scratch.as_slice(), limit);
}

} // verus!
