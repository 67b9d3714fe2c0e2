//! What each operation is for, stated of the fields that its user sees.

use crate::callback::{max_frames, CallbackPlan};
use crate::drain::{drained, refilled};
use crate::model::RingView;
use crate::output::OutputView;
use crate::sizes::{
    drain_target, effective_size, latency_limit, ring_capacity, ring_fits, samples_per_buffer,
};
use crate::volume::{all_scaled, scalable, scaled};
use vstd::prelude::*;

verus! {

/// `now` is `before` with `n` more events counted; totals wrap at 64 bits.
pub open spec fn counted_on(before: u64, now: u64, n: int) -> bool {
    (now - before - n) % 0x1_0000_0000_0000_0000 == 0
}

/// A push touches neither the sizes of a ring nor what was counted of its pulls,
/// and a push of nothing touches nothing.
pub proof fn law_push_leaves_the_rest(ring: RingView, data: Seq<i16>, clear_threshold: u64)
    ensures
        ({
            let now = ring.push(data, clear_threshold);
            &&& now.capacity == ring.capacity
            &&& now.prefill == ring.prefill
            &&& now.pulled == ring.pulled
            &&& now.underflows == ring.underflows
            &&& counted_on(ring.pushed, now.pushed, data.len() as int)
            &&& data.len() == 0 ==> now == ring
            &&& ring.capacity == 0 ==> now == (RingView { pushed: now.pushed, ..ring })
        }),
{
}

/// What a push leaves is the end of what there was and what came: of the new
/// samples alone where the backlog was over the threshold, and of the old ones
/// followed by the new ones otherwise. It is all of that, or as much as fits.
pub proof fn law_push_keeps_the_end(ring: RingView, data: Seq<i16>, clear_threshold: u64)
    requires
        ring.queue.len() <= ring.capacity,
        0 < data.len(),
    ensures
        ({
            let all = if ring.queue.len() > clear_threshold {
                data
            } else {
                ring.queue + data
            };
            let queue = ring.push(data, clear_threshold).queue;
            &&& queue.len() <= ring.capacity
            &&& queue.len() <= all.len()
            &&& queue.len() == ring.capacity || queue.len() == all.len()
            &&& queue == all.skip(all.len() - queue.len())
        }),
{
    let all = if ring.queue.len() > clear_threshold {
        data
    } else {
        ring.queue + data
    };
    let queue = ring.push(data, clear_threshold).queue;
    assert(queue =~= all.skip(all.len() - queue.len()));
}

/// A push counts as dropped what was queued and is no longer: all of it where
/// the backlog was over the threshold or the new samples take up the whole ring,
/// and as many as had to make room otherwise. A backlog over the threshold is
/// counted as one clear, and nothing else is.
pub proof fn law_push_counts_what_it_drops(ring: RingView, data: Seq<i16>, clear_threshold: u64)
    requires
        ring.queue.len() <= ring.capacity,
        0 < data.len(),
        0 < ring.capacity,
    ensures
        ({
            let now = ring.push(data, clear_threshold);
            let old_len = ring.queue.len();
            &&& old_len > clear_threshold ==> counted_on(ring.dropped, now.dropped, old_len as int)
            &&& old_len > clear_threshold ==> counted_on(ring.clears, now.clears, 1)
            &&& old_len <= clear_threshold ==> now.clears == ring.clears
            &&& data.len() >= ring.capacity ==> counted_on(
                ring.dropped,
                now.dropped,
                old_len as int,
            )
            &&& old_len <= clear_threshold && data.len() <= ring.capacity ==> counted_on(
                ring.dropped,
                now.dropped,
                old_len + data.len() - now.queue.len(),
            )
        }),
{
}

/// Playback is released by a push exactly where the prefill is then queued: a
/// ring that waits goes on waiting below it, and one that plays goes on playing
/// unless its backlog was over the threshold.
pub proof fn law_push_releases_at_the_prefill(ring: RingView, data: Seq<i16>, clear_threshold: u64)
    requires
        0 < data.len(),
        0 < ring.capacity,
    ensures
        ({
            let now = ring.push(data, clear_threshold);
            &&& now.queue.len() >= ring.prefill ==> now.primed
            &&& now.queue.len() < ring.prefill && !ring.primed ==> !now.primed
            &&& now.queue.len() < ring.prefill && ring.queue.len() > clear_threshold
                ==> !now.primed
            &&& ring.primed && ring.queue.len() <= clear_threshold ==> now.primed
        }),
{
}

/// Priming, seen from two pushes or pulls: a ring that waits and holds less than
/// its prefill after a push gives nothing to a pull; one that does not wait does
/// not wait after a push that finds its backlog within the threshold.
pub proof fn law_priming_is_held_until_the_prefill(
    ring: RingView,
    data: Seq<i16>,
    clear_threshold: u64,
    want: nat,
)
    requires
        ring.queue.len() <= ring.capacity,
        0 < data.len(),
    ensures
        ring.priming() && ring.push(data, clear_threshold).queue.len() < ring.prefill ==> {
            &&& ring.push(data, clear_threshold).priming()
            &&& ring.push(data, clear_threshold).playable(want) == 0
            &&& ring.push(data, clear_threshold).pull(want) == ring.push(data, clear_threshold)
        },
        !ring.priming() && !ring.over(clear_threshold) ==> !ring.push(
            data,
            clear_threshold,
        ).priming(),
        ring.priming() <==> 0 < ring.capacity && !ring.primed && ring.queue.len() < ring.prefill,
        ring.over(clear_threshold) <==> ring.queue.len() > clear_threshold,
{
    let now = ring.push(data, clear_threshold);
    if now.priming() {
        assert(now.queue.skip(0) =~= now.queue);
    }
}

/// An overflow is reported where some but not all of the old samples had to make
/// room; a push that leaves nothing of what was queued, or replaces the whole
/// ring, takes the report back; any other push leaves it as it was.
pub proof fn law_push_reports_overflow(ring: RingView, data: Seq<i16>, clear_threshold: u64)
    requires
        ring.queue.len() <= ring.capacity,
        0 < data.len(),
        0 < ring.capacity,
    ensures
        ({
            let now = ring.push(data, clear_threshold);
            let within = ring.queue.len() <= clear_threshold && data.len() < ring.capacity;
            &&& !within ==> !now.overflow_warned
            &&& within && ring.queue.len() + data.len() > ring.capacity ==> now.overflow_warned
            &&& within && ring.queue.len() + data.len() <= ring.capacity ==> now.overflow_warned
                == ring.overflow_warned
        }),
{
}

/// A pull takes nothing and changes nothing while the ring waits. Otherwise it
/// takes from the front until it has enough or the ring is empty; it counts what
/// it took, and one underflow where that was too little. Running the ring empty
/// starts the wait anew and takes back the report of an overflow; nothing else
/// does.
pub proof fn law_pull(ring: RingView, want: nat)
    requires
        ring.queue.len() <= ring.capacity,
    ensures
        ({
            let now = ring.pull(want);
            let taken = ring.queue.len() - now.queue.len();
            let waits = 0 < ring.capacity && !ring.primed && ring.queue.len() < ring.prefill;
            &&& ring.playable(want) == taken
            &&& 0 <= taken <= want
            &&& waits ==> now == ring
            &&& !waits ==> taken == want || now.queue.len() == 0
            &&& now.queue == ring.queue.skip(taken)
            &&& counted_on(ring.pulled, now.pulled, taken)
            &&& !waits && taken < want ==> counted_on(ring.underflows, now.underflows, 1)
            &&& waits || taken == want ==> now.underflows == ring.underflows
            &&& now.queue.len() > 0 ==> now.primed == ring.primed && now.overflow_warned
                == ring.overflow_warned
            &&& !waits && 0 < ring.capacity && now.queue.len() == 0 ==> !now.primed
                && !now.overflow_warned
            &&& ring.capacity == 0 ==> now.primed == ring.primed && now.overflow_warned
                == ring.overflow_warned
            &&& now == (RingView {
                queue: now.queue,
                primed: now.primed,
                overflow_warned: now.overflow_warned,
                pulled: now.pulled,
                underflows: now.underflows,
                ..ring
            })
        }),
{
    let now = ring.pull(want);
    assert(ring.queue.skip(0) =~= ring.queue);
    assert(now.queue =~= ring.queue.skip(ring.queue.len() - now.queue.len()));
}

/// A pop takes from the front until it has enough or the ring is empty, whether
/// the ring waits or not. It counts nothing and leaves the wait alone; running
/// the ring empty takes back the report of an overflow.
pub proof fn law_pop(ring: RingView, max: nat)
    ensures
        ({
            let now = ring.pop(max);
            let taken = ring.queue.len() - now.queue.len();
            &&& ring.poppable(max) == taken
            &&& 0 <= taken <= max
            &&& taken == max || now.queue.len() == 0
            &&& now.queue == ring.queue.skip(taken)
            &&& now.queue.len() > 0 ==> now.overflow_warned == ring.overflow_warned
            &&& now.queue.len() == 0 ==> !now.overflow_warned
            &&& now == (RingView {
                queue: now.queue,
                overflow_warned: now.overflow_warned,
                ..ring
            })
        }),
{
    let now = ring.pop(max);
    assert(now.queue =~= ring.queue.skip(ring.queue.len() - now.queue.len()));
}

/// Discarding the backlog empties the ring, counts what was in it as dropped and
/// itself as one clear, takes back the report of an overflow and starts the wait
/// for the prefill anew. Nothing else changes.
pub proof fn law_clear_backlog(ring: RingView)
    ensures
        ({
            let now = ring.clear_backlog();
            &&& now.queue.len() == 0
            &&& !now.primed
            &&& !now.overflow_warned
            &&& counted_on(ring.dropped, now.dropped, ring.queue.len() as int)
            &&& counted_on(ring.clears, now.clears, 1)
            &&& now == (RingView {
                queue: now.queue,
                primed: false,
                overflow_warned: false,
                dropped: now.dropped,
                clears: now.clears,
                ..ring
            })
        }),
{
}

/// A new ring has the sizes that were asked for, holds nothing, has counted and
/// reported nothing, and waits exactly where a prefill is asked for.
pub proof fn law_fresh_ring(capacity: nat, prefill: nat)
    ensures
        ({
            let ring = RingView::fresh(capacity, prefill);
            &&& ring.capacity == capacity
            &&& ring.prefill == prefill
            &&& ring.queue.len() == 0
            &&& ring.primed <==> prefill == 0
            &&& !ring.overflow_warned
            &&& ring.pushed == 0 && ring.pulled == 0 && ring.dropped == 0
            &&& ring.underflows == 0 && ring.clears == 0
        }),
{
}

/// Every configured size but 0 is in force as it is, and 0 stands for 9600 bytes.
/// A buffer holds a sample for every two bytes; the rings hold eight buffers, are
/// filled up to two and are guarded at three. No size is out of reach of a
/// machine that can address some gigabytes.
pub proof fn law_sizes(buffer_size: u32)
    ensures
        ({
            let bytes: int = if buffer_size == 0 {
                9600
            } else {
                buffer_size as int
            };
            let samples = samples_per_buffer(buffer_size);
            &&& effective_size(buffer_size) == bytes
            &&& samples * 2 <= bytes < samples * 2 + 2
            &&& ring_capacity(samples) == samples * 8
            &&& drain_target(samples) == samples * 2
            &&& latency_limit(samples) == samples * 3
            &&& bytes * 8 <= isize::MAX ==> ring_fits(buffer_size)
        }),
{
}

/// A configured size of whole samples is met to the byte: the rings hold eight,
/// are filled up to two and are guarded at three times as many bytes. Twice the
/// size makes everything twice as large.
pub proof fn law_sizes_follow_the_setting(buffer_size: u32)
    requires
        0 < buffer_size,
        buffer_size % 2 == 0,
    ensures
        ring_capacity(samples_per_buffer(buffer_size)) * 2 == 8 * buffer_size,
        drain_target(samples_per_buffer(buffer_size)) * 2 == 2 * buffer_size,
        latency_limit(samples_per_buffer(buffer_size)) * 2 == 3 * buffer_size,
        2 * buffer_size <= u32::MAX ==> samples_per_buffer((2 * buffer_size) as u32) == 2
            * samples_per_buffer(buffer_size),
{
}

/// Nothing but the two stages and the volume of an output ever changes; an
/// arrival and a drain leave the volume alone as well as a callback does, and
/// setting the volume leaves both stages alone.
pub proof fn law_operations_keep_to_their_part(
    output: OutputView,
    samples: Seq<i16>,
    len: nat,
    volume128: u32,
)
    ensures
        output.push(samples) == (OutputView { decode: output.push(samples).decode, ..output }),
        output.drain() == (OutputView {
            decode: output.drain().decode,
            device: output.drain().device,
            ..output
        }),
        output.render(len) == (OutputView { device: output.render(len).device, ..output }),
        output.set_volume(volume128) == (OutputView {
            volume128: output.set_volume(volume128).volume128,
            ..output
        }),
        output.push(samples).volume128 == output.volume128,
        output.drain().volume128 == output.volume128,
        output.render(len).volume128 == output.volume128,
{
}

/// A volume on the scale is in force once it is set, and a larger one counts as
/// full volume; what was set before does not matter.
pub proof fn law_volume_is_the_one_set(output: OutputView, earlier: u32, volume128: u32)
    ensures
        volume128 <= 128 ==> output.set_volume(volume128).volume128 == volume128,
        volume128 > 128 ==> output.set_volume(volume128).volume128 == 128,
        output.set_volume(earlier).set_volume(volume128) == output.set_volume(volume128),
{
}

/// Samples that arrive go to the first stage, without a latency guard, unless
/// the volume is 0.
pub proof fn law_arrival(output: OutputView, samples: Seq<i16>)
    ensures
        output.volume128 == 0 ==> output.push(samples) == output,
        output.volume128 > 0 ==> output.push(samples).decode == output.decode.push(
            samples,
            u64::MAX,
        ),
{
}

/// A drain into a second stage within three buffers moves samples from one stage
/// to the other until the second holds two buffers or the first is empty, and
/// none where the second holds that many already.
pub proof fn law_drain_of_stages_in_time(decode: RingView, device: RingView, buffer_samples: nat)
    requires
        device.queue.len() <= device.capacity,
        2 * buffer_samples <= device.capacity <= u64::MAX,
        device.queue.len() <= 3 * buffer_samples <= u64::MAX,
    ensures
        ({
            let first = drained(decode, device, buffer_samples);
            let second = refilled(decode, device, buffer_samples);
            let moved = decode.queue.len() - first.queue.len();
            &&& 0 <= moved
            &&& second.queue.len() == device.queue.len() + moved
            &&& moved > 0 ==> second.queue.len() <= 2 * buffer_samples
            &&& second.queue.len() >= 2 * buffer_samples || first.queue.len() == 0
            &&& first == decode.pop(moved as nat)
            &&& second == device.push(decode.queue.take(moved), u64::MAX)
        }),
{
    let second = refilled(decode, device, buffer_samples);
    let moved = decode.queue.len() - drained(decode, device, buffer_samples).queue.len();
    assert(second =~= device.push(decode.queue.take(moved), u64::MAX));
}

/// A drain into a second stage that holds more than three buffers discards what
/// it holds and then does what it does to an empty one.
pub proof fn law_drain_of_stages_too_late(decode: RingView, device: RingView, buffer_samples: nat)
    requires
        device.queue.len() > 3 * buffer_samples,
    ensures
        drained(decode, device, buffer_samples) == drained(
            decode,
            device.clear_backlog(),
            buffer_samples,
        ),
        refilled(decode, device, buffer_samples) == refilled(
            decode,
            device.clear_backlog(),
            buffer_samples,
        ),
{
}

/// A drain of an output within three buffers moves samples from one stage to the
/// other until the second holds two buffers or the first is empty.
pub proof fn law_drain_in_time(output: OutputView)
    requires
        output.device.queue.len() <= output.device.capacity,
        2 * output.buffer_samples <= output.device.capacity <= u64::MAX,
        output.device.queue.len() <= 3 * output.buffer_samples <= u64::MAX,
    ensures
        ({
            let now = output.drain();
            let moved = output.decode.queue.len() - now.decode.queue.len();
            &&& 0 <= moved
            &&& now.device.queue.len() == output.device.queue.len() + moved
            &&& moved > 0 ==> now.device.queue.len() <= 2 * output.buffer_samples
            &&& now.device.queue.len() >= 2 * output.buffer_samples || now.decode.queue.len() == 0
            &&& now.decode == output.decode.pop(moved as nat)
            &&& now.device == output.device.push(output.decode.queue.take(moved), u64::MAX)
        }),
{
    law_drain_of_stages_in_time(output.decode, output.device, output.buffer_samples);
}

/// A drain of an output whose second stage holds more than three buffers discards
/// what that stage holds and then does what it does to an empty one.
pub proof fn law_drain_of_a_late_backlog(output: OutputView)
    requires
        output.device.queue.len() > 3 * output.buffer_samples,
    ensures
        output.drain() == (OutputView { device: output.device.clear_backlog(), ..output }).drain(),
{
    law_drain_of_stages_too_late(output.decode, output.device, output.buffer_samples);
}

/// A callback takes from the second stage what a pull of as many samples takes,
/// plays exactly that, in order and at the volume in force, and plays silence
/// for the rest.
pub proof fn law_callback_plays_what_it_takes(output: OutputView, len: nat)
    requires
        output.device.queue.len() <= output.device.capacity,
        output.volume128 <= 128,
    ensures
        output.render(len).device == output.device.pull(len),
        output.sound(len).len() == len,
        ({
            let taken = output.device.queue.len() - output.render(len).device.queue.len();
            &&& 0 <= taken <= len
            &&& forall|i: int|
                0 <= i < taken ==> #[trigger] output.sound(len)[i] == scaled(
                    output.device.queue[i],
                    output.volume128 as int,
                )
            &&& forall|i: int| taken <= i < len ==> #[trigger] output.sound(len)[i] == 0
        }),
{
    law_pull(output.device, len);
    law_scaled_on_the_scale(0, output.volume128 as int);
    let taken = output.device.queue.len() - output.render(len).device.queue.len();
    assert(taken == output.device.playable(len));
}

/// On the scale, a sample at a volume has the sign of the sample, and 128 times
/// its size falls short of the size of the sample times the volume by less than
/// 128.
pub proof fn law_scaled_on_the_scale(sample: i16, volume128: int)
    requires
        0 <= volume128 <= 128,
    ensures
        sample >= 0 ==> 0 <= scaled(sample, volume128) && 128 * scaled(sample, volume128) <= sample
            * volume128 < 128 * scaled(sample, volume128) + 128,
        sample <= 0 ==> scaled(sample, volume128) <= 0 && 128 * scaled(sample, volume128) - 128
            < sample * volume128 <= 128 * scaled(sample, volume128),
{
    let s: int = sample as int;
    if s >= 0 {
        assert(0 <= s * volume128 <= s * 128) by (nonlinear_arith)
            requires
                s >= 0,
                0 <= volume128 <= 128,
        ;
    } else {
        assert(s * 128 <= s * volume128 <= 0) by (nonlinear_arith)
            requires
                s < 0,
                0 <= volume128 <= 128,
        ;
    }
}

/// Off the scale the quotient is rounded toward zero just so, and its lower 16
/// bits are what remains of it.
pub proof fn law_scaled_off_the_scale(sample: i16, volume128: int, quotient: int)
    requires
        volume128 != 128,
        i32::MIN <= sample * volume128 <= i32::MAX,
        sample * volume128 >= 0 ==> 128 * quotient <= sample * volume128 < 128 * quotient + 128,
        sample * volume128 < 0 ==> 128 * quotient - 128 < sample * volume128 <= 128 * quotient,
    ensures
        (scaled(sample, volume128) - quotient) % 0x1_0000 == 0,
{
    let q: i32 = quotient as i32;
    assert(((#[verifier::truncate] (q as i16)) - q) % 0x1_0000 == 0) by (bit_vector);
}

/// Scaling treats each sample by itself and in its place; volumes within 16 bits
/// suit all samples, and others those whose products stay within 32 bits.
pub proof fn law_scaling_is_sample_by_sample(samples: Seq<i16>, volume128: int)
    ensures
        all_scaled(samples, volume128).len() == samples.len(),
        forall|i: int|
            0 <= i < samples.len() ==> #[trigger] all_scaled(samples, volume128)[i] == scaled(
                samples[i],
                volume128,
            ),
        -0xffff <= volume128 <= 0xffff ==> scalable(samples, volume128),
        (forall|i: int|
            0 <= i < samples.len() ==> i32::MIN <= #[trigger] samples[i] * volume128 <= i32::MAX)
            ==> scalable(samples, volume128),
{
    if -0xffff <= volume128 <= 0xffff {
        assert forall|i: int| 0 <= i < samples.len() implies i32::MIN <= #[trigger] samples[i]
            * volume128 <= i32::MAX by {
            let s: int = samples[i] as int;
            assert(-0x8000 * 0xffff <= s * volume128 <= 0x8000 * 0xffff) by (nonlinear_arith)
                requires
                    -0x8000 <= s <= 0x7fff,
                    -0xffff <= volume128 <= 0xffff,
            ;
        }
    }
}

/// The longest run of frames is the fixed period, or a hundredth of a second
/// where there is none, but no less than a two-hundredth.
pub proof fn law_longest_run(fixed_frames: Option<u32>, sample_rate: u32)
    ensures
        ({
            let longest = max_frames(fixed_frames, sample_rate);
            &&& fixed_frames is None ==> longest == sample_rate / 100
            &&& fixed_frames matches Some(frames) ==> {
                &&& longest >= frames
                &&& longest >= sample_rate / 200
                &&& longest == frames || longest == sample_rate / 200
            }
        }),
{
}

/// A chunk ends where the output ends or the longest run does, whichever comes
/// first.
pub proof fn law_chunk_end(plan: CallbackPlan, out_len: nat, pos: nat)
    requires
        pos <= out_len,
    ensures
        pos <= plan.chunk_end(out_len, pos) <= out_len,
        plan.chunk_end(out_len, pos) - pos <= plan.frames() * plan.device(),
        plan.chunk_end(out_len, pos) == out_len || plan.chunk_end(out_len, pos) - pos
            == plan.frames() * plan.device(),
{
    assert(plan.frames() * plan.device() >= 0) by (nonlinear_arith)
        requires
            plan.frames() >= 0,
            plan.device() >= 0,
    ;
}

} // verus!
