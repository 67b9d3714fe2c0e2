//! What holds of the rings and of the output as a whole.

use crate::callback::CallbackPlan;
use crate::encode::{as_u16, as_u8};
use crate::model::{count, newest, RingView};
use crate::output::OutputView;
use crate::sizes::{
    drain_target, effective_size, latency_limit, ring_capacity, samples_per_buffer,
};
use crate::volume::{scaled, toward_zero, SDL_MIX_MAXVOLUME};
use vstd::prelude::*;

verus! {

/// Every operation keeps a ring valid and its sizes as they are; in particular
/// never more is queued than the ring can hold.
pub proof fn law_rings_stay_valid(
    ring: RingView,
    data: Seq<i16>,
    clear_threshold: u64,
    want: nat,
    max: nat,
)
    requires
        ring.valid(),
    ensures
        ring.push(data, clear_threshold).valid(),
        ring.push(data, clear_threshold).capacity == ring.capacity,
        ring.push(data, clear_threshold).prefill == ring.prefill,
        ring.pull(want).valid(),
        ring.pull(want).capacity == ring.capacity,
        ring.pull(want).prefill == ring.prefill,
        ring.pop(max).valid(),
        ring.pop(max).capacity == ring.capacity,
        ring.pop(max).prefill == ring.prefill,
        ring.clear_backlog().valid(),
        ring.clear_backlog().capacity == ring.capacity,
        ring.clear_backlog().prefill == ring.prefill,
{
}

/// A push that fits within the ring appends its samples behind the oldest that
/// still have room: each sample pushed or queued before is queued afterwards or
/// counted as dropped, and those dropped are the oldest.
pub proof fn law_push_drops_only_the_oldest(ring: RingView, data: Seq<i16>, clear_threshold: u64)
    requires
        ring.valid(),
        0 < data.len() <= ring.capacity,
    ensures
        ring.push(data, clear_threshold).queue == ring.queue.skip(
            ring.lost(data.len(), clear_threshold) as int,
        ) + data,
        ring.push(data, clear_threshold).dropped == count(
            ring.dropped,
            ring.lost(data.len(), clear_threshold),
        ),
        ring.push(data, clear_threshold).queue.len() + ring.lost(data.len(), clear_threshold)
            == ring.queue.len() + data.len(),
{
    let lost: int = ring.lost(data.len(), clear_threshold) as int;
    assert(ring.push(data, clear_threshold).queue =~= ring.queue.skip(lost) + data);
}

/// A push of more than the ring can hold leaves the end of it and nothing else.
pub proof fn law_oversized_push_keeps_its_end(
    ring: RingView,
    data: Seq<i16>,
    clear_threshold: u64,
)
    requires
        ring.valid(),
        0 < ring.capacity <= data.len(),
    ensures
        ring.push(data, clear_threshold).queue == data.skip(data.len() - ring.capacity),
        ring.push(data, clear_threshold).dropped == count(ring.dropped, ring.queue.len()),
        !ring.push(data, clear_threshold).overflow_warned,
{
    assert(ring.push(data, clear_threshold).queue =~= data.skip(data.len() - ring.capacity));
}

/// Without a latency guard, what is queued does not depend on the pieces in
/// which samples arrive.
pub proof fn law_bursts_do_not_matter(ring: RingView, first: Seq<i16>, second: Seq<i16>)
    requires
        ring.valid(),
        ring.capacity <= u64::MAX,
    ensures
        ring.push(first, u64::MAX).push(second, u64::MAX).queue == ring.push(
            first + second,
            u64::MAX,
        ).queue,
{
    let apart = ring.push(first, u64::MAX).push(second, u64::MAX).queue;
    let together = ring.push(first + second, u64::MAX).queue;
    assert(ring.queue + (first + second) =~= (ring.queue + first) + second);
    assert(apart =~= together);
}

/// A backlog of more than the threshold is discarded as a whole by the next
/// push, which is counted once; a backlog up to the threshold never is.
pub proof fn law_latency_guard(ring: RingView, data: Seq<i16>, clear_threshold: u64)
    requires
        ring.valid(),
        0 < data.len(),
    ensures
        ring.over(clear_threshold) ==> {
            &&& ring.push(data, clear_threshold).queue == newest(data, ring.capacity)
            &&& ring.push(data, clear_threshold).clears == count(ring.clears, 1)
            &&& ring.push(data, clear_threshold).dropped == count(ring.dropped, ring.queue.len())
            &&& ring.push(data, clear_threshold).queue.len() < ring.prefill ==> ring.push(
                data,
                clear_threshold,
            ).priming()
        },
        !ring.over(clear_threshold) ==> ring.push(data, clear_threshold).clears == ring.clears,
{
    if ring.over(clear_threshold) {
        assert(Seq::<i16>::empty() + data =~= data);
    }
}

/// An overflow is reported once: while the report stands, only losing
/// everything queued takes it back, and an overflow that finds none standing
/// raises it.
pub proof fn law_overflow_is_reported_once(
    ring: RingView,
    data: Seq<i16>,
    clear_threshold: u64,
    want: nat,
    max: nat,
)
    requires
        ring.valid(),
    ensures
        ring.overflow_warned && ring.lost(data.len(), clear_threshold) < ring.queue.len()
            ==> ring.push(data, clear_threshold).overflow_warned,
        0 < ring.lost(data.len(), clear_threshold) < ring.queue.len() && data.len() > 0
            ==> ring.push(data, clear_threshold).overflow_warned,
        ring.pull(want).overflow_warned <==> ring.overflow_warned && ring.pull(want).queue.len()
            > 0,
        ring.pop(max).overflow_warned <==> ring.overflow_warned && ring.pop(max).queue.len() > 0,
        !ring.clear_backlog().overflow_warned,
{
}

/// While a ring waits for its prefill, a pull changes nothing at all: no sample
/// leaves and no underflow is counted.
pub proof fn law_priming_is_silent(ring: RingView, want: nat)
    requires
        ring.priming(),
    ensures
        ring.playable(want) == 0,
        ring.pull(want) == ring,
{
    assert(ring.queue.skip(0) =~= ring.queue);
}

/// A ring that asks for a prefill waits for it when it is new, when it was
/// played empty and when its backlog was discarded; it stops waiting as soon as
/// the prefill is queued, and does not wait again before it is empty.
pub proof fn law_prefill(
    ring: RingView,
    data: Seq<i16>,
    clear_threshold: u64,
    want: nat,
)
    requires
        ring.valid(),
        0 < ring.prefill,
        0 < ring.capacity,
    ensures
        RingView::fresh(ring.capacity, ring.prefill).priming(),
        ring.clear_backlog().priming(),
        ring.pull(want).queue.len() == 0 ==> ring.pull(want).priming(),
        ring.push(data, clear_threshold).queue.len() >= ring.prefill ==> !ring.push(
            data,
            clear_threshold,
        ).priming(),
        !ring.priming() && ring.pull(want).queue.len() > 0 ==> !ring.pull(want).priming(),
{
}

/// A pull is an underflow exactly where the ring was playing and had too little.
pub proof fn law_underflow(ring: RingView, want: nat)
    requires
        ring.valid(),
    ensures
        ring.pull(want).underflows == count(
            ring.underflows,
            if !ring.priming() && ring.queue.len() < want {
                1
            } else {
                0
            },
        ),
{
}

/// What is pushed comes out again, in order, behind what was queued before: a
/// push that fits followed by a pull of everything gives back both.
pub proof fn law_pull_gives_back_pushes(ring: RingView, data: Seq<i16>, clear_threshold: u64)
    requires
        ring.valid(),
        !ring.over(clear_threshold),
        ring.queue.len() + data.len() <= ring.capacity,
        !ring.push(data, clear_threshold).priming(),
    ensures
        ({
            let all = ring.queue + data;
            let pushed = ring.push(data, clear_threshold);
            &&& pushed.playable(all.len()) == all.len()
            &&& pushed.queue.take(all.len() as int) == all
            &&& pushed.pull(all.len()).queue.len() == 0
        }),
{
    let all = ring.queue + data;
    let pushed = ring.push(data, clear_threshold);
    assert(pushed.queue =~= all);
    assert(pushed.queue.take(all.len() as int) =~= all);
}

/// Within the scale a volume never makes a sample louder or turns its sign, the
/// result is exactly `sample * volume / 128` rounded toward zero, 0 is silence,
/// full volume changes nothing, and louder samples stay louder.
pub proof fn law_volume(sample: i16, louder: i16, volume128: int)
    requires
        0 <= volume128 <= SDL_MIX_MAXVOLUME,
        sample <= louder,
    ensures
        scaled(sample, volume128) == toward_zero(sample * volume128, 128),
        sample >= 0 ==> 0 <= scaled(sample, volume128) <= sample,
        sample <= 0 ==> sample <= scaled(sample, volume128) <= 0,
        scaled(sample, 0) == 0,
        scaled(sample, SDL_MIX_MAXVOLUME as int) == sample,
        scaled(sample, volume128) <= scaled(louder, volume128),
{
    lemma_scaled_exact(sample, volume128);
    lemma_scaled_exact(louder, volume128);
    let s: int = sample as int;
    let l: int = louder as int;
    assert(s * volume128 <= l * volume128) by (nonlinear_arith)
        requires
            s <= l,
            0 <= volume128,
    ;
}

proof fn lemma_scaled_exact(sample: i16, volume128: int)
    requires
        0 <= volume128 <= SDL_MIX_MAXVOLUME,
    ensures
        scaled(sample, volume128) == toward_zero(sample * volume128, 128),
        sample >= 0 ==> 0 <= sample * volume128 && 0 <= scaled(sample, volume128) <= sample,
        sample <= 0 ==> sample * volume128 <= 0 && sample <= scaled(sample, volume128) <= 0,
{
    let s: int = sample as int;
    if s >= 0 {
        assert(0 <= s * volume128 <= s * 128) by (nonlinear_arith)
            requires
                s >= 0,
                0 <= volume128 <= 128,
        ;
    } else {
        assert(s * 128 <= s * volume128 <= 0) by (nonlinear_arith)
            requires
                s < 0,
                0 <= volume128 <= 128,
        ;
    }
}

/// Everything that waits to be heard: the second stage, then the first.
pub open spec fn line(output: OutputView) -> Seq<i16> {
    output.device.queue + output.decode.queue
}

/// The second stage holds no more than a drain fills it up to.
pub open spec fn within_target(output: OutputView) -> bool {
    output.device.queue.len() <= drain_target(output.buffer_samples)
}

/// Every operation keeps an output valid.
pub proof fn law_outputs_stay_valid(
    output: OutputView,
    samples: Seq<i16>,
    len: nat,
    volume128: u32,
)
    requires
        output.valid(),
    ensures
        output.push(samples).valid(),
        output.drain().valid(),
        output.render(len).valid(),
        output.set_volume(volume128).valid(),
{
}

/// At volume 0 arriving samples leave no trace, not even in the totals.
pub proof fn law_muted_output_ignores_samples(output: OutputView, samples: Seq<i16>)
    requires
        output.volume128 == 0,
    ensures
        output.push(samples) == output,
{
}

/// Nothing brings the second stage over its target, and while it is within its
/// target the latency guard stays quiet and none of its samples is dropped.
pub proof fn law_second_stage_keeps_its_target(
    output: OutputView,
    samples: Seq<i16>,
    len: nat,
    volume128: u32,
)
    requires
        output.valid(),
        within_target(output),
    ensures
        within_target(output.push(samples)),
        within_target(output.drain()),
        within_target(output.render(len)),
        within_target(output.set_volume(volume128)),
        output.drain().device.clears == output.device.clears,
        output.drain().device.dropped == output.device.dropped,
        output.drain().device.queue.len() == (if line(output).len() <= drain_target(
            output.buffer_samples,
        ) {
            line(output).len()
        } else {
            drain_target(output.buffer_samples)
        }),
{
}

/// A backlog of more than three buffers in the second stage is discarded by the
/// drain, which then fills the stage up anew from the first.
pub proof fn law_drain_discards_late_backlog(output: OutputView)
    requires
        output.valid(),
        output.device.queue.len() > latency_limit(output.buffer_samples),
    ensures
        output.drain().device.queue == output.decode.queue.take(output.refill() as int),
        output.drain().device.clears == count(output.device.clears, 1),
        output.drain().device.dropped == count(output.device.dropped, output.device.queue.len()),
        within_target(output.drain()),
{
    let moved = output.decode.queue.take(output.refill() as int);
    assert(output.drain().device.queue =~= moved);
}

/// A drain moves samples from stage to stage without changing their order or
/// losing any, unless the latency guard fires.
pub proof fn law_drain_keeps_order(output: OutputView)
    requires
        output.valid(),
        output.device.queue.len() <= latency_limit(output.buffer_samples),
    ensures
        line(output.drain()) == line(output),
        output.drain().decode.dropped == output.decode.dropped,
        output.drain().device.dropped == output.device.dropped,
        output.drain().device.clears == output.device.clears,
{
    assert(line(output.drain()) =~= line(output));
}

/// One drain does all there is to do: a second one right after changes nothing.
pub proof fn law_drain_is_complete(output: OutputView)
    requires
        output.valid(),
    ensures
        output.drain().drain() == output.drain(),
{
    let once = output.drain();
    assert(once.refill() == 0);
    assert(once.decode.queue.skip(0) =~= once.decode.queue);
    assert(once.decode.pop(0) =~= once.decode);
    assert(once.drain() =~= once);
}

/// What a callback hears does not depend on the chunks in which it is served.
pub proof fn law_chunks_do_not_matter(output: OutputView, first: nat, second: nat)
    requires
        output.valid(),
    ensures
        output.sound(first) + output.render(first).sound(second) == output.sound(first + second),
{
    assert(output.sound(first) + output.render(first).sound(second) =~= output.sound(
        first + second,
    ));
}

/// A callback that gets too little plays what there is and then silence.
pub proof fn law_underrun_plays_silence(output: OutputView, len: nat, i: int)
    requires
        output.valid(),
        0 <= i < len,
    ensures
        output.sound(len).len() == len,
        i < output.device.playable(len) ==> output.sound(len)[i] == scaled(
            output.device.queue[i],
            output.volume128 as int,
        ),
        i >= output.device.playable(len) ==> output.sound(len)[i] == 0,
{
    law_volume(0, 0, output.volume128 as int);
}

/// A device output of whole frames is served in chunks of whole frames, and all
/// of it is written.
pub proof fn law_chunks_are_whole_frames(plan: CallbackPlan, out_len: nat, pos: nat)
    requires
        plan.device() > 0,
        pos < out_len,
        out_len % plan.device() == 0,
        pos % plan.device() == 0,
    ensures
        plan.chunk_end(out_len, pos) % plan.device() == 0,
        ((plan.chunk_end(out_len, pos) - pos) / plan.device() as int) * plan.device()
            == plan.chunk_end(out_len, pos) - pos,
{
    let d: int = plan.device() as int;
    let f: int = plan.frames() as int;
    let end: int = plan.chunk_end(out_len, pos) as int;
    vstd::arithmetic::div_mod::lemma_mod_multiples_vanish(f, pos as int, d);
    assert(d * f + pos == pos + f * d) by (nonlinear_arith);
    assert(end % d == 0);
    vstd::arithmetic::div_mod::lemma_sub_mod_noop(end, pos as int, d);
    vstd::arithmetic::div_mod::lemma_small_mod(0, plan.device());
    vstd::arithmetic::div_mod::lemma_fundamental_div_mod(end - pos, d);
    assert(d * ((end - pos) / d) == ((end - pos) / d) * d) by (nonlinear_arith);
}

/// The rings hold eight, are filled to two and are guarded at three times the
/// configured number of bytes, at two bytes per sample.
pub proof fn law_sizes_in_bytes(buffer_size: u32)
    requires
        buffer_size % 2 == 0,
    ensures
        ring_capacity(samples_per_buffer(buffer_size)) * 2 == 8 * effective_size(buffer_size),
        drain_target(samples_per_buffer(buffer_size)) * 2 == 2 * effective_size(buffer_size),
        latency_limit(samples_per_buffer(buffer_size)) * 2 == 3 * effective_size(buffer_size),
{
}

/// The unsigned formats keep the order of samples and put silence in the middle;
/// the shorter one is the upper half of the longer.
pub proof fn law_unsigned_formats(sample: i16, louder: i16)
    requires
        sample <= louder,
    ensures
        as_u16(sample) == sample + 0x8000,
        as_u16(sample) <= as_u16(louder),
        as_u8(sample) <= as_u8(louder),
        as_u8(sample) == as_u16(sample) / 0x100,
        as_u16(0) == 0x8000,
        as_u8(0) == 0x80,
{
}

} // verus!
