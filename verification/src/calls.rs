//! What a caller can tell of the executable functions, call by call.

use crate::callback::{CallbackPlan, Chunk};
use crate::drain::{drain_stages, drained, refilled};
use crate::encode::{encode_u16, encode_u8, write_i16, write_u16, write_u8};
use crate::model::RingView;
use crate::open::{after, next_step, OpenStep};
use crate::output::{AudioOutput, DrainTurn, OutputView, SampleFormat};
use crate::ring::SampleRing;
use crate::sizes::BufferPlan;
use crate::volume::{apply_volume, scaled};
use vstd::prelude::*;

verus! {

/// A new ring has the sizes that were asked for, is empty, has counted nothing,
/// and plays at once exactly where no prefill is asked for.
pub proof fn law_calls_of_new_ring(capacity_samples: usize, prefill: usize, ring: SampleRing)
    requires
        call_ensures(SampleRing::new, (capacity_samples, prefill), ring),
    ensures
        ring@.capacity == capacity_samples,
        ring@.prefill == prefill,
        ring@.queue.len() == 0,
        ring@.primed <==> prefill == 0,
        !ring@.overflow_warned,
        ring@.pushed == 0 && ring@.pulled == 0 && ring@.dropped == 0,
        ring@.underflows == 0 && ring@.clears == 0,
{
}

/// A push is that of the model, and one that fits a ring within its threshold
/// puts the new samples behind the old ones.
pub proof fn law_calls_of_push()
    ensures
        forall|ring: &mut SampleRing, data: &[i16], clear_threshold: u64|
            #[trigger] call_ensures(SampleRing::push, (ring, data, clear_threshold), ()) ==> {
                &&& (*final(ring))@ == (*ring)@.push(data@, clear_threshold)
                &&& (*ring)@.queue.len() <= clear_threshold && (*ring)@.queue.len() + data@.len()
                    <= (*ring)@.capacity ==> (*final(ring))@.queue == (*ring)@.queue + data@
            },
{
    assert forall|ring: &mut SampleRing, data: &[i16], clear_threshold: u64|
        #[trigger] call_ensures(SampleRing::push, (ring, data, clear_threshold), ()) implies {
        &&& (*final(ring))@ == (*ring)@.push(data@, clear_threshold)
        &&& (*ring)@.queue.len() <= clear_threshold && (*ring)@.queue.len() + data@.len()
            <= (*ring)@.capacity ==> (*final(ring))@.queue == (*ring)@.queue + data@
    } by {
        if (*ring)@.queue.len() <= clear_threshold && (*ring)@.queue.len() + data@.len()
            <= (*ring)@.capacity {
            assert((*final(ring))@.queue =~= (*ring)@.queue + data@);
        }
    }
}

/// A pull is that of the model. What it reports is what has left the queue, and
/// that is what it wrote to the front of the output; the rest stays.
pub proof fn law_calls_of_pull()
    ensures
        forall|ring: &mut SampleRing, out: &mut [i16], done: usize|
            #[trigger] call_ensures(SampleRing::pull, (ring, out), done) && (*ring)@.queue.len()
                <= (*ring)@.capacity ==> {
                &&& (*final(ring))@ == (*ring)@.pull((*out)@.len())
                &&& done == (*ring)@.queue.len() - (*final(ring))@.queue.len()
                &&& done <= (*out)@.len()
                &&& (*final(out))@.len() == (*out)@.len()
                &&& forall|i: int|
                    0 <= i < (*out)@.len() ==> #[trigger] (*final(out))@[i] == (if i < done {
                        (*ring)@.queue[i]
                    } else {
                        (*out)@[i]
                    })
            },
{
}

/// A pop is that of the model, and hands out what has left the queue.
pub proof fn law_calls_of_pop()
    ensures
        forall|ring: &mut SampleRing, max: usize, out: &mut Vec<i16>, done: usize|
            #[trigger] call_ensures(SampleRing::pop, (ring, max, out), done) ==> {
                &&& (*final(ring))@ == (*ring)@.pop(max as nat)
                &&& done == (*ring)@.queue.len() - (*final(ring))@.queue.len()
                &&& (*final(out))@ == (*ring)@.queue.take(done as int)
            },
{
}

/// A discarded backlog is that of the model.
pub proof fn law_calls_of_clear_backlog()
    ensures
        forall|ring: &mut SampleRing| #[trigger]
            call_ensures(SampleRing::clear_backlog, (ring,), ()) ==> (*final(ring))@
                == (*ring)@.clear_backlog(),
{
}

/// A ring reports its own length, flag and totals.
pub proof fn law_ring_reports_itself(ring: SampleRing, n: u64, flag: bool)
    ensures
        call_ensures(SampleRing::fill, (&ring,), n) ==> n == ring@.queue.len(),
        call_ensures(SampleRing::overflow_warned, (&ring,), flag) ==> flag
            == ring@.overflow_warned,
        call_ensures(SampleRing::pushed, (&ring,), n) ==> n == ring@.pushed,
        call_ensures(SampleRing::pulled, (&ring,), n) ==> n == ring@.pulled,
        call_ensures(SampleRing::dropped, (&ring,), n) ==> n == ring@.dropped,
        call_ensures(SampleRing::underflows, (&ring,), n) ==> n == ring@.underflows,
        call_ensures(SampleRing::clears, (&ring,), n) ==> n == ring@.clears,
{
}

/// The samples of a buffer are half its bytes, and the period asked for is the
/// whole frames in it, at two bytes for each channel; 0 stands for 9600 bytes.
pub proof fn law_calls_of_buffer_plan(buffer_size: u32, channels: u16, plan: BufferPlan)
    requires
        channels > 0,
        call_ensures(BufferPlan::new, (buffer_size, channels), plan),
    ensures
        ({
            let bytes: int = if buffer_size == 0 {
                9600
            } else {
                buffer_size as int
            };
            let frame: int = 2 * channels;
            &&& plan.buffer_samples * 2 <= bytes < plan.buffer_samples * 2 + 2
            &&& plan.requested_frames * frame <= bytes < plan.requested_frames * frame + frame
        }),
{
    lemma_whole_frames(buffer_size, channels);
}

proof fn lemma_whole_frames(buffer_size: u32, channels: u16)
    requires
        channels > 0,
    ensures
        ({
            let bytes: int = if buffer_size == 0 {
                9600
            } else {
                buffer_size as int
            };
            let frame: int = 2 * channels;
            let frames: int = bytes / frame;
            &&& frames * frame <= bytes < frames * frame + frame
            &&& 0 <= frames <= bytes
        }),
{
    let bytes: int = if buffer_size == 0 {
        9600
    } else {
        buffer_size as int
    };
    let frame: int = 2 * channels;
    vstd::arithmetic::div_mod::lemma_fundamental_div_mod(bytes, frame);
    let frames: int = bytes / frame;
    assert(frame * frames == frames * frame) by (nonlinear_arith);
    assert(0 <= frames <= bytes) by (nonlinear_arith)
        requires
            frames * frame <= bytes < frames * frame + frame,
            frame >= 1,
            bytes >= 0,
    ;
}

/// A new output keeps what it was given, plays at full volume, and has two empty
/// stages of eight buffers each; the second waits for two buffers, the first for
/// nothing. The period is the whole frames of a buffer.
pub proof fn law_calls_of_new_output(
    device_name: String,
    sample_rate: u32,
    channels: u16,
    buffer_size: u32,
    obtained_sample_rate: u32,
    obtained_channels: u16,
    obtained_sample_format: SampleFormat,
    output: AudioOutput,
)
    requires
        channels > 0,
        call_ensures(
            AudioOutput::new,
            (
                device_name,
                sample_rate,
                channels,
                buffer_size,
                obtained_sample_rate,
                obtained_channels,
                obtained_sample_format,
            ),
            output,
        ),
    ensures
        ({
            let bytes: int = if buffer_size == 0 {
                9600
            } else {
                buffer_size as int
            };
            let frame: int = 2 * channels;
            let samples = output@.buffer_samples;
            &&& samples * 2 <= bytes < samples * 2 + 2
            &&& output@.decode.capacity == samples * 8
            &&& output@.device.capacity == samples * 8
            &&& output@.decode.prefill == 0
            &&& output@.device.prefill == samples * 2
            &&& output@.decode == RingView::fresh(output@.decode.capacity, 0)
            &&& output@.device == RingView::fresh(output@.device.capacity, samples * 2)
            &&& output@.volume128 == 128
            &&& output@.requested_frames * frame <= bytes < output@.requested_frames * frame + frame
            &&& output@.sample_rate == sample_rate
            &&& output@.channels == channels
            &&& output@.device_name == device_name@
            &&& output@.obtained_sample_rate == obtained_sample_rate
            &&& output@.obtained_channels == obtained_channels
            &&& output@.obtained_sample_format == obtained_sample_format
        }),
{
    lemma_whole_frames(buffer_size, channels);
}

/// An arrival and a drain are those of the model.
pub proof fn law_calls_of_arrival_and_drain()
    ensures
        forall|output: &mut AudioOutput, samples: &[i16]|
            #[trigger] call_ensures(AudioOutput::push, (output, samples), ()) ==> (*final(output))@
                == (*output)@.push(samples@),
        forall|output: &mut AudioOutput| #[trigger]
            call_ensures(AudioOutput::drain, (output,), ()) ==> (*final(output))@
                == (*output)@.drain(),
{
}

/// A drain of two rings is that of the model, and what it carries over is what
/// has left the first.
pub proof fn law_calls_of_drain_stages()
    ensures
        forall|decode: &mut SampleRing, device: &mut SampleRing, n: usize, carried: &mut Vec<i16>|
            #[trigger] call_ensures(drain_stages, (decode, device, n, carried), ()) ==> {
                let moved = (*decode)@.queue.len() - (*final(decode))@.queue.len();
                &&& (*final(decode))@ == drained((*decode)@, (*device)@, n as nat)
                &&& (*final(device))@ == refilled((*decode)@, (*device)@, n as nat)
                &&& (*final(carried))@ == (*decode)@.queue.take(moved)
            },
{
}

/// A turn of the drain thread that is told to stop does nothing but stop. Any
/// other drains; the thread then sleeps where nothing is left in the first stage
/// and takes another turn where something is.
pub proof fn law_calls_of_drain_turn()
    ensures
        forall|output: &mut AudioOutput, stop: bool, turn: DrainTurn|
            #[trigger] call_ensures(AudioOutput::drain_turn, (output, stop), turn) ==> {
                &&& stop ==> turn is Stop && (*final(output))@ == (*output)@
                &&& !stop ==> (*final(output))@ == (*output)@.drain() && !(turn is Stop)
                &&& !stop ==> (turn is Wait <==> (*final(output))@.decode.queue.len() == 0)
            },
{
}

/// A callback hands out what has left the second stage, in order and at the
/// volume in force, and silence for the rest, whatever stood there before; only
/// the second stage changes.
pub proof fn law_calls_of_render()
    ensures
        forall|output: &mut AudioOutput, pcm: &mut [i16]|
            #[trigger] call_ensures(AudioOutput::render, (output, pcm), ())
                && (*output)@.device.queue.len() <= (*output)@.device.capacity
                && (*output)@.volume128 <= 128 ==> {
                let now = (*final(output))@;
                let taken = (*output)@.device.queue.len() - now.device.queue.len();
                &&& now == (OutputView { device: now.device, ..(*output)@ })
                &&& now.device == (*output)@.device.pull((*pcm)@.len())
                &&& (*final(pcm))@.len() == (*pcm)@.len()
                &&& 0 <= taken <= (*pcm)@.len()
                &&& forall|i: int|
                    0 <= i < taken ==> #[trigger] (*final(pcm))@[i] == scaled(
                        (*output)@.device.queue[i],
                        (*output)@.volume128 as int,
                    )
                &&& forall|i: int|
                    taken <= i < (*pcm)@.len() ==> #[trigger] (*final(pcm))@[i] == 0
            },
{
    assert forall|output: &mut AudioOutput, pcm: &mut [i16]|
        #[trigger] call_ensures(AudioOutput::render, (output, pcm), ())
            && (*output)@.device.queue.len() <= (*output)@.device.capacity
            && (*output)@.volume128 <= 128 implies {
        let now = (*final(output))@;
        let taken = (*output)@.device.queue.len() - now.device.queue.len();
        &&& now == (OutputView { device: now.device, ..(*output)@ })
        &&& now.device == (*output)@.device.pull((*pcm)@.len())
        &&& (*final(pcm))@.len() == (*pcm)@.len()
        &&& 0 <= taken <= (*pcm)@.len()
        &&& forall|i: int|
            0 <= i < taken ==> #[trigger] (*final(pcm))@[i] == scaled(
                (*output)@.device.queue[i],
                (*output)@.volume128 as int,
            )
        &&& forall|i: int| taken <= i < (*pcm)@.len() ==> #[trigger] (*final(pcm))@[i] == 0
    } by {
        crate::behaviour::law_callback_plays_what_it_takes((*output)@, (*pcm)@.len());
    }
}

/// A volume on the scale is in force once it is set, and a larger one counts as
/// full; nothing else changes.
pub proof fn law_calls_of_set_volume()
    ensures
        forall|output: &mut AudioOutput, volume128: u32|
            #[trigger] call_ensures(AudioOutput::set_volume, (output, volume128), ()) ==> {
                let now = (*final(output))@;
                &&& volume128 <= 128 ==> now.volume128 == volume128
                &&& volume128 > 128 ==> now.volume128 == 128
                &&& now == (OutputView { volume128: now.volume128, ..(*output)@ })
            },
{
}

/// An output reports what it was opened with, its volume, its latency and its
/// totals: arrivals and overflows of the first stage, callbacks, clears and
/// latency of the second, and drops of both together.
pub proof fn law_output_reports_itself(
    output: AudioOutput,
    n: u64,
    m: u32,
    flag: bool,
    name: &str,
    session: (u32, u16),
    obtained: (u32, u16, SampleFormat),
)
    ensures
        call_ensures(AudioOutput::volume128, (&output,), m) ==> m == output@.volume128,
        call_ensures(AudioOutput::device_fill, (&output,), n) ==> n == output@.device.queue.len(),
        call_ensures(AudioOutput::overflow_warned, (&output,), flag) ==> flag
            == output@.decode.overflow_warned,
        call_ensures(AudioOutput::session_format, (&output,), session) ==> session.0
            == output@.sample_rate && session.1 == output@.channels,
        call_ensures(AudioOutput::dropped_samples, (&output,), n) ==> (n - output@.decode.dropped
            - output@.device.dropped) % 0x1_0000_0000_0000_0000 == 0,
        call_ensures(AudioOutput::pushed_samples, (&output,), n) ==> n == output@.decode.pushed,
        call_ensures(AudioOutput::pulled_samples, (&output,), n) ==> n == output@.device.pulled,
        call_ensures(AudioOutput::clears, (&output,), n) ==> n == output@.device.clears,
        call_ensures(AudioOutput::underflows, (&output,), n) ==> n == output@.device.underflows,
        call_ensures(AudioOutput::device_name, (&output,), name) ==> name@ == output@.device_name,
        call_ensures(AudioOutput::obtained_config, (&output,), obtained) ==> obtained.0
            == output@.obtained_sample_rate && obtained.1 == output@.obtained_channels
            && obtained.2 == output@.obtained_sample_format,
        call_ensures(AudioOutput::requested_buffer_frames, (&output,), m) ==> m
            == output@.requested_frames,
{
}

/// Setting a volume treats each sample by itself and in its place.
pub proof fn law_calls_of_apply_volume()
    ensures
        forall|samples: &mut [i16], volume128: i32|
            #[trigger] call_ensures(apply_volume, (samples, volume128), ()) ==> {
                &&& (*final(samples))@.len() == (*samples)@.len()
                &&& forall|i: int|
                    0 <= i < (*samples)@.len() ==> #[trigger] (*final(samples))@[i] == scaled(
                        (*samples)@[i],
                        volume128 as int,
                    )
            },
{
}

/// A callback's buffers hold the longest run: the fixed period, or a hundredth of
/// a second, and never less than a two-hundredth.
pub proof fn law_calls_of_callback_plan(
    fixed_frames: Option<u32>,
    sample_rate: u32,
    session_channels: u16,
    device_channels: u16,
    plan: CallbackPlan,
    len: usize,
)
    requires
        call_ensures(
            CallbackPlan::new,
            (fixed_frames, sample_rate, session_channels, device_channels),
            plan,
        ),
    ensures
        fixed_frames is None ==> plan.frames() == sample_rate / 100,
        fixed_frames matches Some(frames) ==> {
            &&& plan.frames() >= frames
            &&& plan.frames() >= sample_rate / 200
            &&& plan.frames() == frames || plan.frames() == sample_rate / 200
        },
        call_ensures(CallbackPlan::scratch_len, (&plan,), len) ==> len == plan.frames()
            * session_channels,
        call_ensures(CallbackPlan::converted_len, (&plan,), len) ==> len == plan.frames()
            * device_channels,
{
}

/// A chunk starts where it is asked to and ends with the output or with the
/// longest run; of it, the whole frames are served, none more and none less.
/// There is none exactly where nothing is left.
pub proof fn law_calls_of_next_chunk(
    plan: CallbackPlan,
    out_len: usize,
    pos: usize,
    chunk: Option<Chunk>,
)
    requires
        plan.frames() > 0,
        plan.device() > 0,
        pos <= out_len,
        call_ensures(CallbackPlan::next_chunk, (&plan, out_len, pos), chunk),
    ensures
        chunk is None <==> pos == out_len,
        chunk matches Some(c) ==> {
            &&& c.start == pos
            &&& c.start < c.end <= out_len
            &&& c.end == out_len || c.end - c.start == plan.frames() * plan.device()
            &&& c.end - c.start <= plan.frames() * plan.device()
            &&& c.device_len == c.frames * plan.device()
            &&& c.session_len == c.frames * plan.session()
            &&& c.device_len <= c.end - c.start < c.device_len + plan.device()
        },
{
    if let Some(c) = chunk {
        let d: int = plan.device() as int;
        let len: int = c.end - c.start;
        vstd::arithmetic::div_mod::lemma_fundamental_div_mod(len, d);
        vstd::arithmetic::div_mod::lemma_mod_bound(len, d);
        assert(d * (len / d) == (len / d) * d) by (nonlinear_arith);
    }
}

/// A sample in an unsigned format lies as far above the lowest value as it does
/// in the signed one, in steps of one and of 256.
pub proof fn law_calls_of_encoders(sample: i16, long: u16, short: u8)
    ensures
        call_ensures(encode_u16, (sample,), long) ==> long == sample + 0x8000,
        call_ensures(encode_u8, (sample,), short) ==> short * 0x100 <= sample + 0x8000 < short
            * 0x100 + 0x100,
{
}

/// Writing samples fills the front of the output, each sample in its place and
/// in the output's format, and leaves the rest alone.
pub proof fn law_calls_of_writers()
    ensures
        forall|src: &[i16], dst: &mut [i16]| #[trigger]
            call_ensures(write_i16, (src, dst), ()) ==> {
                &&& (*final(dst))@.len() == (*dst)@.len()
                &&& forall|i: int|
                    0 <= i < (*dst)@.len() ==> #[trigger] (*final(dst))@[i] == (if i < src@.len() {
                        src@[i]
                    } else {
                        (*dst)@[i]
                    })
            },
        forall|src: &[i16], dst: &mut [u16]| #[trigger]
            call_ensures(write_u16, (src, dst), ()) ==> {
                &&& (*final(dst))@.len() == (*dst)@.len()
                &&& forall|i: int|
                    0 <= i < (*dst)@.len() ==> #[trigger] (*final(dst))@[i] == (if i < src@.len() {
                        src@[i] + 0x8000
                    } else {
                        (*dst)@[i] as int
                    })
            },
        forall|src: &[i16], dst: &mut [u8]| #[trigger]
            call_ensures(write_u8, (src, dst), ()) ==> {
                &&& (*final(dst))@.len() == (*dst)@.len()
                &&& forall|i: int|
                    0 <= i < (*dst)@.len() ==> #[trigger] (*final(dst))@[i] == (if i < src@.len() {
                        (src@[i] + 0x8000) / 0x100
                    } else {
                        (*dst)@[i] as int
                    })
            },
{
}

/// Sizes and volumes that a user can set are accepted: every buffer size whose
/// rings fit in memory with any number of channels but none, and every volume on
/// the scale with any samples.
pub proof fn law_settings_are_accepted(
    capacity_samples: usize,
    prefill: usize,
    device_name: String,
    buffer_size: u32,
    channels: u16,
    rate: u32,
    format: SampleFormat,
)
    ensures
        capacity_samples * 2 <= isize::MAX ==> call_requires(
            SampleRing::new,
            (capacity_samples, prefill),
        ),
        channels > 0 ==> call_requires(BufferPlan::new, (buffer_size, channels)),
        channels > 0 && buffer_size * 8 <= isize::MAX ==> call_requires(
            AudioOutput::new,
            (device_name, rate, channels, buffer_size, rate, channels, format),
        ),
        forall|samples: &mut [i16], volume128: i32|
            0 <= volume128 <= 128 ==> #[trigger] call_requires(apply_volume, (samples, volume128)),
{
    assert forall|samples: &mut [i16], volume128: i32| 0 <= volume128 <= 128 implies #[trigger]
    call_requires(apply_volume, (samples, volume128)) by {
        crate::volume::scale_suits_all_samples((*samples)@, volume128 as int);
    }
}

/// The step that a call names is the one that follows.
pub proof fn law_calls_of_next_step(step: OpenStep, ok: bool, next: OpenStep)
    requires
        call_ensures(next_step, (step, ok), next),
    ensures
        next == after(step, ok),
        next is Play ==> ok && (step is BuildRequested || step is BuildDefault),
        next is Opened ==> step is Opened || (ok && step is Play),
{
}

} // verus!
