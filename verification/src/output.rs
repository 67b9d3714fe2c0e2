//! The two-stage output: decoded samples wait in a first ring and are drained
//! into a second one, from which the device callback plays.

use crate::drain::{drain_stages, drained, refill, refilled};
use crate::model::{count, lesser, RingView};
use crate::ring::SampleRing;
use crate::sizes::{
    drain_target, effective_size, ring_capacity, ring_fits, samples_per_buffer, BufferPlan,
};
use crate::volume::{all_scaled, apply_volume, scale_suits_all_samples, SDL_MIX_MAXVOLUME};
use vstd::prelude::*;

verus! {

/// The sample formats in which a device may run.
#[derive(Clone, Copy, Debug, PartialEq, Eq, Structural)]
pub enum SampleFormat {
    I16,
    F32,
    U16,
    U8,
    /// Any other format; none of these can be served.
    Other,
}

/// What an open output is: both stages, the volume, and what was negotiated
/// with the device.
#[verifier::ext_equal]
pub struct OutputView {
    /// Decoded samples as they arrived.
    pub decode: RingView,
    /// Samples lined up for the device.
    pub device: RingView,
    /// Samples in one buffer.
    pub buffer_samples: nat,
    /// The volume, from 0 to 128.
    pub volume128: u32,
    /// The rate and the channels of arriving samples.
    pub sample_rate: u32,
    pub channels: u16,
    /// The device and what was negotiated with it.
    pub device_name: Seq<char>,
    pub obtained_sample_rate: u32,
    pub obtained_channels: u16,
    pub obtained_sample_format: SampleFormat,
    /// The period that was asked of the device.
    pub requested_frames: u32,
}

impl OutputView {
    /// What holds of every output between operations.
    pub open spec fn valid(self) -> bool {
        &&& self.decode.valid()
        &&& self.device.valid()
        &&& self.decode.capacity == ring_capacity(self.buffer_samples)
        &&& self.device.capacity == ring_capacity(self.buffer_samples)
        &&& self.decode.prefill == 0
        &&& self.device.prefill == drain_target(self.buffer_samples)
        &&& self.volume128 <= SDL_MIX_MAXVOLUME
        &&& self.device.capacity * 2 <= isize::MAX
    }

    /// The output after decoded samples arrived. At volume 0 they are ignored;
    /// otherwise the first stage takes them, without a latency guard.
    pub open spec fn push(self, samples: Seq<i16>) -> OutputView {
        if self.volume128 == 0 {
            self
        } else {
            OutputView { decode: self.decode.push(samples, u64::MAX), ..self }
        }
    }

    /// How many samples a drain moves.
    pub open spec fn refill(self) -> nat {
        refill(self.decode, self.device, self.buffer_samples)
    }

    /// The output after a drain.
    pub open spec fn drain(self) -> OutputView {
        OutputView {
            decode: drained(self.decode, self.device, self.buffer_samples),
            device: refilled(self.decode, self.device, self.buffer_samples),
            ..self
        }
    }

    /// The samples that a callback for `len` samples plays: what the second
    /// stage gives, then silence, all at the current volume.
    pub open spec fn sound(self, len: nat) -> Seq<i16> {
        let n = self.device.playable(len);
        all_scaled(
            self.device.queue.take(n as int) + Seq::new((len - n) as nat, |i: int| 0i16),
            self.volume128 as int,
        )
    }

    /// The output at another volume; more than full volume counts as full.
    pub open spec fn set_volume(self, volume128: u32) -> OutputView {
        OutputView {
            volume128: lesser(volume128 as nat, SDL_MIX_MAXVOLUME as nat) as u32,
            ..self
        }
    }

    /// The output after a callback for `len` samples.
    pub open spec fn render(self, len: nat) -> OutputView {
        OutputView { device: self.device.pull(len), ..self }
    }
}

/// What the drain thread does after a turn.
#[derive(Clone, Copy, Debug, PartialEq, Eq, Structural)]
pub enum DrainTurn {
    /// Leave the thread.
    Stop,
    /// Sleep until samples arrive or the tick is over.
    Wait,
    /// Take another turn at once.
    Again,
}

/// The audio output: everything but the device stream and the threads.
pub struct AudioOutput {
    decode_ring: SampleRing,
    device_ring: SampleRing,
    buffer_samples: usize,
    volume128: u32,
    sample_rate: u32,
    channels: u16,
    device_name: String,
    obtained_sample_rate: u32,
    obtained_channels: u16,
    obtained_sample_format: SampleFormat,
    requested_frames: u32,
    scratch: Vec<i16>,
}

impl View for AudioOutput {
    type V = OutputView;

    closed spec fn view(&self) -> OutputView {
        OutputView {
            decode: self.decode_ring@,
            device: self.device_ring@,
            buffer_samples: self.buffer_samples as nat,
            volume128: self.volume128,
            sample_rate: self.sample_rate,
            channels: self.channels,
            device_name: self.device_name@,
            obtained_sample_rate: self.obtained_sample_rate,
            obtained_channels: self.obtained_channels,
            obtained_sample_format: self.obtained_sample_format,
            requested_frames: self.requested_frames,
        }
    }
}

impl AudioOutput {
    /// The output's invariant.
    pub closed spec fn wf(self) -> bool {
        &&& self.decode_ring.wf()
        &&& self.device_ring.wf()
        &&& self@.valid()
    }

    /// What the invariant says of both stages and the volume.
    pub proof fn wf_is_valid(self)
        requires
            self.wf(),
        ensures
            self@.valid(),
    {
    }

    /// An output at full volume with both stages empty.
    ///
    /// `sample_rate` and `channels` are the format in which samples arrive,
    /// `buffer_size` is the configured size in bytes (0: the default), and the
    /// `obtained` values are what was negotiated with the device `device_name`.
    pub fn new(
        device_name: String,
        sample_rate: u32,
        channels: u16,
        buffer_size: u32,
        obtained_sample_rate: u32,
        obtained_channels: u16,
        obtained_sample_format: SampleFormat,
    ) -> (output: AudioOutput)
        requires
            channels > 0,
            ring_fits(buffer_size),
        ensures
            output.wf(),
            output@ == (OutputView {
                decode: RingView::fresh(ring_capacity(samples_per_buffer(buffer_size)), 0),
                device: RingView::fresh(
                    ring_capacity(samples_per_buffer(buffer_size)),
                    drain_target(samples_per_buffer(buffer_size)),
                ),
                buffer_samples: samples_per_buffer(buffer_size),
                volume128: SDL_MIX_MAXVOLUME,
                sample_rate,
                channels,
                device_name: device_name@,
                obtained_sample_rate,
                obtained_channels,
                obtained_sample_format,
                requested_frames: (effective_size(buffer_size) as int / (2 * channels)) as u32,
            }),
    {
        let plan: BufferPlan = BufferPlan::new(buffer_size, channels);
        let buffer_samples: usize = plan.buffer_samples;
        AudioOutput {
            decode_ring: SampleRing::new(buffer_samples * 8, 0),
            device_ring: SampleRing::new(buffer_samples * 8, buffer_samples * 2),
            buffer_samples,
            volume128: SDL_MIX_MAXVOLUME,
            sample_rate,
            channels,
            device_name,
            obtained_sample_rate,
            obtained_channels,
            obtained_sample_format,
            requested_frames: plan.requested_frames,
            scratch: Vec::with_capacity(buffer_samples * 2),
        }
    }

    /// Queues decoded samples, interleaved in the session format. At volume 0
    /// nothing is queued.
    pub fn push(&mut self, samples: &[i16])
        requires
            old(self).wf(),
        ensures
            final(self).wf(),
            final(self)@ == old(self)@.push(samples@),
    {
        proof {
            self.decode_ring.wf_is_valid();
        }
        if samples.is_empty() {
            return;
        }
        if self.volume128 == 0 {
            return;
        }
        self.decode_ring.push(samples, u64::MAX);
        proof {
            self.decode_ring.wf_is_valid();
        }
    }

    /// Discards the second stage's backlog where it is over the latency limit,
    /// then moves samples from the first stage into the second, up to the
    /// second's target.
    pub fn drain(&mut self)
        requires
            old(self).wf(),
        ensures
            final(self).wf(),
            final(self)@ == old(self)@.drain(),
    {
        proof {
            self.decode_ring.wf_is_valid();
            self.device_ring.wf_is_valid();
        }
        drain_stages(
            &mut self.decode_ring,
            &mut self.device_ring,
            self.buffer_samples,
            &mut self.scratch,
        );
        proof {
            self.decode_ring.wf_is_valid();
            self.device_ring.wf_is_valid();
        }
    }

    /// One turn of the drain thread: unless it is told to stop, it drains, and
    /// sleeps only where the first stage is then empty.
    pub fn drain_turn(&mut self, stop: bool) -> (turn: DrainTurn)
        requires
            old(self).wf(),
        ensures
            final(self).wf(),
            final(self)@ == (if stop {
                old(self)@
            } else {
                old(self)@.drain()
            }),
            turn == (if stop {
                DrainTurn::Stop
            } else if old(self)@.drain().decode.queue.len() == 0 {
                DrainTurn::Wait
            } else {
                DrainTurn::Again
            }),
    {
        if stop {
            return DrainTurn::Stop;
        }
        self.drain();
        if self.decode_ring.fill() == 0 {
            DrainTurn::Wait
        } else {
            DrainTurn::Again
        }
    }

    /// Fills `pcm` for the device callback, in the session format: samples from
    /// the second stage, then silence, all at the current volume.
    pub fn render(&mut self, pcm: &mut [i16])
        requires
            old(self).wf(),
        ensures
            final(self).wf(),
            final(self)@ == old(self)@.render(old(pcm)@.len()),
            final(pcm)@ == old(self)@.sound(old(pcm)@.len()),
    {
        let mut i: usize = 0;
        while i < pcm.len()
            invariant
                0 <= i <= pcm@.len(),
                pcm@.len() == old(pcm)@.len(),
                forall|k: int| 0 <= k < i ==> #[trigger] pcm@[k] == 0i16,
            decreases pcm@.len() - i,
        {
            pcm[i] = 0;
            i = i + 1;
        }
        let ghost n = self@.device.playable(pcm@.len());
        assert(pcm@.skip(n as int) =~= Seq::new((pcm@.len() - n) as nat, |k: int| 0i16));
        self.device_ring.pull(pcm);
        proof {
            self.device_ring.wf_is_valid();
            scale_suits_all_samples(pcm@, self.volume128 as int);
        }
        apply_volume(pcm, self.volume128 as i32);
    }

    /// Sets the volume on the scale from 0 to 128; more than 128 counts as 128.
    pub fn set_volume(&mut self, volume128: u32)
        requires
            old(self).wf(),
        ensures
            final(self).wf(),
            final(self)@ == old(self)@.set_volume(volume128),
    {
        self.volume128 = if volume128 <= SDL_MIX_MAXVOLUME {
            volume128
        } else {
            SDL_MIX_MAXVOLUME
        };
    }

    /// The volume on the scale from 0 to 128.
    pub fn volume128(&self) -> (r: u32)
        ensures
            r == self@.volume128,
    {
        self.volume128
    }

    /// How many samples wait in the second stage. This is what the listener
    /// hears as latency.
    pub fn device_fill(&self) -> (r: u64)
        ensures
            r == self@.device.queue.len(),
    {
        self.device_ring.fill()
    }

    /// Whether the first stage has reported an overflow and was not empty since.
    pub fn overflow_warned(&self) -> (r: bool)
        ensures
            r == self@.decode.overflow_warned,
    {
        self.decode_ring.overflow_warned()
    }

    /// The session's sample rate and number of channels.
    pub fn session_format(&self) -> (r: (u32, u16))
        ensures
            r == (self@.sample_rate, self@.channels),
    {
        (self.sample_rate, self.channels)
    }

    /// Queued samples that were discarded in either stage, in total.
    pub fn dropped_samples(&self) -> (r: u64)
        ensures
            r == count(self@.decode.dropped, self@.device.dropped as nat),
    {
        self.decode_ring.dropped().wrapping_add(self.device_ring.dropped())
    }

    /// Samples handed to the first stage, in total.
    pub fn pushed_samples(&self) -> (r: u64)
        ensures
            r == self@.decode.pushed,
    {
        self.decode_ring.pushed()
    }

    /// Samples that the device callback took, in total.
    pub fn pulled_samples(&self) -> (r: u64)
        ensures
            r == self@.device.pulled,
    {
        self.device_ring.pulled()
    }

    /// Backlogs of the second stage that the latency guard discarded, in total.
    pub fn clears(&self) -> (r: u64)
        ensures
            r == self@.device.clears,
    {
        self.device_ring.clears()
    }

    /// Callbacks that had to play silence during playback, in total.
    pub fn underflows(&self) -> (r: u64)
        ensures
            r == self@.device.underflows,
    {
        self.device_ring.underflows()
    }

    /// The name of the device in use.
    pub fn device_name(&self) -> (r: &str)
        ensures
            r@ == self@.device_name,
    {
        self.device_name.as_str()
    }

    /// The sample rate, the number of channels and the sample format that were
    /// negotiated with the device.
    pub fn obtained_config(&self) -> (r: (u32, u16, SampleFormat))
        ensures
            r == (
                self@.obtained_sample_rate,
                self@.obtained_channels,
                self@.obtained_sample_format,
            ),
    {
        (self.obtained_sample_rate, self.obtained_channels, self.obtained_sample_format)
    }

    /// The period that was asked of the device, in frames.
    pub fn requested_buffer_frames(&self) -> (r: u32)
        ensures
            r == self@.requested_frames,
    {
        self.requested_frames
    }
}

} // verus!
