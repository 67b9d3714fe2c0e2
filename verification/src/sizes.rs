//! Sizes that follow from the configured audio buffer size, which counts bytes
//! of 16-bit samples.

use vstd::prelude::*;

verus! {

/// The buffer size in bytes where none is configured: 2400 stereo frames, 50 ms
/// at 48 kHz.
pub const DEFAULT_AUDIO_BUFFER_SIZE: u32 = 9600;

/// The buffer size in force for the configured one: 0 stands for the default.
pub open spec fn effective_size(buffer_size: u32) -> u32 {
    if buffer_size == 0 {
        DEFAULT_AUDIO_BUFFER_SIZE
    } else {
        buffer_size
    }
}

/// The whole samples in one buffer.
pub open spec fn samples_per_buffer(buffer_size: u32) -> nat {
    (effective_size(buffer_size) / 2) as nat
}

/// The slots of each ring: eight buffers.
pub open spec fn ring_capacity(buffer_samples: nat) -> nat {
    buffer_samples * 8
}

/// How far the device side is filled up, and what must be there before playback
/// starts: two buffers.
pub open spec fn drain_target(buffer_samples: nat) -> nat {
    buffer_samples * 2
}

/// How much may wait on the device side: three buffers.
pub open spec fn latency_limit(buffer_samples: nat) -> nat {
    buffer_samples * 3
}

/// A ring for this buffer size fits in memory, at two bytes per sample.
pub open spec fn ring_fits(buffer_size: u32) -> bool {
    ring_capacity(samples_per_buffer(buffer_size)) * 2 <= isize::MAX
}

/// The sizes that are needed to open a device.
pub struct BufferPlan {
    /// Samples in one buffer.
    pub buffer_samples: usize,
    /// Frames in one buffer: the period to ask of the device.
    pub requested_frames: u32,
}

impl BufferPlan {
    /// The sizes for a configured buffer size (0: the default) and a number of
    /// channels.
    pub fn new(buffer_size: u32, channels: u16) -> (plan: BufferPlan)
        requires
            channels > 0,
        ensures
            plan.buffer_samples == samples_per_buffer(buffer_size),
            plan.requested_frames == effective_size(buffer_size) as int / (2 * channels),
    {
        let buffer_size: u32 = if buffer_size == 0 {
            DEFAULT_AUDIO_BUFFER_SIZE
        } else {
            buffer_size
        };
        BufferPlan {
            buffer_samples: buffer_size as usize / 2,
            requested_frames: buffer_size / (2 * channels as u32),
        }
    }
}

} // verus!
