//! How a device callback is served: in chunks of whole frames, each no longer
//! than one period.

use vstd::prelude::*;

verus! {

/// The longest run of frames that is served at once: the fixed period, or 10 ms
/// where the device chooses its own, and in any case 5 ms.
pub open spec fn max_frames(fixed_frames: Option<u32>, sample_rate: u32) -> nat {
    let period = match fixed_frames {
        Some(frames) => frames as nat,
        None => (sample_rate / 100) as nat,
    };
    let least = (sample_rate / 200) as nat;
    if period >= least {
        period
    } else {
        least
    }
}

/// A part of a callback's output.
pub struct Chunk {
    /// Where the chunk starts in the output.
    pub start: usize,
    /// Where it ends.
    pub end: usize,
    /// The whole frames in it.
    pub frames: usize,
    /// The samples of those frames in the session format.
    pub session_len: usize,
    /// The samples of those frames in the device format: what of the chunk is
    /// written.
    pub device_len: usize,
}

/// The buffers that a callback works with.
pub struct CallbackPlan {
    max_frames: usize,
    session_channels: usize,
    device_channels: usize,
}

impl CallbackPlan {
    /// The frames of the longest run.
    pub closed spec fn frames(self) -> nat {
        self.max_frames as nat
    }

    /// The channels of the session.
    pub closed spec fn session(self) -> nat {
        self.session_channels as nat
    }

    /// The channels of the device.
    pub closed spec fn device(self) -> nat {
        self.device_channels as nat
    }

    /// Both buffers fit in memory, at two bytes per sample.
    pub open spec fn wf(self) -> bool {
        &&& self.frames() * self.session() * 2 <= isize::MAX
        &&& self.frames() * self.device() * 2 <= isize::MAX
    }

    /// The plan for a stream: `fixed_frames` is its period where one is fixed,
    /// `sample_rate` and `device_channels` are the device's, and
    /// `session_channels` is the number of channels in which samples arrive.
    pub fn new(
        fixed_frames: Option<u32>,
        sample_rate: u32,
        session_channels: u16,
        device_channels: u16,
    ) -> (plan: CallbackPlan)
        requires
            max_frames(fixed_frames, sample_rate) * session_channels * 2 <= isize::MAX,
            max_frames(fixed_frames, sample_rate) * device_channels * 2 <= isize::MAX,
        ensures
            plan.wf(),
            plan.frames() == max_frames(fixed_frames, sample_rate),
            plan.session() == session_channels,
            plan.device() == device_channels,
    {
        let period: u32 = match fixed_frames {
            Some(frames) => frames,
            None => sample_rate / 100,
        };
        let least: u32 = sample_rate / 200;
        CallbackPlan {
            max_frames: if period >= least {
                period as usize
            } else {
                least as usize
            },
            session_channels: session_channels as usize,
            device_channels: device_channels as usize,
        }
    }

    /// The samples of the longest run in the session format.
    pub fn scratch_len(&self) -> (r: usize)
        requires
            self.wf(),
        ensures
            r == self.frames() * self.session(),
    {
        self.max_frames * self.session_channels
    }

    /// The samples of the longest run in the device format: the longest chunk.
    pub fn converted_len(&self) -> (r: usize)
        requires
            self.wf(),
        ensures
            r == self.frames() * self.device(),
    {
        self.max_frames * self.device_channels
    }

    /// Where the chunk that starts at `pos` of `out_len` samples ends.
    pub open spec fn chunk_end(self, out_len: nat, pos: nat) -> nat {
        if out_len - pos <= self.frames() * self.device() {
            out_len
        } else {
            pos + self.frames() * self.device()
        }
    }

    /// The chunk of an output of `out_len` samples that starts at `pos`, or
    /// nothing where the output is served.
    pub fn next_chunk(&self, out_len: usize, pos: usize) -> (r: Option<Chunk>)
        requires
            self.wf(),
            self.frames() > 0,
            self.device() > 0,
            pos <= out_len,
        ensures
            r is None <==> pos == out_len,
            r matches Some(chunk) ==> {
                &&& chunk.start == pos
                &&& chunk.end == self.chunk_end(out_len as nat, pos as nat)
                &&& chunk.start < chunk.end <= out_len
                &&& chunk.frames == (chunk.end - chunk.start) / self.device() as int
                &&& chunk.frames <= self.frames()
                &&& chunk.session_len == chunk.frames * self.session()
                &&& chunk.session_len <= self.frames() * self.session()
                &&& chunk.device_len == chunk.frames * self.device()
                &&& chunk.device_len <= chunk.end - chunk.start
            },
    {
        if pos == out_len {
            return None;
        }
        let longest: usize = self.converted_len();
        proof {
            assert(self.frames() * self.device() > 0) by (nonlinear_arith)
                requires
                    self.frames() > 0,
                    self.device() > 0,
            ;
        }
        let len: usize = if out_len - pos <= longest {
            out_len - pos
        } else {
            longest
        };
        let frames: usize = len / self.device_channels;
        proof {
            let d: int = self.device() as int;
            let f: int = self.frames() as int;
            let s: int = self.session() as int;
            vstd::arithmetic::div_mod::lemma_fundamental_div_mod(len as int, d);
            assert(frames <= f) by (nonlinear_arith)
                requires
                    len <= f * d,
                    len == d * (frames as int) + len as int % d,
                    0 <= len as int % d,
                    d > 0,
            ;
            assert(frames * s <= f * s) by (nonlinear_arith)
                requires
                    frames <= f,
                    s >= 0,
            ;
            assert(frames * d == d * frames) by (nonlinear_arith);
        }
        Some(
            Chunk {
                start: pos,
                end: pos + len,
                frames,
                session_len: frames * self.session_channels,
                device_len: frames * self.device_channels,
            },
        )
    }
}

} // verus!
