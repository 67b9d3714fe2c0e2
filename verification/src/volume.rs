//! Volume on a scale from 0 to 128.

use vstd::prelude::*;

verus! {

/// Full volume on the scale of `settings/audio_volume` (0 to 128): samples pass
/// unchanged.
pub const SDL_MIX_MAXVOLUME: u32 = 128;

/// `n / d`, rounded toward zero.
pub open spec fn toward_zero(n: int, d: int) -> int {
    if n >= 0 {
        n / d
    } else {
        -((-n) / d)
    }
}

/// One sample at a volume: `sample * volume128 / 128` in integers, cut to 16
/// bits; full volume leaves the sample alone.
pub open spec fn scaled(sample: i16, volume128: int) -> i16 {
    if volume128 == SDL_MIX_MAXVOLUME {
        sample
    } else {
        #[verifier::truncate]
        (toward_zero(sample * volume128, SDL_MIX_MAXVOLUME as int) as i16)
    }
}

/// Each of `samples` at a volume.
pub open spec fn all_scaled(samples: Seq<i16>, volume128: int) -> Seq<i16> {
    Seq::new(samples.len(), |i: int| scaled(samples[i], volume128))
}

/// The product of each sample and the volume fits 32 bits.
pub open spec fn scalable(samples: Seq<i16>, volume128: int) -> bool {
    forall|i: int|
        0 <= i < samples.len() ==> i32::MIN <= #[trigger] samples[i] * volume128 <= i32::MAX
}

/// Sets `samples` to the given volume. Volumes from 0 to 128 suit all samples;
/// others only where the products stay within 32 bits.
pub fn apply_volume(samples: &mut [i16], volume128: i32)
    requires
        volume128 == SDL_MIX_MAXVOLUME || scalable(old(samples)@, volume128 as int),
    ensures
        final(samples)@ == all_scaled(old(samples)@, volume128 as int),
{
    if volume128 == SDL_MIX_MAXVOLUME as i32 {
        assert(samples@ =~= all_scaled(samples@, volume128 as int));
        return;
    }
    let mut i: usize = 0;
    while i < samples.len()
        invariant
            0 <= i <= samples@.len(),
            samples@.len() == old(samples)@.len(),
            volume128 != SDL_MIX_MAXVOLUME,
            scalable(old(samples)@, volume128 as int),
            forall|k: int|
                0 <= k < i ==> #[trigger] samples@[k] == scaled(old(samples)@[k], volume128 as int),
            forall|k: int| i <= k < samples@.len() ==> #[trigger] samples@[k] == old(samples)@[k],
        decreases samples@.len() - i,
    {
        let sample: i32 = samples[i] as i32;
        assert(old(samples)@[i as int] * volume128 == sample * volume128);
        samples[i] = #[verifier::truncate]
        ((sample * volume128 / SDL_MIX_MAXVOLUME as i32) as i16);
        i = i + 1;
    }
    assert(samples@ =~= all_scaled(old(samples)@, volume128 as int));
}

/// Within the scale no product leaves 32 bits, whatever the samples.
pub proof fn scale_suits_all_samples(samples: Seq<i16>, volume128: int)
    requires
        0 <= volume128 <= SDL_MIX_MAXVOLUME,
    ensures
        scalable(samples, volume128),
{
    assert forall|i: int| 0 <= i < samples.len() implies i32::MIN <= #[trigger] samples[i]
        * volume128 <= i32::MAX by {
        let s: int = samples[i] as int;
        assert(-0x8000 * 128 <= s * volume128 <= 0x8000 * 128) by (nonlinear_arith)
            requires
                -0x8000 <= s <= 0x7fff,
                0 <= volume128 <= 128,
        ;
    }
}

} // verus!
