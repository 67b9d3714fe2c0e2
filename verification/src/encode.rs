//! Samples in the integer formats of devices.

use vstd::prelude::*;

verus! {

/// An unsigned 16-bit sample: the same height above the lowest value.
pub open spec fn as_u16(sample: i16) -> u16 {
    (sample + 0x8000) as u16
}

/// An unsigned 8-bit sample: the upper half of the unsigned 16-bit one.
pub open spec fn as_u8(sample: i16) -> u8 {
    ((sample + 0x8000) / 0x100) as u8
}

/// Converts one sample to unsigned 16 bits.
pub fn encode_u16(sample: i16) -> (r: u16)
    ensures
        r == as_u16(sample),
{
    assert((#[verifier::truncate] (sample as u16)) ^ 0x8000u16 == sample + 0x8000) by (bit_vector);
    (#[verifier::truncate] (sample as u16)) ^ 0x8000
}

/// Converts one sample to unsigned 8 bits.
pub fn encode_u8(sample: i16) -> (r: u8)
    ensures
        r == as_u8(sample),
{
    assert(-128 <= (sample >> 8u32) <= 127 && (sample >> 8u32) + 128 == (sample + 0x8000) / 0x100)
        by (bit_vector);
    ((sample >> 8) as i32 + 128) as u8
}

/// Writes `src` to the front of `dst` as it is, as far as both reach.
pub fn write_i16(src: &[i16], dst: &mut [i16])
    ensures
        final(dst)@.len() == old(dst)@.len(),
        forall|i: int|
            0 <= i < old(dst)@.len() ==> #[trigger] final(dst)@[i] == (if i < src@.len() {
                src@[i]
            } else {
                old(dst)@[i]
            }),
{
    let mut i: usize = 0;
    while i < src.len() && i < dst.len()
        invariant
            0 <= i <= src@.len(),
            i <= dst@.len(),
            dst@.len() == old(dst)@.len(),
            forall|k: int|
                0 <= k < dst@.len() ==> #[trigger] dst@[k] == (if k < i {
                    src@[k]
                } else {
                    old(dst)@[k]
                }),
        decreases src@.len() - i,
    {
        dst[i] = src[i];
        i = i + 1;
    }
}

/// Writes `src` to the front of `dst` as unsigned 16-bit samples, as far as both
/// reach.
pub fn write_u16(src: &[i16], dst: &mut [u16])
    ensures
        final(dst)@.len() == old(dst)@.len(),
        forall|i: int|
            0 <= i < old(dst)@.len() ==> #[trigger] final(dst)@[i] == (if i < src@.len() {
                as_u16(src@[i])
            } else {
                old(dst)@[i]
            }),
{
    let mut i: usize = 0;
    while i < src.len() && i < dst.len()
        invariant
            0 <= i <= src@.len(),
            i <= dst@.len(),
            dst@.len() == old(dst)@.len(),
            forall|k: int|
                0 <= k < dst@.len() ==> #[trigger] dst@[k] == (if k < i {
                    as_u16(src@[k])
                } else {
                    old(dst)@[k]
                }),
        decreases src@.len() - i,
    {
        dst[i] = encode_u16(src[i]);
        i = i + 1;
    }
}

/// Writes `src` to the front of `dst` as unsigned 8-bit samples, as far as both
/// reach.
pub fn write_u8(src: &[i16], dst: &mut [u8])
    ensures
        final(dst)@.len() == old(dst)@.len(),
        forall|i: int|
            0 <= i < old(dst)@.len() ==> #[trigger] final(dst)@[i] == (if i < src@.len() {
                as_u8(src@[i])
            } else {
                old(dst)@[i]
            }),
{
    let mut i: usize = 0;
    while i < src.len() && i < dst.len()
        invariant
            0 <= i <= src@.len(),
            i <= dst@.len(),
            dst@.len() == old(dst)@.len(),
            forall|k: int|
                0 <= k < dst@.len() ==> #[trigger] dst@[k] == (if k < i {
                    as_u8(src@[k])
                } else {
                    old(dst)@[k]
                }),
        decreases src@.len() - i,
    {
        dst[i] = encode_u8(src[i]);
        i = i + 1;
    }
}

} // verus!
