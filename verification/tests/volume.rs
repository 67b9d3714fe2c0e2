use chiaki_media::encode::{encode_u16, encode_u8, write_i16, write_u16, write_u8};
use chiaki_media::volume::{apply_volume, SDL_MIX_MAXVOLUME};

#[test]
fn volume_matches_sdl_mix_audio_format() {
    // sample * volume / 128, in integers
    let mut s = vec![1000i16, -2000, i16::MAX, i16::MIN];
    apply_volume(&mut s, 128);
    assert_eq!(s, vec![1000, -2000, i16::MAX, i16::MIN]);

    let mut s = vec![1000i16, -2000];
    apply_volume(&mut s, 64);
    assert_eq!(s, vec![500, -1000]);

    let mut s = vec![1234i16];
    apply_volume(&mut s, 0);
    assert_eq!(s, vec![0]);

    // Volumes below 128 stay within 16 bits.
    let mut s = vec![i16::MIN, i16::MAX];
    apply_volume(&mut s, 127);
    assert_eq!(s, vec![-32512, 32511]);
}

#[test]
fn volume_rounds_toward_zero() {
    let mut s = vec![1i16, -1, 3, -3];
    apply_volume(&mut s, 64);
    assert_eq!(s, vec![0, 0, 1, -1]);
}

#[test]
fn volume_beyond_the_scale_is_cut_to_sixteen_bits() {
    let mut s = vec![20000i16];
    apply_volume(&mut s, 256);
    assert_eq!(s, vec![-25536]);
    let mut s = vec![100i16];
    apply_volume(&mut s, -64);
    assert_eq!(s, vec![-50]);
}

#[test]
fn no_volume_on_the_scale_amplifies() {
    for volume in 0..=SDL_MIX_MAXVOLUME as i32 {
        let mut s = vec![i16::MIN, -1, 0, 1, i16::MAX];
        apply_volume(&mut s, volume);
        assert!(s[0] <= 0);
        assert!(s[1] == 0 || volume == 128);
        assert!(s[2] == 0);
        assert!(s[3] == 0 || volume == 128);
        assert!(s[4] >= 0);
    }
}

#[test]
fn unsigned_formats() {
    assert_eq!(encode_u16(i16::MIN), 0);
    assert_eq!(encode_u16(-1), 0x7fff);
    assert_eq!(encode_u16(0), 0x8000);
    assert_eq!(encode_u16(i16::MAX), 0xffff);
    assert_eq!(encode_u8(i16::MIN), 0);
    assert_eq!(encode_u8(-1), 127);
    assert_eq!(encode_u8(0), 128);
    assert_eq!(encode_u8(i16::MAX), 255);
}

#[test]
fn writing_reaches_as_far_as_both_slices() {
    let mut a = [9i16; 3];
    write_i16(&[-1, 2], &mut a);
    assert_eq!(a, [-1, 2, 9]);
    let mut b = [9u16; 3];
    write_u16(&[-1, 0], &mut b);
    assert_eq!(b, [0x7fff, 0x8000, 9]);
    let mut c = [9u8; 1];
    write_u8(&[256, 0], &mut c);
    assert_eq!(c, [129]);
}
