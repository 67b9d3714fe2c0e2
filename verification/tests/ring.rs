use chiaki_media::ring::SampleRing;

fn ring(capacity: usize) -> SampleRing {
    SampleRing::new(capacity, 0)
}

#[test]
fn ring_push_pull_roundtrip_across_wraparound() {
    let mut r = ring(8);
    r.push(&[1, 2, 3, 4, 5, 6], 1000);
    let mut out = [0i16; 4];
    assert_eq!(r.pull(&mut out), 4);
    assert_eq!(out, [1, 2, 3, 4]);

    // Go on writing past the end of the buffer.
    r.push(&[7, 8, 9, 10, 11, 12], 1000);
    let mut out = [0i16; 8];
    assert_eq!(r.pull(&mut out), 8);
    assert_eq!(out, [5, 6, 7, 8, 9, 10, 11, 12]);
    assert_eq!(r.fill(), 0);
}

#[test]
fn ring_pull_leaves_tail_untouched_on_underflow() {
    let mut r = ring(8);
    r.push(&[1, 2, 3], 1000);
    let mut out = [0x55u16 as i16; 8];
    assert_eq!(r.pull(&mut out), 3);
    assert_eq!(&out[..3], &[1, 2, 3]);
    assert_eq!(&out[3..], &[0x55; 5]);
    assert_eq!(r.underflows(), 1);
}

#[test]
fn ring_overflow_drops_oldest_and_warns_once() {
    let mut r = ring(8);
    r.push(&[1, 2, 3, 4, 5, 6, 7, 8], 1000);
    // Full, and four more: the four oldest go.
    r.push(&[9, 10, 11, 12], 1000);
    assert_eq!(r.dropped(), 4);
    assert!(r.overflow_warned());
    let mut out = [0i16; 8];
    assert_eq!(r.pull(&mut out), 8);
    assert_eq!(out, [5, 6, 7, 8, 9, 10, 11, 12]);

    // Reported once; reset once the ring was empty.
    r.push(&[13, 14, 15, 16], 1000);
    let mut out = [0i16; 4];
    r.pull(&mut out);
    assert!(!r.overflow_warned());
}

#[test]
fn ring_data_larger_than_capacity_keeps_tail_and_resets() {
    let mut r = ring(4);
    r.push(&[1, 2, 3, 4, 5, 6], 1000);
    let mut out = [0i16; 4];
    assert_eq!(r.pull(&mut out), 4);
    assert_eq!(out, [3, 4, 5, 6]);
}

#[test]
fn ring_clear_threshold_drops_backlog_like_cpp_queue_clear() {
    let mut r = ring(16);
    // A fill of more than 8 samples triggers the clear.
    r.push(&[1, 2, 3, 4], 8);
    r.push(&[5, 6, 7, 8], 8);
    r.push(&[9, 10, 11, 12], 8); // 8 queued is not more than 8
    let mut out = [0i16; 16];
    assert_eq!(r.pull(&mut out), 12);
    assert_eq!(&out[..12], &[1, 2, 3, 4, 5, 6, 7, 8, 9, 10, 11, 12]);

    // A backlog over the threshold goes with the next push.
    r.push(&[1, 2, 3, 4], 8);
    r.push(&[5, 6, 7, 8], 8);
    r.push(&[9, 10, 11, 12], 8);
    r.push(&[21, 22, 23, 24], 8); // 12 queued: cleared first
    r.push(&[31, 32, 33, 34], 8);
    let mut out2 = [0i16; 16];
    let got = r.pull(&mut out2);
    assert_eq!(got, 8);
    assert_eq!(&out2[..got], &[21, 22, 23, 24, 31, 32, 33, 34]);
}

#[test]
fn ring_is_quiet_when_empty_and_flags_reset() {
    let mut r = ring(4);
    let mut out = [0i16; 4];
    assert_eq!(r.pull(&mut out), 0);
    assert_eq!(r.underflows(), 1);
    r.push(&[1, 2], 1000);
    r.push(&[3, 4, 5], 1000); // one too many: the oldest goes
    assert!(r.overflow_warned());
    let mut four = [0i16; 4];
    assert_eq!(r.pull(&mut four), 4);
    assert_eq!(four, [2, 3, 4, 5]);
    assert!(!r.overflow_warned());
}

#[test]
fn ring_prefills_before_playing_and_reprimes_after_underrun() {
    let mut r = SampleRing::new(16, 8);
    let mut out = [0i16; 4];

    // Below the prefill: silence, and no underflow.
    r.push(&[1, 2, 3, 4], 1000);
    assert_eq!(r.pull(&mut out), 0);
    assert_eq!(r.underflows(), 0);

    // Prefill reached.
    r.push(&[5, 6, 7, 8], 1000);
    assert_eq!(r.pull(&mut out), 4);
    assert_eq!(out, [1, 2, 3, 4]);
    assert_eq!(r.pull(&mut out), 4);
    assert_eq!(out, [5, 6, 7, 8]);
    // Played empty: silence until eight are there again.
    assert_eq!(r.pull(&mut out), 0);
    assert_eq!(r.underflows(), 0);
    r.push(&[9, 10, 11, 12], 1000);
    assert_eq!(r.pull(&mut out), 0, "unter Prefill wieder still");
    r.push(&[13, 14, 15, 16], 1000);
    assert_eq!(r.pull(&mut out), 4);
    assert_eq!(out, [9, 10, 11, 12]);
    assert_eq!(r.pull(&mut out), 4);
    assert_eq!(out, [13, 14, 15, 16]);
    assert_eq!(r.underflows(), 0);

    // An underflow during playback is counted.
    r.push(&[17, 18, 19, 20], 1000);
    r.push(&[21, 22, 23, 24], 1000);
    let mut big = [0i16; 16];
    assert_eq!(r.pull(&mut big), 8);
    assert_eq!(&big[..8], &[17, 18, 19, 20, 21, 22, 23, 24]);
    assert_eq!(r.underflows(), 1);
    // Silence while priming is not.
    assert_eq!(r.pull(&mut big), 0);
    assert_eq!(r.underflows(), 1);
}

#[test]
fn ring_clear_resets_prime_state() {
    let mut r = SampleRing::new(16, 8);
    let mut out = [0i16; 2];
    r.push(&[1, 2, 3, 4], 4);
    r.push(&[5, 6, 7, 8], 4);
    r.pull(&mut out);
    // Six queued is more than four: cleared, then pushed.
    r.push(&[9, 10, 11, 12], 4);
    assert_eq!(r.pull(&mut out), 0, "nach Clear wird neu geprimed");
    r.push(&[13, 14, 15, 16], 4);
    assert_eq!(r.pull(&mut out), 2);
    assert_eq!(out, [9, 10]);
}

#[test]
fn two_stage_drain_preserves_order() {
    let mut decode = ring(64);
    let mut device = SampleRing::new(64, 0);
    let mut scratch: Vec<i16> = Vec::new();

    // A burst arrives.
    decode.push(&[1, 2, 3, 4, 5, 6, 7, 8, 9, 10], u64::MAX);

    let got = decode.pop(4, &mut scratch);
    assert_eq!(got, 4);
    device.push(&scratch, u64::MAX);

    let mut out = [0i16; 4];
    assert_eq!(device.pull(&mut out), 4);
    assert_eq!(out, [1, 2, 3, 4]);

    // The rest.
    let got = decode.pop(8, &mut scratch);
    assert_eq!(got, 6);
    device.push(&scratch, u64::MAX);
    let mut out = [0i16; 8];
    assert_eq!(device.pull(&mut out), 6);
    assert_eq!(&out[..6], &[5, 6, 7, 8, 9, 10]);
    assert_eq!(decode.fill(), 0);
}

#[test]
fn empty_push_changes_nothing() {
    let mut r = SampleRing::new(4, 0);
    r.push(&[1, 2, 3], 1000);
    r.push(&[], 0);
    assert_eq!(r.fill(), 3);
    assert_eq!(r.pushed(), 3);
    assert_eq!(r.clears(), 0);
}

#[test]
fn ring_without_slots_counts_but_holds_nothing() {
    let mut r = SampleRing::new(0, 0);
    r.push(&[1, 2, 3], 0);
    assert_eq!(r.pushed(), 3);
    assert_eq!(r.dropped(), 0);
    assert_eq!(r.fill(), 0);
    let mut out = [7i16; 2];
    assert_eq!(r.pull(&mut out), 0);
    assert_eq!(out, [7, 7]);
    assert_eq!(r.underflows(), 1);
    let mut popped = vec![9i16];
    assert_eq!(r.pop(5, &mut popped), 0);
    assert!(popped.is_empty());
}

#[test]
fn overflow_report_stands_until_the_ring_is_empty() {
    let mut r = ring(4);
    r.push(&[1, 2, 3], 1000);
    r.push(&[4, 5], 1000);
    assert!(r.overflow_warned());
    let mut one = [0i16; 1];
    assert_eq!(r.pull(&mut one), 1);
    assert_eq!(one, [2]);
    assert!(r.overflow_warned());
    let mut popped = Vec::new();
    assert_eq!(r.pop(1, &mut popped), 1);
    assert_eq!(popped, [3]);
    assert!(r.overflow_warned());
    assert_eq!(r.pop(10, &mut popped), 2);
    assert_eq!(popped, [4, 5]);
    assert!(!r.overflow_warned());
}

#[test]
fn oversized_push_counts_only_what_was_queued_as_dropped() {
    let mut r = ring(4);
    r.push(&[1, 2, 3], 1000);
    r.push(&[4, 5, 6, 7, 8, 9], 1000);
    assert_eq!(r.dropped(), 3);
    assert_eq!(r.pushed(), 9);
    assert!(!r.overflow_warned());
    let mut out = [0i16; 4];
    assert_eq!(r.pull(&mut out), 4);
    assert_eq!(out, [6, 7, 8, 9]);
    assert_eq!(r.pulled(), 4);
}

#[test]
fn cleared_backlog_is_counted_and_primes_anew() {
    let mut r = SampleRing::new(8, 2);
    r.push(&[1, 2, 3], 1000);
    r.clear_backlog();
    assert_eq!(r.fill(), 0);
    assert_eq!(r.dropped(), 3);
    assert_eq!(r.clears(), 1);
    r.push(&[4], 1000);
    let mut out = [0i16; 2];
    assert_eq!(r.pull(&mut out), 0);
    r.push(&[5], 1000);
    assert_eq!(r.pull(&mut out), 2);
    assert_eq!(out, [4, 5]);
}

#[test]
fn threshold_clear_counts_the_backlog() {
    let mut r = SampleRing::new(8, 0);
    r.push(&[1, 2, 3], 2);
    r.push(&[4], 2);
    assert_eq!(r.clears(), 1);
    assert_eq!(r.dropped(), 3);
    assert_eq!(r.fill(), 1);
}

#[test]
fn queue_does_not_depend_on_bursts() {
    let mut apart = ring(5);
    apart.push(&[1, 2, 3], u64::MAX);
    apart.push(&[4, 5, 6, 7], u64::MAX);
    let mut together = ring(5);
    together.push(&[1, 2, 3, 4, 5, 6, 7], u64::MAX);
    let mut a = Vec::new();
    let mut b = Vec::new();
    apart.pop(5, &mut a);
    together.pop(5, &mut b);
    assert_eq!(a, [3, 4, 5, 6, 7]);
    assert_eq!(a, b);
}
