use chiaki_media::callback::CallbackPlan;
use chiaki_media::drain::drain_stages;
use chiaki_media::open::{next_step, OpenStep};
use chiaki_media::output::{AudioOutput, DrainTurn, SampleFormat};
use chiaki_media::ring::SampleRing;
use chiaki_media::sizes::{BufferPlan, DEFAULT_AUDIO_BUFFER_SIZE};

/// One buffer is four samples: rings of 32, a target of 8, a limit of 12.
fn output() -> AudioOutput {
    AudioOutput::new(
        String::from("Speakers"),
        48_000,
        2,
        8,
        44_100,
        6,
        SampleFormat::F32,
    )
}

fn numbered(from: i16, to: i16) -> Vec<i16> {
    (from..to).collect()
}

#[test]
fn default_buffer_is_fifty_milliseconds() {
    assert_eq!(DEFAULT_AUDIO_BUFFER_SIZE, 9600);
    let plan = BufferPlan::new(0, 2);
    assert_eq!(plan.buffer_samples, 4800);
    assert_eq!(plan.requested_frames, 2400);
    let plan = BufferPlan::new(4800, 1);
    assert_eq!(plan.buffer_samples, 2400);
    assert_eq!(plan.requested_frames, 2400);
}

#[test]
fn new_output_reports_what_it_was_given() {
    let out = output();
    assert_eq!(out.device_name(), "Speakers");
    assert_eq!(out.obtained_config(), (44_100, 6, SampleFormat::F32));
    assert_eq!(out.session_format(), (48_000, 2));
    assert_eq!(out.requested_buffer_frames(), 2);
    assert_eq!(out.volume128(), 128);
    assert_eq!(out.device_fill(), 0);
    assert_eq!(out.pushed_samples(), 0);
    assert_eq!(out.pulled_samples(), 0);
    assert_eq!(out.dropped_samples(), 0);
    assert_eq!(out.clears(), 0);
    assert_eq!(out.underflows(), 0);
}

#[test]
fn drain_fills_up_to_the_target() {
    let mut out = output();
    out.push(&numbered(0, 20));
    assert_eq!(out.drain_turn(false), DrainTurn::Again);
    assert_eq!(out.device_fill(), 8);
    // Nothing more to do until the device has played.
    assert_eq!(out.drain_turn(false), DrainTurn::Again);
    assert_eq!(out.device_fill(), 8);
    let mut pcm = [0i16; 6];
    out.render(&mut pcm);
    assert_eq!(pcm, [0, 1, 2, 3, 4, 5]);
    out.drain();
    assert_eq!(out.device_fill(), 8);
    assert_eq!(out.clears(), 0);
    assert_eq!(out.dropped_samples(), 0);
}

#[test]
fn drain_thread_waits_and_stops() {
    let mut out = output();
    assert_eq!(out.drain_turn(false), DrainTurn::Wait);
    out.push(&[1, 2, 3]);
    assert_eq!(out.drain_turn(true), DrainTurn::Stop);
    assert_eq!(out.device_fill(), 0);
    assert_eq!(out.drain_turn(false), DrainTurn::Wait);
    assert_eq!(out.device_fill(), 3);
}

#[test]
fn samples_are_heard_in_order_across_both_stages() {
    let mut out = output();
    let mut heard: Vec<i16> = Vec::new();
    let mut next: i16 = 1;
    for _ in 0..10 {
        out.push(&numbered(next, next + 7));
        next += 7;
        out.drain();
        let mut pcm = [0i16; 8];
        out.render(&mut pcm);
        heard.extend(pcm.iter().filter(|s| **s != 0));
    }
    assert!(heard.len() >= 40);
    assert_eq!(heard, numbered(1, 1 + heard.len() as i16));
    assert_eq!(out.dropped_samples(), 0);
    assert_eq!(out.pulled_samples(), heard.len() as u64);
    assert_eq!(out.pushed_samples(), 70);
}

#[test]
fn callback_plays_silence_until_prefilled() {
    let mut out = output();
    out.push(&[1, 2, 3, 4]);
    out.drain();
    let mut pcm = [9i16; 4];
    out.render(&mut pcm);
    assert_eq!(pcm, [0, 0, 0, 0]);
    assert_eq!(out.underflows(), 0);
    out.push(&[5, 6, 7, 8]);
    out.drain();
    let mut pcm = [9i16; 10];
    out.render(&mut pcm);
    assert_eq!(pcm, [1, 2, 3, 4, 5, 6, 7, 8, 0, 0]);
    assert_eq!(out.underflows(), 1);
}

#[test]
fn chunks_sound_like_one_callback() {
    let mut whole = output();
    let mut parts = output();
    whole.push(&numbered(1, 9));
    parts.push(&numbered(1, 9));
    whole.drain();
    parts.drain();
    let mut a = [0i16; 12];
    whole.render(&mut a);
    let mut b = [0i16; 12];
    parts.render(&mut b[..8]);
    parts.render(&mut b[8..]);
    assert_eq!(a, [1, 2, 3, 4, 5, 6, 7, 8, 0, 0, 0, 0]);
    assert_eq!(a, b);
}

#[test]
fn volume_is_applied_when_played() {
    let mut out = output();
    out.push(&[100, -100, 100, -100, 100, -100, 100, -100]);
    out.drain();
    out.set_volume(64);
    assert_eq!(out.volume128(), 64);
    let mut pcm = [0i16; 2];
    out.render(&mut pcm);
    assert_eq!(pcm, [50, -50]);
    out.set_volume(4000);
    assert_eq!(out.volume128(), 128);
    out.render(&mut pcm);
    assert_eq!(pcm, [100, -100]);
}

#[test]
fn muted_output_queues_nothing() {
    let mut out = output();
    out.set_volume(0);
    out.push(&[1, 2, 3]);
    assert_eq!(out.pushed_samples(), 0);
    assert_eq!(out.drain_turn(false), DrainTurn::Wait);
    assert_eq!(out.device_fill(), 0);
}

#[test]
fn burst_beyond_the_first_stage_drops_the_oldest() {
    let mut out = output();
    out.push(&numbered(0, 30));
    assert!(!out.overflow_warned());
    out.push(&numbered(30, 36));
    assert!(out.overflow_warned());
    assert_eq!(out.dropped_samples(), 4);
    out.drain();
    let mut pcm = [0i16; 2];
    out.render(&mut pcm);
    assert_eq!(pcm, [4, 5]);
    assert_eq!(
        out.pushed_samples(),
        out.dropped_samples() + out.pulled_samples() + 30
    );
}

#[test]
fn callback_buffers_follow_the_period() {
    let fixed = CallbackPlan::new(Some(480), 48_000, 2, 6);
    assert_eq!(fixed.scratch_len(), 960);
    assert_eq!(fixed.converted_len(), 2880);
    let own = CallbackPlan::new(None, 48_000, 2, 2);
    assert_eq!(own.scratch_len(), 960);
    let tiny = CallbackPlan::new(Some(16), 48_000, 1, 2);
    assert_eq!(tiny.scratch_len(), 240);
    assert_eq!(tiny.converted_len(), 480);
}

#[test]
fn callback_is_served_in_whole_frames() {
    let plan = CallbackPlan::new(Some(4), 400, 1, 3);
    assert_eq!(plan.converted_len(), 12);
    let first = plan.next_chunk(18, 0).unwrap();
    assert_eq!((first.start, first.end, first.frames), (0, 12, 4));
    assert_eq!((first.session_len, first.device_len), (4, 12));
    let last = plan.next_chunk(18, first.end).unwrap();
    assert_eq!((last.start, last.end, last.frames), (12, 18, 2));
    assert_eq!((last.session_len, last.device_len), (2, 6));
    assert!(plan.next_chunk(18, last.end).is_none());
    // A broken last frame is left alone.
    let odd = plan.next_chunk(5, 0).unwrap();
    assert_eq!((odd.end, odd.frames, odd.device_len), (5, 1, 3));
}

fn opened(succeeds: fn(OpenStep) -> bool) -> OpenStep {
    let mut step = OpenStep::ResolveDevice;
    for _ in 0..5 {
        step = next_step(step, succeeds(step));
    }
    step
}

#[test]
fn opening_falls_back_to_the_preferred_period() {
    assert_eq!(
        next_step(OpenStep::BuildRequested, false),
        OpenStep::BuildDefault
    );
    assert_eq!(opened(|_| true), OpenStep::Opened);
    assert_eq!(
        opened(|step| step != OpenStep::BuildRequested),
        OpenStep::Opened
    );
}

#[test]
fn opening_reports_failures() {
    assert_eq!(
        opened(|step| step != OpenStep::ResolveDevice),
        OpenStep::FailedWithCause
    );
    assert_eq!(
        opened(|step| step != OpenStep::PickConfig),
        OpenStep::FailedWithCause
    );
    assert_eq!(
        opened(|step| step != OpenStep::BuildRequested && step != OpenStep::BuildDefault),
        OpenStep::FailedUnknown
    );
    assert_eq!(
        opened(|step| step != OpenStep::Play),
        OpenStep::FailedUnknown
    );
}

#[test]
fn late_backlog_is_discarded_by_the_drain() {
    let mut decode = SampleRing::new(32, 0);
    let mut device = SampleRing::new(32, 8);
    let mut scratch = Vec::new();
    // Three buffers of four samples are still in time.
    device.push(&numbered(0, 12), u64::MAX);
    decode.push(&numbered(50, 60), u64::MAX);
    drain_stages(&mut decode, &mut device, 4, &mut scratch);
    assert_eq!(device.fill(), 12);
    assert_eq!(device.clears(), 0);
    assert!(scratch.is_empty());
    // One sample more is not.
    device.push(&[12], u64::MAX);
    drain_stages(&mut decode, &mut device, 4, &mut scratch);
    assert_eq!(device.clears(), 1);
    assert_eq!(device.dropped(), 13);
    assert_eq!(device.fill(), 8);
    assert_eq!(decode.fill(), 2);
    let mut out = [0i16; 8];
    assert_eq!(device.pull(&mut out), 8);
    assert_eq!(out, [50, 51, 52, 53, 54, 55, 56, 57]);
}

#[test]
fn order_survives_changes_of_the_volume() {
    let mut out = output();
    out.push(&numbered(1, 7));
    out.drain();
    out.set_volume(0);
    // Nothing is taken in while muted.
    out.push(&numbered(100, 110));
    out.drain();
    out.set_volume(64);
    out.push(&[14, 16, 18, 20]);
    out.drain();
    out.set_volume(128);
    let mut pcm = [0i16; 4];
    out.render(&mut pcm);
    assert_eq!(pcm, [1, 2, 3, 4]);
    out.set_volume(64);
    out.drain();
    let mut pcm = [9i16; 7];
    out.render(&mut pcm);
    assert_eq!(pcm, [2, 3, 7, 8, 9, 10, 0]);
    assert_eq!(out.pushed_samples(), 10);
    assert_eq!(out.pulled_samples(), 10);
    assert_eq!(out.dropped_samples(), 0);
}

#[test]
fn totals_never_exceed_what_was_taken_in() {
    let mut out = output();
    out.push(&numbered(0, 3));
    // More at once than the first stage holds: its head is not counted.
    out.push(&numbered(0, 40));
    assert_eq!(out.pushed_samples(), 43);
    assert_eq!(out.dropped_samples(), 3);
    out.drain();
    let mut pcm = [0i16; 5];
    out.render(&mut pcm);
    assert_eq!(pcm, [8, 9, 10, 11, 12]);
    let waiting = 27;
    assert!(out.pulled_samples() + out.dropped_samples() + waiting < out.pushed_samples());
}

#[test]
fn overflow_leaves_gaps_but_keeps_order() {
    let mut out = output();
    let mut heard: Vec<i16> = Vec::new();
    let mut next: i16 = 1;
    for _ in 0..12 {
        out.push(&numbered(next, next + 20));
        next += 20;
        out.drain();
        let mut pcm = [0i16; 8];
        out.render(&mut pcm);
        heard.extend(pcm.iter().filter(|s| **s != 0));
    }
    assert_eq!(heard.len(), 96);
    assert!(heard.windows(2).all(|pair| pair[0] < pair[1]));
    assert!(out.dropped_samples() > 0);
}
