use voice_service::events::{PLAYBACK_ERROR, PLAYBACK_FINISHED};
use voice_service::playback::{
    decode_s16le, sat_inc, should_log_underrun, silence_frame, terminal_event_type,
    PlaybackFailure, PlaybackTicker, TickOutcome, FRAME_BYTES, PREBUFFER_FRAMES,
    UNDERRUN_FAIL_FRAMES,
};

fn frame_of(byte: u8) -> Vec<u8> {
    std::iter::repeat(byte).take(FRAME_BYTES).collect()
}

#[test]
fn prebuffer_holds_until_five_frames() {
    let mut t = PlaybackTicker::new();
    for n in 0..PREBUFFER_FRAMES - 1 {
        t.absorb_frame(frame_of(n as u8));
        assert!(matches!(t.tick(false, 20), TickOutcome::Prebuffer));
    }
    t.absorb_frame(frame_of(9));
    // now five frames are buffered (the earlier prebuffer ticks consumed none)
    match t.tick(false, 100) {
        TickOutcome::EmitReal { frame, fade_start } => {
            assert_eq!(frame.len(), FRAME_BYTES);
            assert_eq!(fade_start, 0);
        }
        other => panic!("expected a real frame, got {:?}", other),
    }
}

#[test]
fn each_running_tick_emits_one_packet() {
    let mut t = PlaybackTicker::new();
    for _ in 0..PREBUFFER_FRAMES {
        t.absorb_frame(frame_of(1));
    }
    let mut packets = 0;
    for _ in 0..10 {
        match t.tick(false, 200) {
            TickOutcome::EmitReal { .. } | TickOutcome::EmitSilence => packets += 1,
            other => panic!("expected a packet, got {:?}", other),
        }
    }
    assert_eq!(packets, 10);
}

#[test]
fn fade_cursor_advances_only_on_real_frames() {
    let mut t = PlaybackTicker::new();
    for _ in 0..PREBUFFER_FRAMES {
        t.absorb_frame(frame_of(1));
    }
    assert!(matches!(t.tick(false, 100), TickOutcome::EmitReal { fade_start: 0, .. }));
    assert!(matches!(t.tick(false, 120), TickOutcome::EmitReal { fade_start: 960, .. }));
    // an underrun keeps the fade where it is
    assert!(matches!(t.tick(false, 140), TickOutcome::EmitReal { fade_start: 1920, .. }));
    assert!(matches!(t.tick(false, 160), TickOutcome::EmitReal { fade_start: 2880, .. }));
    assert!(matches!(t.tick(false, 180), TickOutcome::EmitReal { fade_start: 3840, .. }));
}

#[test]
fn stream_end_finishes_exactly_once() {
    let mut t = PlaybackTicker::new();
    for _ in 0..PREBUFFER_FRAMES {
        t.absorb_frame(frame_of(1));
    }
    for _ in 0..PREBUFFER_FRAMES {
        assert!(matches!(t.tick(true, 100), TickOutcome::EmitReal { .. }));
    }
    let end = t.tick(true, 300);
    assert!(matches!(end, TickOutcome::Finish));
    assert!(t.terminal);
    assert_eq!(terminal_event_type(&end), Some(PLAYBACK_FINISHED));
}

#[test]
fn eof_before_any_frame_fails() {
    let mut t = PlaybackTicker::new();
    let out = t.tick(true, 40);
    assert!(matches!(out, TickOutcome::Fail(PlaybackFailure::NoPcm)));
    assert_eq!(terminal_event_type(&out), Some(PLAYBACK_ERROR));
}

#[test]
fn silence_without_any_pcm_fails_after_five_seconds() {
    let mut t = PlaybackTicker::new();
    assert!(matches!(t.tick(false, 4999), TickOutcome::Prebuffer));
    assert!(matches!(t.tick(false, 5000), TickOutcome::Fail(PlaybackFailure::NoPcm)));
}

#[test]
fn sustained_underrun_fails_at_threshold() {
    let mut t = PlaybackTicker::new();
    for _ in 0..PREBUFFER_FRAMES {
        t.absorb_frame(frame_of(1));
    }
    for _ in 0..PREBUFFER_FRAMES {
        assert!(matches!(t.tick(false, 100), TickOutcome::EmitReal { .. }));
    }
    for n in 1..UNDERRUN_FAIL_FRAMES {
        let out = t.tick(false, 200);
        assert!(matches!(out, TickOutcome::EmitSilence), "tick {} gave {:?}", n, out);
    }
    let out = t.tick(false, 200);
    assert!(matches!(out, TickOutcome::Fail(PlaybackFailure::SustainedUnderrun)));
    assert_eq!(t.underruns_total, UNDERRUN_FAIL_FRAMES);
}

#[test]
fn real_frame_resets_consecutive_underruns() {
    let mut t = PlaybackTicker::new();
    for _ in 0..PREBUFFER_FRAMES {
        t.absorb_frame(frame_of(1));
    }
    for _ in 0..PREBUFFER_FRAMES {
        t.tick(false, 100);
    }
    for _ in 0..100 {
        assert!(matches!(t.tick(false, 200), TickOutcome::EmitSilence));
    }
    assert_eq!(t.underruns_consecutive, 100);
    t.absorb_frame(frame_of(2));
    assert!(matches!(t.tick(false, 220), TickOutcome::EmitReal { .. }));
    assert_eq!(t.underruns_consecutive, 0);
    assert_eq!(t.underruns_total, 100);
}

#[test]
fn underrun_log_cadence() {
    assert!(!should_log_underrun(0));
    assert!(!should_log_underrun(49));
    assert!(should_log_underrun(50));
    assert!(!should_log_underrun(51));
    assert!(should_log_underrun(150));
}

#[test]
fn window_reset_keeps_totals() {
    let mut t = PlaybackTicker::new();
    for _ in 0..3 {
        t.absorb_frame(frame_of(1));
    }
    // closed upstream ends prebuffering and plays the short file out
    assert!(matches!(t.tick(true, 50), TickOutcome::EmitReal { .. }));
    t.reset_window();
    assert_eq!(t.underruns_window, 0);
}

#[test]
fn saturating_increment() {
    assert_eq!(sat_inc(0), 1);
    assert_eq!(sat_inc(u64::MAX), u64::MAX);
}

#[test]
fn decode_s16le_samples() {
    let pcm = vec![0x01, 0x00, 0xff, 0xff, 0x00, 0x80, 0xff, 0x7f];
    let samples = decode_s16le(&pcm);
    assert_eq!(samples, vec![1, -1, i16::MIN, i16::MAX]);
}

#[test]
fn silence_frame_is_all_zero() {
    let f = silence_frame();
    assert_eq!(f.len(), FRAME_BYTES);
    assert!(f.iter().all(|b| *b == 0));
}
