use voice_service::control::{Action, Controller};
use voice_service::events::{PLAYBACK_STARTED, TARGET_CHANNEL, TARGET_SERVER};
use voice_service::status::{PersistedVoiceState, PlaybackState};

fn count_started(actions: &[Action]) -> usize {
    actions
        .iter()
        .filter(|a| matches!(a, Action::EmitPlayback { event_type, .. } if *event_type == PLAYBACK_STARTED))
        .count()
}

#[test]
fn volume_clamps_low() {
    let mut c = Controller::new();
    let (resp, _) = c.set_volume(-50);
    assert!(resp.ok);
    assert_eq!(c.get_status().volume_percent, 0);
}

#[test]
fn volume_clamps_high() {
    let mut c = Controller::new();
    let (resp, _) = c.set_volume(9999);
    assert!(resp.ok);
    assert_eq!(c.get_status().volume_percent, 200);
}

#[test]
fn volume_in_range_kept() {
    let mut c = Controller::new();
    let (_, actions) = c.set_volume(137);
    assert_eq!(c.get_status().volume_percent, 137);
    assert_eq!(actions.len(), 1);
    match &actions[0] {
        Action::PersistSnapshot { snapshot } => assert_eq!(snapshot.volume_percent, 137),
        other => panic!("expected a persist action, got {:?}", other),
    }
}

#[test]
fn description_too_long_refused() {
    let mut c = Controller::new();
    let long: String = "x".repeat(701);
    let (resp, actions) = c.set_client_description(long);
    assert!(!resp.ok);
    assert_eq!(resp.message, "description too long");
    assert!(actions.is_empty());
    let st = c.get_status();
    assert_eq!(st.state, PlaybackState::Idle.code());
}

#[test]
fn description_exact_limit_accepted() {
    let mut c = Controller::new();
    let exactly: String = "x".repeat(700);
    let (resp, actions) = c.set_client_description(exactly.clone());
    assert!(resp.ok);
    assert_eq!(actions.len(), 1);
    match &actions[0] {
        Action::SendClientDescription { description } => assert_eq!(description, &exactly),
        other => panic!("expected a client description action, got {:?}", other),
    }
}

#[test]
fn play_emits_started_once_and_spawns() {
    let mut c = Controller::new();
    let (resp, actions) = c.play("a".to_string(), "file:///tmp/x.wav".to_string(), String::new());
    assert!(resp.ok);
    assert_eq!(resp.message, "accepted");
    assert_eq!(count_started(&actions), 1);
    assert_eq!(actions.len(), 2);
    assert!(matches!(&actions[0], Action::EmitPlayback { event_type, title, .. }
        if *event_type == PLAYBACK_STARTED && title == "a"));
    assert!(matches!(&actions[1], Action::SpawnPlayback { .. }));
    let st = c.get_status();
    assert_eq!(st.state, PlaybackState::Playing.code());
    assert_eq!(st.now_playing_title, "a");
    assert_eq!(st.now_playing_source_url, "file:///tmp/x.wav");
}

#[test]
fn play_with_notice_queues_channel_notice() {
    let mut c = Controller::new();
    let (_, actions) = c.play("t".to_string(), "u".to_string(), "now playing".to_string());
    assert!(matches!(&actions[2], Action::QueueNotice { target_mode, message }
        if *target_mode == TARGET_CHANNEL && message == "now playing"));
}

#[test]
fn second_play_stops_previous_task_first() {
    let mut c = Controller::new();
    let (_, _) = c.play("a".to_string(), "urlA".to_string(), String::new());
    let (_, actions) = c.play("b".to_string(), "urlB".to_string(), String::new());
    assert_eq!(actions.len(), 3);
    assert!(matches!(actions[0], Action::StopPlayback));
    assert!(matches!(&actions[1], Action::EmitPlayback { title, .. } if title == "b"));
    assert!(matches!(&actions[2], Action::SpawnPlayback { source_url, .. } if source_url == "urlB"));
    assert_eq!(count_started(&actions), 1);
}

#[test]
fn pause_only_from_playing() {
    let mut c = Controller::new();
    let (resp, _) = c.pause();
    assert!(resp.ok);
    assert_eq!(c.get_status().state, PlaybackState::Idle.code());
    let (_, _) = c.play("a".to_string(), "u".to_string(), String::new());
    let (_, actions) = c.pause();
    assert_eq!(c.get_status().state, PlaybackState::Paused.code());
    assert!(matches!(actions[0], Action::SignalPause { paused: true }));
}

#[test]
fn resume_only_from_paused() {
    let mut c = Controller::new();
    let (_, _) = c.play("a".to_string(), "u".to_string(), String::new());
    let (_, _) = c.pause();
    let (_, actions) = c.resume();
    assert_eq!(c.get_status().state, PlaybackState::Playing.code());
    assert!(matches!(actions[0], Action::SignalPause { paused: false }));
    let (_, _) = c.stop();
    let (_, _) = c.resume();
    assert_eq!(c.get_status().state, PlaybackState::Idle.code());
}

#[test]
fn stop_clears_now_playing() {
    let mut c = Controller::new();
    let (_, _) = c.play("a".to_string(), "u".to_string(), String::new());
    let (resp, actions) = c.stop();
    assert!(resp.ok);
    assert!(matches!(actions[0], Action::StopPlayback));
    let st = c.get_status();
    assert_eq!(st.state, PlaybackState::Idle.code());
    assert_eq!(st.now_playing_title, "");
    assert_eq!(st.now_playing_source_url, "");
}

#[test]
fn skip_behaves_like_stop() {
    let mut c = Controller::new();
    let (_, _) = c.play("a".to_string(), "u".to_string(), String::new());
    let (resp, _) = c.skip();
    assert!(resp.ok);
    assert_eq!(c.get_status().state, PlaybackState::Idle.code());
}

#[test]
fn send_notice_normalizes_target_mode() {
    let mut c = Controller::new();
    let (_, actions) = c.send_notice("hello".to_string(), 3);
    assert!(matches!(&actions[0], Action::QueueNotice { target_mode, .. } if *target_mode == TARGET_SERVER));
    let (_, actions) = c.send_notice("hello".to_string(), 7);
    assert!(matches!(&actions[0], Action::QueueNotice { target_mode, .. } if *target_mode == TARGET_CHANNEL));
    let (resp, actions) = c.send_notice(String::new(), 2);
    assert!(resp.ok);
    assert!(actions.is_empty());
}

#[test]
fn ping_reports_version() {
    let c = Controller::new();
    assert_eq!(c.ping(), "0.1.0");
}

#[test]
fn audio_fx_fields_clamp_per_field() {
    let mut c = Controller::new();
    let update = voice_service::control::AudioFxUpdate {
        pan_milli: Some(5000),
        width_milli: Some(-2),
        swap_lr: Some(true),
        bass_db_milli: Some(99000),
        reverb_mix_milli: Some(-1),
    };
    let (resp, actions) = c.set_audio_fx(update);
    assert!(resp.ok);
    let fx = c.get_audio_fx();
    assert_eq!(fx.pan_milli, 1000);
    assert_eq!(fx.width_milli, 0);
    assert!(fx.swap_lr);
    assert_eq!(fx.bass_db_milli, 18000);
    assert_eq!(fx.reverb_mix_milli, 0);
    match &actions[0] {
        Action::PersistSnapshot { snapshot } => {
            assert_eq!(snapshot.fx_pan_milli, 1000);
            assert_eq!(snapshot.fx_bass_db_milli, 18000);
        }
        other => panic!("expected a persist action, got {:?}", other),
    }
}

#[test]
fn audio_fx_absent_fields_unchanged() {
    let mut c = Controller::new();
    let update = voice_service::control::AudioFxUpdate {
        pan_milli: Some(100),
        width_milli: None,
        swap_lr: None,
        bass_db_milli: None,
        reverb_mix_milli: None,
    };
    let (_, _) = c.set_audio_fx(update);
    let fx = c.get_audio_fx();
    assert_eq!(fx.pan_milli, 100);
    assert_eq!(fx.width_milli, 1000);
    assert!(!fx.swap_lr);
    assert_eq!(fx.bass_db_milli, 0);
    assert_eq!(fx.reverb_mix_milli, 0);
}

#[test]
fn persisted_state_defaults() {
    let d = PersistedVoiceState::default();
    assert_eq!(d.volume_percent, 100);
    assert_eq!(d.fx_pan_milli, 0);
    assert_eq!(d.fx_width_milli, 1000);
    assert!(!d.fx_swap_lr);
    assert_eq!(d.fx_bass_db_milli, 0);
    assert_eq!(d.fx_reverb_mix_milli, 0);
}
