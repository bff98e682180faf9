use voice_service::avatar::{avatar_remote_path, is_avatar_candidate, md5_hex, pick_avatar_file, to_hex_lower};
use voice_service::events::{
    event_passes, now_unix_ms, ChatEvent, Event, EventFilter, EventPayload, LOG_INFO,
    PLAYBACK_STARTED, TARGET_CHANNEL,
};
use voice_service::logfmt::TSBotFormatter;
use voice_service::status::{PersistedVoiceState, SharedStatus};
use voice_service::textutil::{str_contains, str_eq, str_lex_le};

fn chat_event() -> Event {
    Event::chat(
        1,
        ChatEvent {
            target_mode: TARGET_CHANNEL,
            invoker_unique_id: "uid".to_string(),
            invoker_name: "n".to_string(),
            message: "hi".to_string(),
            invoker_avatar_hash: String::new(),
            invoker_description: String::new(),
        },
    )
}

#[test]
fn filter_excludes_chat_when_asked() {
    let f = EventFilter { include_chat: false, include_playback: true, include_log: true };
    assert!(!event_passes(&f, &chat_event()));
    let yes = EventFilter { include_chat: true, include_playback: false, include_log: false };
    assert!(event_passes(&yes, &chat_event()));
}

#[test]
fn filter_excludes_playback_when_asked() {
    // a chat-only subscription receives no playback event
    let f = EventFilter { include_chat: true, include_playback: false, include_log: false };
    let e = Event::playback(2, PLAYBACK_STARTED, "t".to_string(), "u".to_string(), String::new());
    assert!(!event_passes(&f, &e));
    let log = Event::log(3, LOG_INFO, "m".to_string());
    assert!(!event_passes(&f, &log));
}

#[test]
fn events_carry_their_tags() {
    let e = Event::log(77, LOG_INFO, "m".to_string());
    assert_eq!(e.unix_ms, 77);
    match e.payload {
        EventPayload::Log(l) => {
            assert_eq!(l.level, LOG_INFO);
            assert_eq!(l.message, "m");
        }
        other => panic!("expected a log payload, got {:?}", other),
    }
    assert!(now_unix_ms() >= 0);
}

#[test]
fn avatar_extension_rules() {
    assert!(is_avatar_candidate("photo.png"));
    assert!(is_avatar_candidate("photo.JPEG"));
    assert!(is_avatar_candidate("a.gif"));
    assert!(is_avatar_candidate("b.JpG"));
    assert!(!is_avatar_candidate("archive.tar"));
    assert!(!is_avatar_candidate("noextension"));
    assert!(!is_avatar_candidate(".png"));
    assert!(!is_avatar_candidate("trailingdot."));
}

#[test]
fn avatar_pick_is_lexicographically_first_supported() {
    let names = vec![
        "b.png".to_string(),
        "a.txt".to_string(),
        "A.JPG".to_string(),
        "c.gif".to_string(),
    ];
    // byte order: 'A' (65) sorts before 'b' (98) and 'c' (99)
    assert_eq!(pick_avatar_file(&names), Some(2));
    let none = vec!["a.txt".to_string(), "b.doc".to_string()];
    assert_eq!(pick_avatar_file(&none), None);
    let empty: Vec<String> = Vec::new();
    assert_eq!(pick_avatar_file(&empty), None);
}

#[test]
fn hex_rendering() {
    assert_eq!(to_hex_lower(&vec![]), "");
    assert_eq!(to_hex_lower(&vec![0x00, 0xff, 0x1a]), "00ff1a");
}

#[test]
fn md5_hex_known_digests() {
    assert_eq!(md5_hex(&vec![]), "d41d8cd98f00b204e9800998ecf8427e");
    assert_eq!(md5_hex(&b"abc".to_vec()), "900150983cd24fb0d6963f7d28e17f72");
}

#[test]
fn avatar_path_carries_hash() {
    let hash = md5_hex(&b"abc".to_vec());
    assert_eq!(
        avatar_remote_path(&hash),
        "/avatar_900150983cd24fb0d6963f7d28e17f72"
    );
}

#[test]
fn log_line_shape() {
    let f = TSBotFormatter;
    let line = f.format_line("2024-01-02 03:04:05", "INFO", "hello world");
    assert_eq!(line, "[2024-01-02 03:04:05] [INFO] [voice] hello world\n");
}

#[test]
fn text_helpers() {
    assert!(str_contains("abc ClientTooManyClonesConnected xyz", "TooMany"));
    assert!(!str_contains("abc", "abcd"));
    assert!(str_eq("same", "same"));
    assert!(!str_eq("same", "Same"));
    assert!(str_lex_le("abc", "abd"));
    assert!(str_lex_le("ab", "abc"));
    assert!(!str_lex_le("b", "a"));
}

#[test]
fn persisted_round_trip_preserves_effective_values() {
    let mut st = SharedStatus::initial();
    let snapshot = PersistedVoiceState {
        volume_percent: 300,
        fx_pan_milli: -5000,
        fx_width_milli: 1500,
        fx_swap_lr: true,
        fx_bass_db_milli: 6000,
        fx_reverb_mix_milli: 2000,
    };
    st.apply_persisted(&snapshot);
    // effective values after clamping
    assert_eq!(st.volume_percent, 200);
    assert_eq!(st.fx_pan_milli, -1000);
    assert_eq!(st.fx_width_milli, 1500);
    assert!(st.fx_swap_lr);
    assert_eq!(st.fx_bass_db_milli, 6000);
    assert_eq!(st.fx_reverb_mix_milli, 1000);
    // write what is now effective, restart, load: identical values
    let written = PersistedVoiceState::from_status(&st);
    let mut restarted = SharedStatus::initial();
    restarted.apply_persisted(&written);
    assert_eq!(PersistedVoiceState::from_status(&restarted), written);
}
