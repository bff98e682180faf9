use voice_service::actor::{
    chat_target_mode, lookup_client_info, mentions_too_many_clones, next_backoff, ActorState,
    ClientEntry, MessageTarget, SendTickAction, BACKOFF_MAX_SECS, BACKOFF_START_SECS,
    CLONES_COOLDOWN_SECS, OUT_BUF_CAP,
};
use voice_service::persist::{Debouncer, PersistStep};
use voice_service::queue::BoundedQueue;
use voice_service::status::PersistedVoiceState;

#[test]
fn debounce_coalesces_to_last_snapshot() {
    let mut d = Debouncer::new();
    let mut s1 = PersistedVoiceState::default();
    s1.fx_pan_milli = 100;
    let mut s2 = PersistedVoiceState::default();
    s2.fx_pan_milli = 200;
    let mut s3 = PersistedVoiceState::default();
    s3.fx_pan_milli = 300;

    assert_eq!(d.on_snapshot(s1), PersistStep::ArmTimer);
    assert_eq!(d.on_snapshot(s2), PersistStep::ArmTimer);
    assert_eq!(d.on_snapshot(s3), PersistStep::ArmTimer);

    match d.on_timer() {
        PersistStep::Write(s) => assert_eq!(s.fx_pan_milli, 300),
        other => panic!("expected one write, got {:?}", other),
    }
    // nothing is pending afterwards: a second expiry writes nothing
    assert_eq!(d.on_timer(), PersistStep::Stand);
}

#[test]
fn debounce_flushes_on_close() {
    let mut d = Debouncer::new();
    let mut s = PersistedVoiceState::default();
    s.volume_percent = 42;
    d.on_snapshot(s);
    match d.on_close() {
        PersistStep::Write(w) => assert_eq!(w.volume_percent, 42),
        other => panic!("expected a flush, got {:?}", other),
    }
    assert_eq!(d.on_close(), PersistStep::Stand);
}

#[test]
fn bounded_queue_drops_oldest_on_overflow() {
    let mut q: BoundedQueue<u32> = BoundedQueue::new(3);
    assert!(q.push_drop_oldest(1).is_none());
    assert!(q.push_drop_oldest(2).is_none());
    assert!(q.push_drop_oldest(3).is_none());
    assert_eq!(q.push_drop_oldest(4), Some(1));
    assert_eq!(q.len(), 3);
    assert_eq!(q.pop_front(), Some(2));
    assert_eq!(q.pop_front(), Some(3));
    assert_eq!(q.pop_front(), Some(4));
    assert_eq!(q.pop_front(), None);
}

#[test]
fn backoff_doubles_and_caps() {
    assert_eq!(next_backoff(BACKOFF_START_SECS), 2);
    assert_eq!(next_backoff(2), 4);
    assert_eq!(next_backoff(32), BACKOFF_MAX_SECS);
    assert_eq!(next_backoff(BACKOFF_MAX_SECS), BACKOFF_MAX_SECS);
}

#[test]
fn clones_diagnostic_forces_cooldown() {
    assert!(mentions_too_many_clones(
        "connect failed: ClientTooManyClonesConnected (id 6)"
    ));
    assert!(!mentions_too_many_clones("connection refused"));

    let mut a = ActorState::new();
    let wait = a.retry_wait_and_bump(Some("boo: ClientTooManyClonesConnected"));
    assert_eq!(wait, CLONES_COOLDOWN_SECS);
    assert_eq!(a.backoff_secs, 2);
    let wait = a.retry_wait_and_bump(Some("timed out"));
    assert_eq!(wait, 2);
    assert_eq!(a.backoff_secs, 4);
}

#[test]
fn connect_resets_backoff_and_buffer() {
    let mut a = ActorState::new();
    a.enqueue_audio(vec![1, 2, 3]);
    a.retry_wait_and_bump(None);
    assert_eq!(a.backoff_secs, 2);
    a.on_connected();
    assert_eq!(a.backoff_secs, BACKOFF_START_SECS);
    assert_eq!(a.out_buf.len(), 0);
    assert_eq!(a.out_buf_drops, 0);
}

#[test]
fn audio_overflow_sheds_oldest_and_counts() {
    let mut a = ActorState::new();
    for n in 0..OUT_BUF_CAP {
        a.enqueue_audio(vec![(n % 256) as u8]);
    }
    assert_eq!(a.out_buf_drops, 0);
    a.enqueue_audio(vec![255]);
    assert_eq!(a.out_buf_drops, 1);
    assert_eq!(a.out_buf.len(), OUT_BUF_CAP);
    // the queue front is now the second packet ever queued
    match a.send_tick(true, false) {
        SendTickAction::SendAudio(p) => assert_eq!(p, vec![1]),
        other => panic!("expected a send, got {:?}", other),
    }
}

#[test]
fn send_tick_gates_on_can_send() {
    let mut a = ActorState::new();
    assert!(matches!(a.send_tick(true, true), SendTickAction::Stand));
    a.enqueue_audio(vec![7]);
    a.enqueue_audio(vec![8]);
    assert!(matches!(a.send_tick(false, true), SendTickAction::WarnMuted));
    assert!(matches!(a.send_tick(false, false), SendTickAction::Stand));
    // both packets were consumed by the gated ticks
    assert!(matches!(a.send_tick(true, false), SendTickAction::Stand));
}

#[test]
fn first_event_is_one_shot() {
    let mut a = ActorState::new();
    assert!(a.note_event_arrived());
    assert!(!a.note_event_arrived());
    assert!(a.should_upload_avatar());
}

#[test]
fn avatar_upload_lifecycle() {
    let mut a = ActorState::new();
    a.begin_avatar_upload(12, "abcd".to_string());
    assert!(a.matches_avatar_upload(12));
    assert!(!a.matches_avatar_upload(13));
    assert_eq!(a.avatar_upload_hash(), Some("abcd".to_string()));
    a.avatar_upload_finished(false);
    assert!(a.should_upload_avatar());
    a.begin_avatar_upload(14, "abcd".to_string());
    a.avatar_upload_finished(true);
    assert!(!a.should_upload_avatar());
    assert!(a.avatar_upload_hash().is_none());
}

#[test]
fn chat_target_modes() {
    assert_eq!(chat_target_mode(MessageTarget::Client), 1);
    assert_eq!(chat_target_mode(MessageTarget::Poke), 1);
    assert_eq!(chat_target_mode(MessageTarget::Channel), 2);
    assert_eq!(chat_target_mode(MessageTarget::Server), 3);
}

#[test]
fn client_lookup_takes_first_match() {
    let clients = vec![
        ClientEntry {
            uid: "u1".to_string(),
            avatar_hash: "h1".to_string(),
            description: "d1".to_string(),
        },
        ClientEntry {
            uid: "u2".to_string(),
            avatar_hash: "h2".to_string(),
            description: "d2".to_string(),
        },
        ClientEntry {
            uid: "u2".to_string(),
            avatar_hash: "h3".to_string(),
            description: "d3".to_string(),
        },
    ];
    let hit = lookup_client_info(&clients, "u2").expect("should find u2");
    assert_eq!(hit.0, "h2");
    assert_eq!(hit.1, "d2");
    assert!(lookup_client_info(&clients, "nobody").is_none());
    assert!(lookup_client_info(&clients, "").is_none());
}
