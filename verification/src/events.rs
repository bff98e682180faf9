use vstd::prelude::*;

verus! {

/// Playback event type codes: started 1, finished 2, error 3.
pub const PLAYBACK_STARTED: i32 = 1;
pub const PLAYBACK_FINISHED: i32 = 2;
pub const PLAYBACK_ERROR: i32 = 3;

/// Log level codes: debug 1, info 2, warn 3, error 4.
pub const LOG_DEBUG: i32 = 1;
pub const LOG_INFO: i32 = 2;
pub const LOG_WARN: i32 = 3;
pub const LOG_ERROR: i32 = 4;

/// Chat target mode codes: private 1, channel 2, server 3.
pub const TARGET_PRIVATE: i32 = 1;
pub const TARGET_CHANNEL: i32 = 2;
pub const TARGET_SERVER: i32 = 3;

/// An inbound chat message, enriched with what the client state table
/// knows of the invoker.
#[derive(Clone, Debug)]
pub struct ChatEvent {
    pub target_mode: i32,
    pub invoker_unique_id: String,
    pub invoker_name: String,
    pub message: String,
    pub invoker_avatar_hash: String,
    pub invoker_description: String,
}

/// A playback lifecycle notification.
#[derive(Clone, Debug)]
pub struct PlaybackEvent {
    pub event_type: i32,
    pub title: String,
    pub source_url: String,
    pub detail: String,
}

/// An observability message for subscribers.
#[derive(Clone, Debug)]
pub struct LogEvent {
    pub level: i32,
    pub message: String,
}

/// Exactly one payload kind per event.
#[derive(Clone, Debug)]
pub enum EventPayload {
    Chat(ChatEvent),
    Playback(PlaybackEvent),
    Log(LogEvent),
}

/// A broadcast event, tagged with the wall clock at creation.
#[derive(Clone, Debug)]
pub struct Event {
    pub unix_ms: i64,
    pub payload: EventPayload,
}

/// What a subscriber asked to receive.
#[derive(Clone, Copy, Debug, PartialEq, Eq, Structural)]
pub struct EventFilter {
    pub include_chat: bool,
    pub include_playback: bool,
    pub include_log: bool,
}

/// Whether a filter lets an event through: each payload kind is gated by
/// its own flag.
pub open spec fn spec_event_passes(f: EventFilter, e: Event) -> bool {
    match e.payload {
        EventPayload::Chat(_) => f.include_chat,
        EventPayload::Playback(_) => f.include_playback,
        EventPayload::Log(_) => f.include_log,
    }
}

/// Decide whether a subscription with filter `f` receives event `e`.
pub fn event_passes(f: &EventFilter, e: &Event) -> (r: bool)
    ensures
        r == spec_event_passes(*f, *e),
{
    match &e.payload {
        EventPayload::Chat(_) => f.include_chat,
        EventPayload::Playback(_) => f.include_playback,
        EventPayload::Log(_) => f.include_log,
    }
}

/// A subscriber that excluded chat never receives a chat event, and the
/// same holds of the playback and log flags for their payload kinds.
pub proof fn lemma_filter_excludes(f: EventFilter, e: Event)
    ensures
        !f.include_chat && e.payload is Chat ==> !spec_event_passes(f, e),
        !f.include_playback && e.payload is Playback ==> !spec_event_passes(f, e),
        !f.include_log && e.payload is Log ==> !spec_event_passes(f, e),
{
}

impl Event {
    /// Build a log event tagged with the given wall clock.
    pub fn log(unix_ms: i64, level: i32, message: String) -> (e: Event)
        ensures
            e.unix_ms == unix_ms,
            e.payload matches EventPayload::Log(l) && l.level == level && l.message == message,
    {
        Event { unix_ms, payload: EventPayload::Log(LogEvent { level, message }) }
    }

    /// Build a playback event tagged with the given wall clock.
    pub fn playback(
        unix_ms: i64,
        event_type: i32,
        title: String,
        source_url: String,
        detail: String,
    ) -> (e: Event)
        ensures
            e.unix_ms == unix_ms,
            e.payload matches EventPayload::Playback(p) && p.event_type == event_type
                && p.title == title && p.source_url == source_url && p.detail == detail,
    {
        Event {
            unix_ms,
            payload: EventPayload::Playback(PlaybackEvent { event_type, title, source_url, detail }),
        }
    }

    /// Build a chat event tagged with the given wall clock.
    pub fn chat(unix_ms: i64, chat: ChatEvent) -> (e: Event)
        ensures
            e.unix_ms == unix_ms,
            e.payload matches EventPayload::Chat(c) && c == chat,
    {
        Event { unix_ms, payload: EventPayload::Chat(chat) }
    }
}

/// Relies on std::time::SystemTime::now and its duration_since(UNIX_EPOCH):
/// the wall clock as whole milliseconds since the Unix epoch, 0 when the
/// clock stands before the epoch. Nothing is promised of the value: the
/// clock is not a function of anything the program holds.
#[verifier::external_body]
fn system_millis_since_epoch() -> (r: u128) {
    match std::time::SystemTime::now().duration_since(std::time::UNIX_EPOCH) {
        Ok(d) => d.as_millis(),
        Err(_) => 0,
    }
}

/// The wall clock as milliseconds since the Unix epoch, as events are
/// tagged with it: never negative, saturated at i64::MAX.
pub fn now_unix_ms() -> (r: i64)
    ensures
        r >= 0,
{
    let ms = system_millis_since_epoch();
    if ms > i64::MAX as u128 {
        i64::MAX
    } else {
        ms as i64
    }
}

} // verus!
