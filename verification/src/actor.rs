use vstd::prelude::*;

verus! {

use crate::playback::{spec_sat_inc, sat_inc};
use crate::queue::BoundedQueue;
use crate::textutil::{contains_bytes, str_bytes, str_contains, str_eq};

/// Bound of the actor's outbound send buffer (~16 s of 20 ms packets).
pub const OUT_BUF_CAP: usize = 800;

/// Bounds of the channels feeding the actor and its peers.
pub const AUDIO_CHANNEL_CAP: usize = 200;
pub const NOTICE_CHANNEL_CAP: usize = 50;
pub const COMMAND_CHANNEL_CAP: usize = 50;
pub const PERSIST_CHANNEL_CAP: usize = 32;
pub const EVENT_BUS_CAP: usize = 512;
pub const PCM_CHANNEL_CAP: usize = 50;

/// Reconnect backoff: start, cap, and the cooldown forced when the server
/// reports too many clones of this client.
pub const BACKOFF_START_SECS: u64 = 1;
pub const BACKOFF_MAX_SECS: u64 = 60;
pub const CLONES_COOLDOWN_SECS: u64 = 30;

/// Cadences of the inner loop, and the rate limit of the cannot-send
/// warning.
pub const EVENT_TICK_MS: u64 = 50;
pub const SEND_TICK_MS: u64 = 20;
pub const MUTED_WARN_SECS: u64 = 3;
pub const DIAG_PERIOD_SECS: u64 = 5;
pub const SHUTDOWN_DRAIN_SECS: u64 = 2;

/// Whether a connection diagnostic names the too-many-clones condition.
pub open spec fn spec_mentions_too_many_clones(msg: Seq<char>) -> bool {
    contains_bytes(str_bytes(msg), str_bytes("ClientTooManyClonesConnected"@))
}

/// Decide whether a diagnostic names the too-many-clones condition.
pub fn mentions_too_many_clones(msg: &str) -> (r: bool)
    ensures
        r == spec_mentions_too_many_clones(msg@),
{
    str_contains(msg, "ClientTooManyClonesConnected")
}

/// The next reconnect backoff: double, capped at [`BACKOFF_MAX_SECS`].
pub fn next_backoff(cur: u64) -> (r: u64)
    requires
        cur <= BACKOFF_MAX_SECS,
    ensures
        r == vstd::math::min(2 * cur as int, BACKOFF_MAX_SECS as int),
{
    if 2 * cur > BACKOFF_MAX_SECS {
        BACKOFF_MAX_SECS
    } else {
        2 * cur
    }
}

/// Where a chat message was addressed, as the client library reports it.
#[derive(Clone, Copy, Debug, PartialEq, Eq, Structural)]
pub enum MessageTarget {
    /// Directly to this client.
    Client,
    /// A poke, delivered like a private message.
    Poke,
    /// The current channel.
    Channel,
    /// The whole server.
    Server,
}

/// The chat target mode code of a message target: private 1 (client and
/// poke alike), channel 2, server 3.
pub fn chat_target_mode(t: MessageTarget) -> (r: i32)
    ensures
        r == (match t {
            MessageTarget::Client => crate::events::TARGET_PRIVATE,
            MessageTarget::Poke => crate::events::TARGET_PRIVATE,
            MessageTarget::Channel => crate::events::TARGET_CHANNEL,
            MessageTarget::Server => crate::events::TARGET_SERVER,
        }),
{
    match t {
        MessageTarget::Client => 1,
        MessageTarget::Poke => 1,
        MessageTarget::Channel => 2,
        MessageTarget::Server => 3,
    }
}

/// One row of the client state table, as far as chat enrichment reads it.
#[derive(Clone, Debug)]
pub struct ClientEntry {
    pub uid: String,
    pub avatar_hash: String,
    pub description: String,
}

/// Look up the avatar hash and description of the first client whose
/// unique id equals `uid`; nothing for an empty `uid` or a miss.
pub fn lookup_client_info(clients: &Vec<ClientEntry>, uid: &str) -> (r: Option<(String, String)>)
    ensures
        r is Some <==> (uid@.len() > 0 && exists|i: int|
            0 <= i < clients@.len() && (#[trigger] clients@[i]).uid@ == uid@),
        (r matches Some(p) ==> exists|i: int|
            {
                &&& 0 <= i < clients@.len()
                &&& (#[trigger] clients@[i]).uid@ == uid@
                &&& p.0 == clients@[i].avatar_hash
                &&& p.1 == clients@[i].description
                &&& forall|j: int| 0 <= j < i ==> (#[trigger] clients@[j]).uid@ != uid@
            }),
{
    let empty = uid.is_empty();
    if empty {
        return None;
    }
    proof {
        assert(uid@.len() > 0);
    }
    let mut i: usize = 0;
    while i < clients.len()
        invariant
            uid@.len() > 0,
            i <= clients@.len(),
            forall|j: int| 0 <= j < i ==> (#[trigger] clients@[j]).uid@ != uid@,
        decreases clients@.len() - i,
    {
        if str_eq(clients[i].uid.as_str(), uid) {
            let r = Some((clients[i].avatar_hash.clone(), clients[i].description.clone()));
            proof {
                let wi = i as int;
                assert(0 <= wi < clients@.len() && (clients@[wi]).uid@ == uid@);
                assert(exists|i2: int|
                    0 <= i2 < clients@.len() && (#[trigger] clients@[i2]).uid@ == uid@);
            }
            return r;
        }
        i = i + 1;
    }
    None
}

/// A running avatar upload: the file-transfer handle and the hash the
/// client flag is set to afterwards.
#[derive(Clone, Debug)]
pub struct AvatarUpload {
    pub handle: u64,
    pub md5_hex: String,
}

/// What the send tick must do.
#[derive(Debug)]
pub enum SendTickAction {
    /// Hand this packet to the connection.
    SendAudio(Vec<u8>),
    /// The connection cannot send (muted, no talk power, away) and the
    /// rate limit allows a warning; the packet is discarded.
    WarnMuted,
    /// Nothing to send, or the packet was discarded silently.
    Stand,
}

/// The connection actor's decision state: the bounded outbound buffer and
/// the one-shot bookkeeping of a connection. The I/O around it — the
/// connection itself, timers, channels — stays with the caller.
pub struct ActorState {
    /// Encoded packets waiting for a send tick; overflow sheds the oldest.
    pub out_buf: BoundedQueue<Vec<u8>>,
    /// Packets shed by overflow since the connection was made.
    pub out_buf_drops: u64,
    /// Whether the connected log line went out for this connection.
    pub logged_connected: bool,
    /// Whether the avatar was uploaded and flagged, once per process.
    pub avatar_set_done: bool,
    /// The upload in flight, if any.
    pub avatar_upload: Option<AvatarUpload>,
    /// The reconnect backoff to wait after the next failure.
    pub backoff_secs: u64,
}

impl ActorState {
    /// The buffer is bounded by [`OUT_BUF_CAP`] and the backoff lies
    /// between its start and its cap.
    pub open spec fn wf(&self) -> bool {
        &&& self.out_buf.wf()
        &&& self.out_buf.spec_cap() == OUT_BUF_CAP
        &&& BACKOFF_START_SECS <= self.backoff_secs <= BACKOFF_MAX_SECS
    }

    /// A fresh actor: empty buffer, starting backoff, nothing uploaded.
    pub fn new() -> (r: ActorState)
        ensures
            r.wf(),
            r.out_buf.contents() == Seq::<Vec<u8>>::empty(),
            r.out_buf_drops == 0,
            !r.logged_connected,
            !r.avatar_set_done,
            r.avatar_upload is None,
            r.backoff_secs == BACKOFF_START_SECS,
    {
        ActorState {
            out_buf: BoundedQueue::new(OUT_BUF_CAP),
            out_buf_drops: 0,
            logged_connected: false,
            avatar_set_done: false,
            avatar_upload: None,
            backoff_secs: BACKOFF_START_SECS,
        }
    }

    /// A connection was made: the backoff resets, the buffer is cleared,
    /// and the per-connection one-shots rewind. Whether the avatar was
    /// already set survives reconnects.
    pub fn on_connected(&mut self)
        requires
            old(self).wf(),
        ensures
            final(self).wf(),
            final(self).out_buf.contents() == Seq::<Vec<u8>>::empty(),
            final(self).out_buf_drops == 0,
            !final(self).logged_connected,
            final(self).avatar_set_done == old(self).avatar_set_done,
            final(self).avatar_upload is None,
            final(self).backoff_secs == BACKOFF_START_SECS,
    {
        self.out_buf = BoundedQueue::new(OUT_BUF_CAP);
        self.out_buf_drops = 0;
        self.logged_connected = false;
        self.avatar_upload = None;
        self.backoff_secs = BACKOFF_START_SECS;
    }

    /// A connect attempt or a connection failed: how long to wait before
    /// the retry — the current backoff, raised to the clones cooldown when
    /// the diagnostic names too many clones — and the backoff doubles,
    /// capped at [`BACKOFF_MAX_SECS`].
    pub fn retry_wait_and_bump(&mut self, err: Option<&str>) -> (wait: u64)
        requires
            old(self).wf(),
        ensures
            final(self).wf(),
            wait == (if err matches Some(m) && spec_mentions_too_many_clones(m@) {
                vstd::math::max(old(self).backoff_secs as int, CLONES_COOLDOWN_SECS as int)
            } else {
                old(self).backoff_secs as int
            }),
            final(self).backoff_secs == vstd::math::min(
                2 * old(self).backoff_secs as int,
                BACKOFF_MAX_SECS as int,
            ),
            final(self).out_buf == old(self).out_buf,
            final(self).out_buf_drops == old(self).out_buf_drops,
            final(self).logged_connected == old(self).logged_connected,
            final(self).avatar_set_done == old(self).avatar_set_done,
            final(self).avatar_upload == old(self).avatar_upload,
    {
        let clones = match err {
            Some(m) => mentions_too_many_clones(m),
            None => false,
        };
        let wait = if clones && self.backoff_secs < CLONES_COOLDOWN_SECS {
            CLONES_COOLDOWN_SECS
        } else {
            self.backoff_secs
        };
        self.backoff_secs = next_backoff(self.backoff_secs);
        wait
    }

    /// Queue an encoded packet for sending; a full buffer sheds its
    /// oldest packet and counts the drop.
    pub fn enqueue_audio(&mut self, packet: Vec<u8>)
        requires
            old(self).wf(),
        ensures
            final(self).wf(),
            (if old(self).out_buf.contents().len() < OUT_BUF_CAP {
                final(self).out_buf.contents() == old(self).out_buf.contents().push(packet)
                    && final(self).out_buf_drops == old(self).out_buf_drops
            } else {
                final(self).out_buf.contents() == old(self).out_buf.contents().drop_first().push(
                    packet,
                ) && final(self).out_buf_drops == spec_sat_inc(old(self).out_buf_drops)
            }),
            final(self).logged_connected == old(self).logged_connected,
            final(self).avatar_set_done == old(self).avatar_set_done,
            final(self).avatar_upload == old(self).avatar_upload,
            final(self).backoff_secs == old(self).backoff_secs,
    {
        let dropped = self.out_buf.push_drop_oldest(packet);
        if dropped.is_some() {
            self.out_buf_drops = sat_inc(self.out_buf_drops);
        }
    }

    /// One send tick: take the oldest packet. It goes out when the
    /// connection can send; otherwise it is discarded, with a warning if
    /// the rate limit allows one. An empty buffer does nothing.
    pub fn send_tick(&mut self, can_send: bool, warn_due: bool) -> (a: SendTickAction)
        requires
            old(self).wf(),
        ensures
            final(self).wf(),
            (if old(self).out_buf.contents().len() == 0 {
                final(self).out_buf.contents() == old(self).out_buf.contents() && a is Stand
            } else {
                final(self).out_buf.contents() == old(self).out_buf.contents().drop_first() && (
                if can_send {
                    a == SendTickAction::SendAudio(old(self).out_buf.contents()[0])
                } else if warn_due {
                    a is WarnMuted
                } else {
                    a is Stand
                })
            }),
            final(self).out_buf_drops == old(self).out_buf_drops,
            final(self).logged_connected == old(self).logged_connected,
            final(self).avatar_set_done == old(self).avatar_set_done,
            final(self).avatar_upload == old(self).avatar_upload,
            final(self).backoff_secs == old(self).backoff_secs,
    {
        match self.out_buf.pop_front() {
            None => SendTickAction::Stand,
            Some(p) => {
                if can_send {
                    SendTickAction::SendAudio(p)
                } else if warn_due {
                    SendTickAction::WarnMuted
                } else {
                    SendTickAction::Stand
                }
            },
        }
    }

    /// The first event of a connection arrived: note it, and say whether
    /// this was the first (the connected log line and the avatar one-shot
    /// hang off it).
    pub fn note_event_arrived(&mut self) -> (first: bool)
        ensures
            first == !old(self).logged_connected,
            *final(self) == (ActorState { logged_connected: true, ..*old(self) }),
    {
        let first = !self.logged_connected;
        self.logged_connected = true;
        first
    }

    /// Whether the avatar one-shot still has work: nothing was uploaded
    /// yet in this process.
    pub fn should_upload_avatar(&self) -> (r: bool)
        ensures
            r == !self.avatar_set_done,
    {
        !self.avatar_set_done
    }

    /// An avatar upload began under this file-transfer handle.
    pub fn begin_avatar_upload(&mut self, handle: u64, md5_hex: String)
        ensures
            final(self).avatar_upload matches Some(u) && u.handle == handle && u.md5_hex == md5_hex,
            final(self).out_buf == old(self).out_buf,
            final(self).out_buf_drops == old(self).out_buf_drops,
            final(self).logged_connected == old(self).logged_connected,
            final(self).avatar_set_done == old(self).avatar_set_done,
            final(self).backoff_secs == old(self).backoff_secs,
    {
        self.avatar_upload = Some(AvatarUpload { handle, md5_hex });
    }

    /// Whether a file-transfer event belongs to the running avatar upload.
    pub fn matches_avatar_upload(&self, handle: u64) -> (r: bool)
        ensures
            r == (self.avatar_upload matches Some(u) && u.handle == handle),
    {
        match &self.avatar_upload {
            Some(u) => u.handle == handle,
            None => false,
        }
    }

    /// The hash of the running avatar upload, to set the client flag with.
    pub fn avatar_upload_hash(&self) -> (r: Option<String>)
        ensures
            r is Some <==> self.avatar_upload is Some,
            (r matches Some(h) ==> (self.avatar_upload matches Some(u) && h == u.md5_hex)),
    {
        match &self.avatar_upload {
            Some(u) => Some(u.md5_hex.clone()),
            None => None,
        }
    }

    /// The avatar upload ended: clear it, and only a success marks the
    /// one-shot done — a failure lets the next connection retry.
    pub fn avatar_upload_finished(&mut self, success: bool)
        ensures
            final(self).avatar_upload is None,
            final(self).avatar_set_done == (old(self).avatar_set_done || success),
            final(self).out_buf == old(self).out_buf,
            final(self).out_buf_drops == old(self).out_buf_drops,
            final(self).logged_connected == old(self).logged_connected,
            final(self).backoff_secs == old(self).backoff_secs,
    {
        self.avatar_upload = None;
        if success {
            self.avatar_set_done = true;
        }
    }
}

} // verus!
