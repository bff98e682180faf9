use vstd::prelude::*;

verus! {

use crate::events::{PLAYBACK_FINISHED, PLAYBACK_ERROR};

/// One frame is 20 ms at 48 kHz stereo: 960 samples per channel,
/// interleaved little-endian signed 16-bit, 3840 bytes.
pub const FRAME_SAMPLES_PER_CHANNEL: usize = 960;
pub const FRAME_BYTES: usize = 3840;
pub const FRAME_MS: u64 = 20;

/// Real audio is held back until this many decoded frames are buffered.
pub const PREBUFFER_FRAMES: usize = 5;

/// How long to wait for a late frame after a tick before inserting
/// silence, in milliseconds.
pub const GRACE_WAIT_MS: u64 = 3;

/// This many consecutive silence insertions after real audio was seen are
/// a playback failure.
pub const UNDERRUN_FAIL_FRAMES: u64 = 150;

/// Every this many underruns an informational log line is due.
pub const UNDERRUN_LOG_EVERY: u64 = 50;

/// If no PCM at all arrives within this long, the transcoder is taken as
/// broken.
pub const NO_PCM_FAIL_MS: u64 = 5000;

/// The fade-in ramps linearly over this many real samples per channel
/// (80 ms).
pub const FADE_TOTAL_SAMPLES_PER_CHANNEL: usize = 3840;

/// Upper bound of one encoded Opus frame, in bytes.
pub const OPUS_MAX_PACKET_BYTES: usize = 1275;

/// Why a playback failed.
#[derive(Clone, Copy, Debug, PartialEq, Eq, Structural)]
pub enum PlaybackFailure {
    /// No PCM arrived at all: EOF before any frame, or nothing within
    /// [`NO_PCM_FAIL_MS`].
    NoPcm,
    /// [`UNDERRUN_FAIL_FRAMES`] consecutive silence insertions after real
    /// audio had been seen.
    SustainedUnderrun,
}

/// What one tick of the encode/send task must do.
#[derive(Debug)]
pub enum TickOutcome {
    /// Still pre-buffering: send nothing this tick.
    Prebuffer,
    /// Encode and send this real frame; the fade-in cursor stood at
    /// `fade_start` samples when the frame began.
    EmitReal { frame: Vec<u8>, fade_start: usize },
    /// No frame was at hand: encode and send one frame of silence to keep
    /// the 20 ms cadence.
    EmitSilence,
    /// Natural end of stream: send the zero-length flush packet and stop.
    Finish,
    /// Fatal supply failure: stop and report a playback error.
    Fail(PlaybackFailure),
}

/// Saturating increment.
pub open spec fn spec_sat_inc(x: u64) -> u64 {
    if x == u64::MAX {
        x
    } else {
        (x + 1) as u64
    }
}

/// The per-playback pacing machine: the local frame buffer and the
/// counters that drive pre-buffering, underrun policy and fade-in. One
/// machine is made per playback and never shared.
pub struct PlaybackTicker {
    /// Decoded frames not yet encoded, oldest first.
    pub buf: Vec<Vec<u8>>,
    /// Real audio is withheld until the buffer once held
    /// [`PREBUFFER_FRAMES`] frames.
    pub prebuffering: bool,
    /// Whether any real PCM was ever seen.
    pub seen_first_pcm: bool,
    /// Silence insertions since the playback began.
    pub underruns_total: u64,
    /// Silence insertions since the diagnostic window began.
    pub underruns_window: u64,
    /// Silence insertions since the last real frame.
    pub underruns_consecutive: u64,
    /// Fade-in cursor: real samples per channel played so far, capped at
    /// [`FADE_TOTAL_SAMPLES_PER_CHANNEL`].
    pub fade_pos: usize,
    /// Set once a terminal outcome (Finish or Fail) was handed out; no
    /// further tick is allowed, so a playback has exactly one terminal
    /// outcome.
    pub terminal: bool,
}

impl PlaybackTicker {
    /// Every buffered frame has the full frame length, and the fade
    /// cursor is within its ramp.
    pub open spec fn wf(&self) -> bool {
        &&& forall|i: int| 0 <= i < self.buf@.len() ==> (#[trigger] self.buf@[i])@.len() == FRAME_BYTES
        &&& self.fade_pos <= FADE_TOTAL_SAMPLES_PER_CHANNEL
    }

    /// A fresh machine for a new playback: empty buffer, pre-buffering,
    /// all counters zero.
    pub fn new() -> (t: PlaybackTicker)
        ensures
            t.wf(),
            t.buf@.len() == 0,
            t.prebuffering,
            !t.seen_first_pcm,
            t.underruns_total == 0,
            t.underruns_window == 0,
            t.underruns_consecutive == 0,
            t.fade_pos == 0,
            !t.terminal,
    {
        PlaybackTicker {
            buf: Vec::new(),
            prebuffering: true,
            seen_first_pcm: false,
            underruns_total: 0,
            underruns_window: 0,
            underruns_consecutive: 0,
            fade_pos: 0,
            terminal: false,
        }
    }

    /// Buffer one decoded frame drained from the reader.
    pub fn absorb_frame(&mut self, frame: Vec<u8>)
        requires
            frame@.len() == FRAME_BYTES,
            old(self).wf(),
        ensures
            final(self).wf(),
            *final(self) == (PlaybackTicker { buf: final(self).buf, ..*old(self) }),
            final(self).buf@ == old(self).buf@.push(frame),
    {
        self.buf.push(frame);
    }

    /// Whether the tick may wait [`GRACE_WAIT_MS`] for a late frame: past
    /// pre-buffering with nothing buffered.
    pub fn wants_grace_wait(&self) -> (r: bool)
        ensures
            r == (!self.prebuffering && self.buf@.len() == 0),
    {
        !self.prebuffering && self.buf.len() == 0
    }

    /// One 20 ms tick. `upstream_closed` says the reader channel is closed
    /// and drained; `elapsed_ms` is the time since the playback started.
    /// Exactly one packet (real or silence) is due per tick once
    /// pre-buffering is over, until the single terminal outcome.
    pub fn tick(&mut self, upstream_closed: bool, elapsed_ms: u64) -> (r: TickOutcome)
        requires
            !old(self).terminal,
            old(self).wf(),
        ensures
            final(self).wf(),
            final(self).terminal == (r is Finish || r is Fail),
            final(self).seen_first_pcm == (old(self).seen_first_pcm || old(self).buf@.len() > 0),
            // no PCM ever, and none can come or the wait ran out: fail
            (r matches TickOutcome::Fail(f) && f == PlaybackFailure::NoPcm) <==> (!old(self).seen_first_pcm && old(self).buf@.len() == 0 && (upstream_closed || elapsed_ms
                >= NO_PCM_FAIL_MS)),
            // pre-buffer: upstream still open and the target not reached
            !(r matches TickOutcome::Fail(PlaybackFailure::NoPcm)) ==> final(self).prebuffering
                == (old(self).prebuffering && !upstream_closed && old(self).buf@.len()
                < PREBUFFER_FRAMES),
            (r matches TickOutcome::Fail(PlaybackFailure::NoPcm)) ==> final(self).prebuffering
                == old(self).prebuffering,
            r is Prebuffer <==> (!(r is Fail) && final(self).prebuffering),
            r is Prebuffer ==> *final(self) == (PlaybackTicker {
                seen_first_pcm: final(self).seen_first_pcm,
                ..*old(self)
            }),
            // a buffered frame goes out and resets the underrun run
            r is EmitReal <==> (!(r is Fail) && !final(self).prebuffering && old(self).buf@.len() > 0),
            (r matches TickOutcome::EmitReal { frame, fade_start } ==> frame == old(self).buf@[0]
                && frame@.len() == FRAME_BYTES && fade_start == old(self).fade_pos),
            r is EmitReal ==> final(self).buf@ == old(self).buf@.drop_first()
                && final(self).underruns_consecutive == 0 && final(self).underruns_total == old(self).underruns_total && final(self).underruns_window == old(self).underruns_window
                && final(self).fade_pos == (if old(self).fade_pos + FRAME_SAMPLES_PER_CHANNEL
                <= FADE_TOTAL_SAMPLES_PER_CHANNEL {
                old(self).fade_pos + FRAME_SAMPLES_PER_CHANNEL
            } else {
                FADE_TOTAL_SAMPLES_PER_CHANNEL as int
            }),
            !(r is EmitReal) ==> final(self).fade_pos == old(self).fade_pos,
            // the buffer ran out and the upstream is gone: natural end
            r is Finish <==> (!(r is Fail) && !final(self).prebuffering && old(self).buf@.len()
                == 0 && upstream_closed),
            // otherwise: silence keeps the cadence, counted as an underrun,
            // and a sustained run after real audio is a failure
            (r is EmitSilence || r matches TickOutcome::Fail(PlaybackFailure::SustainedUnderrun))
                <==> (!final(self).prebuffering && old(self).buf@.len() == 0 && !upstream_closed
                && !(old(self).seen_first_pcm == false && (upstream_closed || elapsed_ms
                >= NO_PCM_FAIL_MS))),
            (r is EmitSilence || r matches TickOutcome::Fail(PlaybackFailure::SustainedUnderrun))
                ==> final(self).underruns_total == spec_sat_inc(old(self).underruns_total)
                && final(self).underruns_window == spec_sat_inc(old(self).underruns_window)
                && final(self).underruns_consecutive == spec_sat_inc(old(self).underruns_consecutive) && final(self).buf@ == old(self).buf@,
            (r matches TickOutcome::Fail(f) && f == PlaybackFailure::SustainedUnderrun) <==> (
            final(self).seen_first_pcm && !final(self).prebuffering && old(self).buf@.len() == 0
                && !upstream_closed && !(old(self).seen_first_pcm == false && elapsed_ms
                >= NO_PCM_FAIL_MS) && spec_sat_inc(old(self).underruns_consecutive)
                >= UNDERRUN_FAIL_FRAMES),
            (r is Prebuffer || r is Finish || r matches TickOutcome::Fail(PlaybackFailure::NoPcm))
                ==> final(self).underruns_total == old(self).underruns_total && final(self).underruns_window == old(self).underruns_window && final(self).underruns_consecutive
                == old(self).underruns_consecutive,
    {
        if !self.seen_first_pcm {
            if self.buf.len() > 0 {
                self.seen_first_pcm = true;
            } else if upstream_closed || elapsed_ms >= NO_PCM_FAIL_MS {
                self.terminal = true;
                return TickOutcome::Fail(PlaybackFailure::NoPcm);
            }
        }

        if self.prebuffering {
            self.prebuffering = !upstream_closed && self.buf.len() < PREBUFFER_FRAMES;
            if self.prebuffering {
                return TickOutcome::Prebuffer;
            }
        }

        if self.buf.len() > 0 {
            let frame = self.buf.remove(0);
            self.underruns_consecutive = 0;
            let fade_start = self.fade_pos;
            if self.fade_pos + FRAME_SAMPLES_PER_CHANNEL <= FADE_TOTAL_SAMPLES_PER_CHANNEL {
                self.fade_pos = self.fade_pos + FRAME_SAMPLES_PER_CHANNEL;
            } else {
                self.fade_pos = FADE_TOTAL_SAMPLES_PER_CHANNEL;
            }
            proof {
                assert(self.buf@ =~= old(self).buf@.drop_first());
            }
            return TickOutcome::EmitReal { frame, fade_start };
        }

        if upstream_closed {
            self.terminal = true;
            return TickOutcome::Finish;
        }

        self.underruns_total = sat_inc(self.underruns_total);
        self.underruns_window = sat_inc(self.underruns_window);
        self.underruns_consecutive = sat_inc(self.underruns_consecutive);

        if self.seen_first_pcm && self.underruns_consecutive >= UNDERRUN_FAIL_FRAMES {
            self.terminal = true;
            return TickOutcome::Fail(PlaybackFailure::SustainedUnderrun);
        }

        TickOutcome::EmitSilence
    }

    /// Begin a new diagnostic window.
    pub fn reset_window(&mut self)
        ensures
            *final(self) == (PlaybackTicker { underruns_window: 0, ..*old(self) }),
    {
        self.underruns_window = 0;
    }
}

/// Saturating increment.
pub fn sat_inc(x: u64) -> (r: u64)
    ensures
        r == spec_sat_inc(x),
{
    if x == u64::MAX {
        x
    } else {
        x + 1
    }
}

/// Whether this many total underruns are due a periodic log line.
pub fn should_log_underrun(total: u64) -> (r: bool)
    ensures
        r == (total > 0 && total % UNDERRUN_LOG_EVERY == 0),
{
    total > 0 && total % UNDERRUN_LOG_EVERY == 0
}

/// The playback event a terminal outcome stands for: FINISHED for the
/// natural end of the stream, ERROR for a supply failure, nothing for a
/// non-terminal tick.
pub open spec fn spec_terminal_event_type(o: TickOutcome) -> Option<i32> {
    match o {
        TickOutcome::Finish => Some(PLAYBACK_FINISHED),
        TickOutcome::Fail(_) => Some(PLAYBACK_ERROR),
        _ => None,
    }
}

/// Map a tick outcome to the playback event it must raise.
pub fn terminal_event_type(o: &TickOutcome) -> (r: Option<i32>)
    ensures
        r == spec_terminal_event_type(*o),
{
    match o {
        TickOutcome::Finish => Some(PLAYBACK_FINISHED),
        TickOutcome::Fail(_) => Some(PLAYBACK_ERROR),
        _ => None,
    }
}

/// Terminal exclusivity: a playback that reached STARTED raises exactly
/// one of FINISHED or ERROR. [`PlaybackTicker::tick`] demands a
/// non-terminal machine and marks it terminal exactly when it hands out
/// Finish or Fail, so one terminal outcome ends the run; that outcome
/// stands for FINISHED exactly when the stream ended naturally, for ERROR
/// exactly when the supply failed, and never for both.
pub proof fn lemma_one_terminal_event(o: TickOutcome)
    ensures
        spec_terminal_event_type(o) == Some(PLAYBACK_FINISHED) <==> o is Finish,
        spec_terminal_event_type(o) == Some(PLAYBACK_ERROR) <==> o is Fail,
        !(spec_terminal_event_type(o) == Some(PLAYBACK_FINISHED) && spec_terminal_event_type(o)
            == Some(PLAYBACK_ERROR)),
{
}

/// Whether a tick outcome carries a packet to send.
pub open spec fn spec_emits_packet(o: TickOutcome) -> bool {
    o is EmitReal || o is EmitSilence
}

/// How many packets a run of tick outcomes emits.
pub open spec fn spec_packet_count(os: Seq<TickOutcome>) -> nat
    decreases os.len(),
{
    if os.len() == 0 {
        0
    } else {
        (if spec_emits_packet(os[0]) {
            1nat
        } else {
            0nat
        }) + spec_packet_count(os.drop_first())
    }
}

/// Cadence: every tick past pre-buffering that does not end the playback
/// emits exactly one packet, so a stretch of n such ticks emits exactly n
/// packets — at the fixed 20 ms tick interval, one packet per 20 ms.
pub proof fn lemma_cadence(os: Seq<TickOutcome>)
    requires
        forall|i: int| 0 <= i < os.len() ==> spec_emits_packet(#[trigger] os[i]),
    ensures
        spec_packet_count(os) == os.len(),
    decreases os.len(),
{
    if os.len() > 0 {
        assert(spec_emits_packet(os[0]));
        lemma_cadence(os.drop_first());
    }
}

/// The little-endian signed 16-bit sample held by two bytes.
pub open spec fn spec_s16_from_le(lo: u8, hi: u8) -> i16 {
    (lo + hi * 256) as u16 as i16
}

/// Decode an interleaved little-endian 16-bit PCM byte frame into its
/// samples.
pub fn decode_s16le(pcm: &Vec<u8>) -> (r: Vec<i16>)
    requires
        pcm@.len() % 2 == 0,
    ensures
        r@.len() == pcm@.len() / 2,
        forall|i: int| 0 <= i < r@.len() ==> r@[i] == spec_s16_from_le(
            pcm@[2 * i],
            pcm@[2 * i + 1],
        ),
{
    let mut r: Vec<i16> = Vec::new();
    let mut i: usize = 0;
    while i + 1 < pcm.len()
        invariant
            pcm@.len() % 2 == 0,
            i % 2 == 0,
            i <= pcm@.len(),
            r@.len() == i / 2,
            forall|j: int| 0 <= j < r@.len() ==> r@[j] == spec_s16_from_le(
                pcm@[2 * j],
                pcm@[2 * j + 1],
            ),
        decreases pcm@.len() - i,
    {
        let lo = pcm[i];
        let hi = pcm[i + 1];
        let v: u16 = lo as u16 + (hi as u16) * 256;
        r.push(v as i16);
        i = i + 2;
    }
    r
}

/// One frame of silence: all-zero PCM bytes.
pub fn silence_frame() -> (r: Vec<u8>)
    ensures
        r@.len() == FRAME_BYTES,
        forall|i: int| 0 <= i < r@.len() ==> r@[i] == 0,
{
    let mut r: Vec<u8> = Vec::new();
    let mut i: usize = 0;
    while i < FRAME_BYTES
        invariant
            i <= FRAME_BYTES,
            r@.len() == i,
            forall|j: int| 0 <= j < r@.len() ==> r@[j] == 0,
        decreases FRAME_BYTES - i,
    {
        r.push(0);
        i = i + 1;
    }
    r
}

} // verus!
