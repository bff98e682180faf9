use vstd::prelude::*;

verus! {

use crate::clamp_i32;

/// Lifecycle of the playback subsystem. The wire encoding of each state is
/// given by [`PlaybackState::code`].
#[derive(Clone, Copy, Debug, PartialEq, Eq, Structural)]
pub enum PlaybackState {
    Idle,
    Playing,
    Paused,
}

impl PlaybackState {
    /// Wire code of the state: idle 1, playing 2, paused 3.
    pub open spec fn spec_code(self) -> i32 {
        match self {
            PlaybackState::Idle => 1,
            PlaybackState::Playing => 2,
            PlaybackState::Paused => 3,
        }
    }

    /// Encode the state for the control-plane wire format.
    pub fn code(self) -> (r: i32)
        ensures
            r == self.spec_code(),
    {
        match self {
            PlaybackState::Idle => 1,
            PlaybackState::Playing => 2,
            PlaybackState::Paused => 3,
        }
    }
}

/// FX parameters and the volume are held as integers: the volume as a
/// percentage, every other parameter in thousandths of its unit
/// (pan -1000..=1000 stands for -1.0..=1.0, width 0..=3000 for 0.0..=3.0,
/// bass 0..=18000 for 0.0..=18.0 dB, reverb mix 0..=1000 for 0.0..=1.0).
pub const PAN_MIN_MILLI: i32 = -1000;
pub const PAN_MAX_MILLI: i32 = 1000;
pub const WIDTH_MAX_MILLI: i32 = 3000;
pub const BASS_MAX_MILLI: i32 = 18000;
pub const MIX_MAX_MILLI: i32 = 1000;
pub const VOLUME_MAX_PERCENT: i32 = 200;

/// The singleton status record of the service: playback lifecycle,
/// what is playing now, and the user-tunable audio parameters.
#[derive(Clone, Debug)]
pub struct SharedStatus {
    pub state: PlaybackState,
    pub now_playing_title: String,
    pub now_playing_source_url: String,
    pub volume_percent: i32,
    pub fx_pan_milli: i32,
    pub fx_width_milli: i32,
    pub fx_swap_lr: bool,
    pub fx_bass_db_milli: i32,
    pub fx_reverb_mix_milli: i32,
}

/// On-disk snapshot of the tunable subset of [`SharedStatus`].
#[derive(Clone, Copy, Debug, PartialEq, Eq, Structural)]
pub struct PersistedVoiceState {
    pub volume_percent: i32,
    pub fx_pan_milli: i32,
    pub fx_width_milli: i32,
    pub fx_swap_lr: bool,
    pub fx_bass_db_milli: i32,
    pub fx_reverb_mix_milli: i32,
}

impl PersistedVoiceState {
    /// Default tunables: volume 100 %, width 1.0, everything else off.
    pub open spec fn spec_default() -> PersistedVoiceState {
        PersistedVoiceState {
            volume_percent: 100,
            fx_pan_milli: 0,
            fx_width_milli: 1000,
            fx_swap_lr: false,
            fx_bass_db_milli: 0,
            fx_reverb_mix_milli: 0,
        }
    }

    /// The snapshot with every field forced into its declared range.
    pub open spec fn spec_clamped(self) -> PersistedVoiceState {
        PersistedVoiceState {
            volume_percent: clamp_i32(self.volume_percent as int, 0, VOLUME_MAX_PERCENT as int) as i32,
            fx_pan_milli: clamp_i32(self.fx_pan_milli as int, PAN_MIN_MILLI as int, PAN_MAX_MILLI as int) as i32,
            fx_width_milli: clamp_i32(self.fx_width_milli as int, 0, WIDTH_MAX_MILLI as int) as i32,
            fx_swap_lr: self.fx_swap_lr,
            fx_bass_db_milli: clamp_i32(self.fx_bass_db_milli as int, 0, BASS_MAX_MILLI as int) as i32,
            fx_reverb_mix_milli: clamp_i32(self.fx_reverb_mix_milli as int, 0, MIX_MAX_MILLI as int) as i32,
        }
    }

    /// All fields are within their declared ranges.
    pub open spec fn in_range(self) -> bool {
        &&& 0 <= self.volume_percent <= VOLUME_MAX_PERCENT
        &&& PAN_MIN_MILLI <= self.fx_pan_milli <= PAN_MAX_MILLI
        &&& 0 <= self.fx_width_milli <= WIDTH_MAX_MILLI
        &&& 0 <= self.fx_bass_db_milli <= BASS_MAX_MILLI
        &&& 0 <= self.fx_reverb_mix_milli <= MIX_MAX_MILLI
    }

    /// The tunable subset of a status record, as it is handed to the
    /// persistence task.
    pub open spec fn spec_from_status(st: SharedStatus) -> PersistedVoiceState {
        PersistedVoiceState {
            volume_percent: st.volume_percent,
            fx_pan_milli: st.fx_pan_milli,
            fx_width_milli: st.fx_width_milli,
            fx_swap_lr: st.fx_swap_lr,
            fx_bass_db_milli: st.fx_bass_db_milli,
            fx_reverb_mix_milli: st.fx_reverb_mix_milli,
        }
    }

    /// Snapshot the tunables of a status record.
    pub fn from_status(st: &SharedStatus) -> (r: PersistedVoiceState)
        ensures
            r == PersistedVoiceState::spec_from_status(*st),
    {
        PersistedVoiceState {
            volume_percent: st.volume_percent,
            fx_pan_milli: st.fx_pan_milli,
            fx_width_milli: st.fx_width_milli,
            fx_swap_lr: st.fx_swap_lr,
            fx_bass_db_milli: st.fx_bass_db_milli,
            fx_reverb_mix_milli: st.fx_reverb_mix_milli,
        }
    }

    /// Force every field into its declared range.
    pub fn clamped(&self) -> (r: PersistedVoiceState)
        ensures
            r == self.spec_clamped(),
            r.in_range(),
    {
        PersistedVoiceState {
            volume_percent: clamp_exec(self.volume_percent, 0, VOLUME_MAX_PERCENT),
            fx_pan_milli: clamp_exec(self.fx_pan_milli, PAN_MIN_MILLI, PAN_MAX_MILLI),
            fx_width_milli: clamp_exec(self.fx_width_milli, 0, WIDTH_MAX_MILLI),
            fx_swap_lr: self.fx_swap_lr,
            fx_bass_db_milli: clamp_exec(self.fx_bass_db_milli, 0, BASS_MAX_MILLI),
            fx_reverb_mix_milli: clamp_exec(self.fx_reverb_mix_milli, 0, MIX_MAX_MILLI),
        }
    }
}

impl Default for PersistedVoiceState {
    /// Default tunables, used when the snapshot file is missing or invalid.
    fn default() -> (r: Self)
        ensures
            r == PersistedVoiceState::spec_default(),
    {
        PersistedVoiceState {
            volume_percent: 100,
            fx_pan_milli: 0,
            fx_width_milli: 1000,
            fx_swap_lr: false,
            fx_bass_db_milli: 0,
            fx_reverb_mix_milli: 0,
        }
    }
}

/// Clamp `v` into `lo..=hi`.
pub fn clamp_exec(v: i32, lo: i32, hi: i32) -> (r: i32)
    requires
        lo <= hi,
    ensures
        r == clamp_i32(v as int, lo as int, hi as int),
{
    if v < lo {
        lo
    } else if v > hi {
        hi
    } else {
        v
    }
}

impl SharedStatus {
    /// The volume and every FX parameter lie in their declared ranges.
    pub open spec fn fx_in_range(self) -> bool {
        PersistedVoiceState::spec_from_status(self).in_range()
    }

    /// The now-playing strings are non-empty exactly while something is
    /// playing or paused.
    pub open spec fn now_playing_consistent(self) -> bool {
        (self.state is Playing || self.state is Paused) <==> (self.now_playing_title@.len() > 0
            && self.now_playing_source_url@.len() > 0)
    }

    /// Well-formedness of the status record.
    pub open spec fn wf(self) -> bool {
        self.fx_in_range() && self.now_playing_consistent()
    }

    /// Build the initial status record.
    pub fn initial() -> (r: SharedStatus)
        ensures
            r.state is Idle,
            r.now_playing_title@.len() == 0,
            r.now_playing_source_url@.len() == 0,
            PersistedVoiceState::spec_from_status(r) == PersistedVoiceState::spec_default(),
            r.wf(),
    {
        let r = SharedStatus {
            state: PlaybackState::Idle,
            now_playing_title: String::new(),
            now_playing_source_url: String::new(),
            volume_percent: 100,
            fx_pan_milli: 0,
            fx_width_milli: 1000,
            fx_swap_lr: false,
            fx_bass_db_milli: 0,
            fx_reverb_mix_milli: 0,
        };
        r
    }

    /// The status after a persisted snapshot is applied: every tunable is
    /// taken from the snapshot after clamping, nothing else moves.
    pub open spec fn spec_with_persisted(self, p: PersistedVoiceState) -> SharedStatus {
        let c = p.spec_clamped();
        SharedStatus {
            volume_percent: c.volume_percent,
            fx_pan_milli: c.fx_pan_milli,
            fx_width_milli: c.fx_width_milli,
            fx_swap_lr: c.fx_swap_lr,
            fx_bass_db_milli: c.fx_bass_db_milli,
            fx_reverb_mix_milli: c.fx_reverb_mix_milli,
            ..self
        }
    }

    /// Load a persisted snapshot, clamping every field into range.
    pub fn apply_persisted(&mut self, p: &PersistedVoiceState)
        ensures
            *final(self) == old(self).spec_with_persisted(*p),
            final(self).fx_in_range(),
            final(self).state == old(self).state,
            final(self).now_playing_title == old(self).now_playing_title,
            final(self).now_playing_source_url == old(self).now_playing_source_url,
    {
        let c = p.clamped();
        self.volume_percent = c.volume_percent;
        self.fx_pan_milli = c.fx_pan_milli;
        self.fx_width_milli = c.fx_width_milli;
        self.fx_swap_lr = c.fx_swap_lr;
        self.fx_bass_db_milli = c.fx_bass_db_milli;
        self.fx_reverb_mix_milli = c.fx_reverb_mix_milli;
    }
}

/// Clamping is idempotent: a snapshot already in range is left unchanged.
pub proof fn lemma_clamped_idempotent(p: PersistedVoiceState)
    ensures
        p.spec_clamped().spec_clamped() == p.spec_clamped(),
        p.in_range() ==> p.spec_clamped() == p,
{
}

/// Persistence round trip: after a snapshot `p` is loaded, snapshotting the
/// status and loading that snapshot again changes nothing — the effective
/// values survive a write, restart and reload.
pub proof fn lemma_persist_round_trip(st: SharedStatus, p: PersistedVoiceState)
    ensures
        ({
            let loaded = st.spec_with_persisted(p);
            loaded.spec_with_persisted(PersistedVoiceState::spec_from_status(loaded)) == loaded
        }),
{
}

} // verus!
