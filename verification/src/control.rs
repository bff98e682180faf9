use vstd::prelude::*;

verus! {

use vstd::string::StringExecFns;

use crate::clamp_i32;
use crate::events::{PLAYBACK_STARTED, LOG_INFO, TARGET_CHANNEL, TARGET_SERVER};
use crate::status::{
    PlaybackState, SharedStatus, PersistedVoiceState, clamp_exec, VOLUME_MAX_PERCENT,
    PAN_MIN_MILLI, PAN_MAX_MILLI, WIDTH_MAX_MILLI, BASS_MAX_MILLI, MIX_MAX_MILLI,
};

/// Longest client description the control plane forwards, in bytes.
pub const MAX_DESCRIPTION_BYTES: usize = 700;

/// The byte length of a string under UTF-8.
pub open spec fn utf8_len(s: Seq<char>) -> nat {
    vstd::utf8::encode_utf8(s).len()
}

/// One effect a control operation asks its surroundings to perform, in
/// order. The control plane itself only decides; performing the effects
/// (spawning tasks, broadcasting, queueing) is the caller's part.
#[derive(Clone, Debug)]
pub enum Action {
    /// Cancel the active playback task and wait for it to join, so that
    /// its transcoder process is reaped before anything else happens.
    StopPlayback,
    /// Spawn a fresh playback task for this source.
    SpawnPlayback { title: String, source_url: String },
    /// Set the pause flag observed by the active playback task.
    SignalPause { paused: bool },
    /// Broadcast a playback lifecycle event.
    EmitPlayback { event_type: i32, title: String, source_url: String, detail: String },
    /// Broadcast a log event.
    EmitLog { level: i32, message: String },
    /// Queue a chat notice (targetmode 2 channel, 3 server).
    QueueNotice { target_mode: i32, message: String },
    /// Forward a raw `clientupdate client_description=…` command.
    SendClientDescription { description: String },
    /// Hand a tunables snapshot to the persistence task.
    PersistSnapshot { snapshot: PersistedVoiceState },
}

/// How one action changes the number of live playback tasks:
/// `StopPlayback` joins the previous task (none is left), `SpawnPlayback`
/// starts one, everything else leaves them alone.
pub open spec fn step_live(live: nat, a: Action) -> nat {
    match a {
        Action::StopPlayback => 0,
        Action::SpawnPlayback { .. } => live + 1,
        _ => live,
    }
}

/// The number of live playback tasks after an action list runs.
pub open spec fn live_after(live0: nat, actions: Seq<Action>) -> nat
    decreases actions.len(),
{
    if actions.len() == 0 {
        live0
    } else {
        live_after(step_live(live0, actions[0]), actions.drop_first())
    }
}

/// The number of live playback tasks never exceeds one while the action
/// list runs.
pub open spec fn live_bounded(live0: nat, actions: Seq<Action>) -> bool
    decreases actions.len(),
{
    live0 <= 1 && (actions.len() != 0 ==> live_bounded(step_live(live0, actions[0]), actions.drop_first()))
}

/// How many STARTED playback events an action list broadcasts.
pub open spec fn count_started(actions: Seq<Action>) -> nat
    decreases actions.len(),
{
    if actions.len() == 0 {
        0
    } else {
        (if actions[0] matches Action::EmitPlayback { event_type, .. } && event_type == PLAYBACK_STARTED {
            1nat
        } else {
            0nat
        }) + count_started(actions.drop_first())
    }
}

/// Unfold the live-task fold and the STARTED count over a leading action.
pub proof fn lemma_actions_cons(live0: nat, a: Action, rest: Seq<Action>)
    ensures
        live_after(live0, seq![a] + rest) == live_after(step_live(live0, a), rest),
        live_bounded(live0, seq![a] + rest) == (live0 <= 1 && live_bounded(step_live(live0, a), rest)),
        count_started(seq![a] + rest) == (if a matches Action::EmitPlayback { event_type, .. }
            && event_type == PLAYBACK_STARTED {
            1nat
        } else {
            0nat
        }) + count_started(rest),
{
    let s = seq![a] + rest;
    assert(s.len() == 1 + rest.len());
    assert(s[0] == a);
    assert(s.drop_first() =~= rest);
}

/// The response of a command-shaped control operation.
#[derive(Clone, Debug)]
pub struct CommandResponse {
    pub ok: bool,
    pub message: String,
}

/// A read-only snapshot of the playback status.
#[derive(Clone, Debug)]
pub struct StatusResponse {
    pub state: i32,
    pub now_playing_title: String,
    pub now_playing_source_url: String,
    pub volume_percent: i32,
}

/// A read-only snapshot of the FX parameters, in thousandths.
#[derive(Clone, Copy, Debug, PartialEq, Eq, Structural)]
pub struct AudioFxResponse {
    pub pan_milli: i32,
    pub width_milli: i32,
    pub swap_lr: bool,
    pub bass_db_milli: i32,
    pub reverb_mix_milli: i32,
}

/// The optional per-field FX update carried by a set-audio-fx request;
/// a field left `None` is unchanged.
#[derive(Clone, Copy, Debug, PartialEq, Eq, Structural)]
pub struct AudioFxUpdate {
    pub pan_milli: Option<i32>,
    pub width_milli: Option<i32>,
    pub swap_lr: Option<bool>,
    pub bass_db_milli: Option<i32>,
    pub reverb_mix_milli: Option<i32>,
}

/// The control-plane state machine: the shared status record plus the
/// playback slot. `playback_active` says whether a playback task is live;
/// replacing it always goes through [`Controller::stop_current`].
pub struct Controller {
    pub status: SharedStatus,
    pub playback_active: bool,
}

impl Controller {
    /// The live-task count a controller stands for.
    pub open spec fn spec_live(self) -> nat {
        if self.playback_active {
            1
        } else {
            0
        }
    }

    /// Well-formedness: the status record is well formed, and the playback
    /// slot is only occupied while something is playing or paused.
    pub open spec fn wf(self) -> bool {
        self.status.wf()
    }

    /// A controller for a freshly started service: idle, nothing live,
    /// default tunables.
    pub fn new() -> (r: Controller)
        ensures
            r.status.state is Idle,
            r.status.now_playing_title@.len() == 0,
            r.status.now_playing_source_url@.len() == 0,
            PersistedVoiceState::spec_from_status(r.status) == PersistedVoiceState::spec_default(),
            !r.playback_active,
            r.wf(),
    {
        Controller { status: SharedStatus::initial(), playback_active: false }
    }

    /// Take the playback slot: cancel and join whatever was live. After
    /// this returns no playback task is left, so the next spawn never
    /// coexists with the previous task.
    pub fn stop_current(&mut self) -> (actions: Vec<Action>)
        ensures
            !final(self).playback_active,
            final(self).status == old(self).status,
            actions@ == (if old(self).playback_active {
                seq![Action::StopPlayback]
            } else {
                Seq::<Action>::empty()
            }),
            live_after(old(self).spec_live(), actions@) == 0,
            live_bounded(old(self).spec_live(), actions@),
            count_started(actions@) == 0,
    {
        let mut actions: Vec<Action> = Vec::new();
        if self.playback_active {
            actions.push(Action::StopPlayback);
            self.playback_active = false;
            proof {
                assert(actions@ =~= seq![Action::StopPlayback] + Seq::<Action>::empty());
                lemma_actions_cons(old(self).spec_live(), Action::StopPlayback, Seq::<Action>::empty());
            }
        }
        actions
    }

    /// Start a new playback: stop the previous one, record what is now
    /// playing, announce STARTED, spawn the new task, and queue the chat
    /// notice if one was given. STARTED is announced exactly once, and at
    /// no point are two playback tasks live.
    pub fn play(&mut self, title: String, source_url: String, notice: String) -> (r: (
        CommandResponse,
        Vec<Action>,
    ))
        ensures
            r.0.ok,
            r.0.message@ == "accepted"@,
            final(self).status.state is Playing,
            final(self).status.now_playing_title == title,
            final(self).status.now_playing_source_url == source_url,
            PersistedVoiceState::spec_from_status(final(self).status)
                == PersistedVoiceState::spec_from_status(old(self).status),
            final(self).playback_active,
            title@.len() > 0 && source_url@.len() > 0 && old(self).status.fx_in_range()
                ==> final(self).wf(),
            r.1@.len() == spec_started_index(old(self).playback_active) + 2 + (
            if notice@.len() > 0 {
                1int
            } else {
                0int
            }),
            old(self).playback_active ==> r.1@[0] is StopPlayback,
            ({
                let i = spec_started_index(old(self).playback_active);
                &&& (r.1@[i] matches Action::EmitPlayback { event_type, title: t, source_url: u, detail }
                    && event_type == PLAYBACK_STARTED && t == title && u == source_url
                    && detail@.len() == 0)
                &&& (r.1@[i + 1] matches Action::SpawnPlayback { title: t, source_url: u }
                    && t == title && u == source_url)
                &&& (notice@.len() > 0 ==> (r.1@[i + 2] matches Action::QueueNotice {
                    target_mode,
                    message,
                } && target_mode == TARGET_CHANNEL && message == notice))
            }),
            count_started(r.1@) == 1,
            live_bounded(old(self).spec_live(), r.1@),
            live_after(old(self).spec_live(), r.1@) == 1,
    {
        let was_active = self.playback_active;
        let mut actions = self.stop_current();

        self.status.now_playing_title = title.clone();
        self.status.now_playing_source_url = source_url.clone();
        self.status.state = PlaybackState::Playing;

        actions.push(Action::EmitPlayback {
            event_type: PLAYBACK_STARTED,
            title: title.clone(),
            source_url: source_url.clone(),
            detail: String::new(),
        });
        actions.push(Action::SpawnPlayback { title, source_url });
        self.playback_active = true;

        let has_notice = !notice.as_str().is_empty();
        if has_notice {
            actions.push(Action::QueueNotice { target_mode: TARGET_CHANNEL, message: notice });
        }

        proof {
            let l0 = old(self).spec_live();
            let a1 = actions@[spec_started_index(was_active)];
            let a2 = actions@[spec_started_index(was_active) + 1];
            if was_active {
                if has_notice {
                    assert(actions@ =~= seq![Action::StopPlayback] + (seq![a1] + (seq![a2] + (seq![
                        actions@[3],
                    ] + Seq::<Action>::empty()))));
                } else {
                    assert(actions@ =~= seq![Action::StopPlayback] + (seq![a1] + (seq![a2]
                        + Seq::<Action>::empty())));
                }
            } else {
                if has_notice {
                    assert(actions@ =~= seq![a1] + (seq![a2] + (seq![actions@[2]]
                        + Seq::<Action>::empty())));
                } else {
                    assert(actions@ =~= seq![a1] + (seq![a2] + Seq::<Action>::empty()));
                }
            }
            lemma_play_fold(l0, was_active, a1, a2, actions@, has_notice);
        }

        (CommandResponse { ok: true, message: from_literal("accepted") }, actions)
    }

    /// Pause: while something is playing the state moves to paused; the
    /// pause flag is signalled and a log line broadcast either way.
    pub fn pause(&mut self) -> (r: (CommandResponse, Vec<Action>))
        ensures
            r.0.ok,
            r.0.message@ == "ok"@,
            final(self).status.state == (if old(self).status.state is Playing {
                PlaybackState::Paused
            } else {
                old(self).status.state
            }),
            final(self).status.now_playing_title == old(self).status.now_playing_title,
            final(self).status.now_playing_source_url == old(self).status.now_playing_source_url,
            PersistedVoiceState::spec_from_status(final(self).status)
                == PersistedVoiceState::spec_from_status(old(self).status),
            final(self).playback_active == old(self).playback_active,
            old(self).wf() ==> final(self).wf(),
            r.1@.len() == 2,
            (r.1@[0] matches Action::SignalPause { paused } && paused == true),
            (r.1@[1] matches Action::EmitLog { level, message } && level == LOG_INFO
                && message@ == "paused"@),
            count_started(r.1@) == 0,
            live_bounded(old(self).spec_live(), r.1@),
            live_after(old(self).spec_live(), r.1@) == old(self).spec_live(),
    {
        if matches!(self.status.state, PlaybackState::Playing) {
            self.status.state = PlaybackState::Paused;
        }
        let mut actions: Vec<Action> = Vec::new();
        actions.push(Action::SignalPause { paused: true });
        actions.push(Action::EmitLog { level: LOG_INFO, message: from_literal("paused") });
        proof {
            lemma_two_neutral_actions(old(self).spec_live(), actions@);
        }
        (CommandResponse { ok: true, message: from_literal("ok") }, actions)
    }

    /// Resume: while paused the state moves back to playing; the pause
    /// flag is cleared and a log line broadcast either way.
    pub fn resume(&mut self) -> (r: (CommandResponse, Vec<Action>))
        ensures
            r.0.ok,
            r.0.message@ == "ok"@,
            final(self).status.state == (if old(self).status.state is Paused {
                PlaybackState::Playing
            } else {
                old(self).status.state
            }),
            final(self).status.now_playing_title == old(self).status.now_playing_title,
            final(self).status.now_playing_source_url == old(self).status.now_playing_source_url,
            PersistedVoiceState::spec_from_status(final(self).status)
                == PersistedVoiceState::spec_from_status(old(self).status),
            final(self).playback_active == old(self).playback_active,
            old(self).wf() ==> final(self).wf(),
            r.1@.len() == 2,
            (r.1@[0] matches Action::SignalPause { paused } && paused == false),
            (r.1@[1] matches Action::EmitLog { level, message } && level == LOG_INFO
                && message@ == "resumed"@),
            count_started(r.1@) == 0,
            live_bounded(old(self).spec_live(), r.1@),
            live_after(old(self).spec_live(), r.1@) == old(self).spec_live(),
    {
        if matches!(self.status.state, PlaybackState::Paused) {
            self.status.state = PlaybackState::Playing;
        }
        let mut actions: Vec<Action> = Vec::new();
        actions.push(Action::SignalPause { paused: false });
        actions.push(Action::EmitLog { level: LOG_INFO, message: from_literal("resumed") });
        proof {
            lemma_two_neutral_actions(old(self).spec_live(), actions@);
        }
        (CommandResponse { ok: true, message: from_literal("ok") }, actions)
    }

    /// Stop: take down the live playback, return to idle and clear the
    /// now-playing strings.
    pub fn stop(&mut self) -> (r: (CommandResponse, Vec<Action>))
        ensures
            r.0.ok,
            r.0.message@ == "ok"@,
            final(self).status.state is Idle,
            final(self).status.now_playing_title@.len() == 0,
            final(self).status.now_playing_source_url@.len() == 0,
            PersistedVoiceState::spec_from_status(final(self).status)
                == PersistedVoiceState::spec_from_status(old(self).status),
            !final(self).playback_active,
            old(self).status.fx_in_range() ==> final(self).wf(),
            r.1@.len() == (if old(self).playback_active {
                2int
            } else {
                1int
            }),
            old(self).playback_active ==> r.1@[0] is StopPlayback,
            (r.1@[r.1@.len() - 1] matches Action::EmitLog { level, message } && level == LOG_INFO
                && message@ == "stopped"@),
            count_started(r.1@) == 0,
            live_bounded(old(self).spec_live(), r.1@),
            live_after(old(self).spec_live(), r.1@) == 0,
    {
        let mut actions = self.stop_current();
        self.status.state = PlaybackState::Idle;
        self.status.now_playing_title = String::new();
        self.status.now_playing_source_url = String::new();
        actions.push(Action::EmitLog { level: LOG_INFO, message: from_literal("stopped") });
        proof {
            let l0 = old(self).spec_live();
            let last = actions@[actions@.len() - 1];
            if old(self).playback_active {
                assert(actions@ =~= seq![Action::StopPlayback] + (seq![last]
                    + Seq::<Action>::empty()));
                lemma_actions_cons(l0, Action::StopPlayback, seq![last] + Seq::<Action>::empty());
                lemma_actions_cons(0nat, last, Seq::<Action>::empty());
            } else {
                assert(actions@ =~= seq![last] + Seq::<Action>::empty());
                lemma_actions_cons(l0, last, Seq::<Action>::empty());
            }
        }
        (CommandResponse { ok: true, message: from_literal("ok") }, actions)
    }

    /// Skip is stop: the external collaborator decides what plays next.
    pub fn skip(&mut self) -> (r: (CommandResponse, Vec<Action>))
        ensures
            r.0.ok,
            r.0.message@ == "ok"@,
            final(self).status.state is Idle,
            final(self).status.now_playing_title@.len() == 0,
            final(self).status.now_playing_source_url@.len() == 0,
            PersistedVoiceState::spec_from_status(final(self).status)
                == PersistedVoiceState::spec_from_status(old(self).status),
            !final(self).playback_active,
            old(self).status.fx_in_range() ==> final(self).wf(),
            count_started(r.1@) == 0,
            live_bounded(old(self).spec_live(), r.1@),
            live_after(old(self).spec_live(), r.1@) == 0,
    {
        self.stop()
    }

    /// Set the volume, clamped into 0..=200, and hand the tunables to the
    /// persistence task.
    pub fn set_volume(&mut self, volume_percent: i32) -> (r: (CommandResponse, Vec<Action>))
        ensures
            r.0.ok,
            r.0.message@ == "ok"@,
            final(self).status == (SharedStatus {
                volume_percent: clamp_i32(volume_percent as int, 0, VOLUME_MAX_PERCENT as int) as i32,
                ..old(self).status
            }),
            0 <= final(self).status.volume_percent <= VOLUME_MAX_PERCENT,
            final(self).playback_active == old(self).playback_active,
            old(self).wf() ==> final(self).wf(),
            r.1@ == seq![
                Action::PersistSnapshot {
                    snapshot: PersistedVoiceState::spec_from_status(final(self).status),
                },
            ],
            count_started(r.1@) == 0,
            live_bounded(old(self).spec_live(), r.1@),
            live_after(old(self).spec_live(), r.1@) == old(self).spec_live(),
    {
        self.status.volume_percent = clamp_exec(volume_percent, 0, VOLUME_MAX_PERCENT);
        let snapshot = PersistedVoiceState::from_status(&self.status);
        let mut actions: Vec<Action> = Vec::new();
        actions.push(Action::PersistSnapshot { snapshot });
        proof {
            assert(actions@ =~= seq![Action::PersistSnapshot { snapshot }] + Seq::<Action>::empty());
            lemma_actions_cons(old(self).spec_live(), Action::PersistSnapshot { snapshot }, Seq::<
                Action,
            >::empty());
        }
        (CommandResponse { ok: true, message: from_literal("ok") }, actions)
    }

    /// Apply an FX update: every given field is clamped into its range and
    /// stored, absent fields stay; the tunables go to the persistence task.
    pub fn set_audio_fx(&mut self, update: AudioFxUpdate) -> (r: (CommandResponse, Vec<Action>))
        ensures
            r.0.ok,
            r.0.message@ == "ok"@,
            final(self).status.fx_pan_milli == (if update.pan_milli is Some {
                clamp_i32(update.pan_milli->0 as int, PAN_MIN_MILLI as int, PAN_MAX_MILLI as int) as i32
            } else {
                old(self).status.fx_pan_milli
            }),
            final(self).status.fx_width_milli == (if update.width_milli is Some {
                clamp_i32(update.width_milli->0 as int, 0, WIDTH_MAX_MILLI as int) as i32
            } else {
                old(self).status.fx_width_milli
            }),
            final(self).status.fx_swap_lr == (if update.swap_lr is Some {
                update.swap_lr->0
            } else {
                old(self).status.fx_swap_lr
            }),
            final(self).status.fx_bass_db_milli == (if update.bass_db_milli is Some {
                clamp_i32(update.bass_db_milli->0 as int, 0, BASS_MAX_MILLI as int) as i32
            } else {
                old(self).status.fx_bass_db_milli
            }),
            final(self).status.fx_reverb_mix_milli == (if update.reverb_mix_milli is Some {
                clamp_i32(update.reverb_mix_milli->0 as int, 0, MIX_MAX_MILLI as int) as i32
            } else {
                old(self).status.fx_reverb_mix_milli
            }),
            final(self).status.state == old(self).status.state,
            final(self).status.now_playing_title == old(self).status.now_playing_title,
            final(self).status.now_playing_source_url == old(self).status.now_playing_source_url,
            final(self).status.volume_percent == old(self).status.volume_percent,
            final(self).playback_active == old(self).playback_active,
            old(self).wf() ==> final(self).wf(),
            r.1@ == seq![
                Action::PersistSnapshot {
                    snapshot: PersistedVoiceState::spec_from_status(final(self).status),
                },
            ],
            count_started(r.1@) == 0,
            live_bounded(old(self).spec_live(), r.1@),
            live_after(old(self).spec_live(), r.1@) == old(self).spec_live(),
    {
        if let Some(p) = update.pan_milli {
            self.status.fx_pan_milli = clamp_exec(p, PAN_MIN_MILLI, PAN_MAX_MILLI);
        }
        if let Some(w) = update.width_milli {
            self.status.fx_width_milli = clamp_exec(w, 0, WIDTH_MAX_MILLI);
        }
        if let Some(s) = update.swap_lr {
            self.status.fx_swap_lr = s;
        }
        if let Some(b) = update.bass_db_milli {
            self.status.fx_bass_db_milli = clamp_exec(b, 0, BASS_MAX_MILLI);
        }
        if let Some(m) = update.reverb_mix_milli {
            self.status.fx_reverb_mix_milli = clamp_exec(m, 0, MIX_MAX_MILLI);
        }
        let snapshot = PersistedVoiceState::from_status(&self.status);
        let mut actions: Vec<Action> = Vec::new();
        actions.push(Action::PersistSnapshot { snapshot });
        proof {
            assert(actions@ =~= seq![Action::PersistSnapshot { snapshot }] + Seq::<Action>::empty());
            lemma_actions_cons(old(self).spec_live(), Action::PersistSnapshot { snapshot }, Seq::<
                Action,
            >::empty());
        }
        (CommandResponse { ok: true, message: from_literal("ok") }, actions)
    }

    /// Forward a client description, refusing one longer than 700 bytes
    /// with `ok == false` and leaving everything unchanged.
    pub fn set_client_description(&mut self, description: String) -> (r: (
        CommandResponse,
        Vec<Action>,
    ))
        ensures
            final(self).status == old(self).status,
            final(self).playback_active == old(self).playback_active,
            r.0.ok == (utf8_len(description@) <= MAX_DESCRIPTION_BYTES),
            r.0.ok ==> r.0.message@ == "ok"@,
            !r.0.ok ==> r.0.message@ == "description too long"@,
            r.1@ == (if utf8_len(description@) <= MAX_DESCRIPTION_BYTES {
                seq![Action::SendClientDescription { description: description }]
            } else {
                Seq::<Action>::empty()
            }),
            count_started(r.1@) == 0,
            live_bounded(old(self).spec_live(), r.1@),
            live_after(old(self).spec_live(), r.1@) == old(self).spec_live(),
    {
        if description.as_str().as_bytes().len() > MAX_DESCRIPTION_BYTES {
            let r = (
                CommandResponse { ok: false, message: from_literal("description too long") },
                Vec::new(),
            );
            return r;
        }
        let mut actions: Vec<Action> = Vec::new();
        actions.push(Action::SendClientDescription { description });
        proof {
            let a = actions@[0];
            assert(actions@ =~= seq![a] + Seq::<Action>::empty());
            lemma_actions_cons(old(self).spec_live(), a, Seq::<Action>::empty());
        }
        (CommandResponse { ok: true, message: from_literal("ok") }, actions)
    }

    /// Queue a chat notice. An empty message queues nothing; target mode 3
    /// goes to the server, everything else to the channel.
    pub fn send_notice(&mut self, message: String, target_mode: i32) -> (r: (
        CommandResponse,
        Vec<Action>,
    ))
        ensures
            r.0.ok,
            r.0.message@ == "ok"@,
            final(self).status == old(self).status,
            final(self).playback_active == old(self).playback_active,
            r.1@ == (if message@.len() > 0 {
                seq![
                    Action::QueueNotice {
                        target_mode: (if target_mode == TARGET_SERVER {
                            TARGET_SERVER
                        } else {
                            TARGET_CHANNEL
                        }),
                        message: message,
                    },
                ]
            } else {
                Seq::<Action>::empty()
            }),
            count_started(r.1@) == 0,
            live_bounded(old(self).spec_live(), r.1@),
            live_after(old(self).spec_live(), r.1@) == old(self).spec_live(),
    {
        let mut actions: Vec<Action> = Vec::new();
        if !message.as_str().is_empty() {
            let mode = if target_mode == TARGET_SERVER {
                TARGET_SERVER
            } else {
                TARGET_CHANNEL
            };
            actions.push(Action::QueueNotice { target_mode: mode, message });
            proof {
                let a = actions@[0];
                assert(actions@ =~= seq![a] + Seq::<Action>::empty());
                lemma_actions_cons(old(self).spec_live(), a, Seq::<Action>::empty());
            }
        }
        (CommandResponse { ok: true, message: from_literal("ok") }, actions)
    }

    /// The service version.
    pub fn ping(&self) -> (version: String)
        ensures
            version@ == "0.1.0"@,
    {
        from_literal("0.1.0")
    }

    /// A read-only snapshot of the playback status.
    pub fn get_status(&self) -> (r: StatusResponse)
        ensures
            r.state == self.status.state.spec_code(),
            r.now_playing_title == self.status.now_playing_title,
            r.now_playing_source_url == self.status.now_playing_source_url,
            r.volume_percent == self.status.volume_percent,
    {
        StatusResponse {
            state: self.status.state.code(),
            now_playing_title: self.status.now_playing_title.clone(),
            now_playing_source_url: self.status.now_playing_source_url.clone(),
            volume_percent: self.status.volume_percent,
        }
    }

    /// A read-only snapshot of the FX parameters.
    pub fn get_audio_fx(&self) -> (r: AudioFxResponse)
        ensures
            r.pan_milli == self.status.fx_pan_milli,
            r.width_milli == self.status.fx_width_milli,
            r.swap_lr == self.status.fx_swap_lr,
            r.bass_db_milli == self.status.fx_bass_db_milli,
            r.reverb_mix_milli == self.status.fx_reverb_mix_milli,
    {
        AudioFxResponse {
            pan_milli: self.status.fx_pan_milli,
            width_milli: self.status.fx_width_milli,
            swap_lr: self.status.fx_swap_lr,
            bass_db_milli: self.status.fx_bass_db_milli,
            reverb_mix_milli: self.status.fx_reverb_mix_milli,
        }
    }
}

/// Index of the STARTED announcement inside a play action list.
pub open spec fn spec_started_index(was_active: bool) -> int {
    if was_active {
        1
    } else {
        0
    }
}

/// Fold facts for the action list a play emits: one STARTED, never two
/// live tasks, exactly one live task afterwards.
proof fn lemma_play_fold(
    l0: nat,
    was_active: bool,
    a1: Action,
    a2: Action,
    actions: Seq<Action>,
    has_notice: bool,
)
    requires
        l0 == if was_active {
            1nat
        } else {
            0nat
        },
        (a1 matches Action::EmitPlayback { event_type, .. } && event_type == PLAYBACK_STARTED),
        a2 is SpawnPlayback,
        actions.len() == spec_started_index(was_active) + 2 + (if has_notice {
            1int
        } else {
            0int
        }),
        was_active ==> actions[0] is StopPlayback,
        actions[spec_started_index(was_active)] == a1,
        actions[spec_started_index(was_active) + 1] == a2,
        has_notice ==> (actions[spec_started_index(was_active) + 2] matches Action::QueueNotice { .. }),
    ensures
        count_started(actions) == 1,
        live_bounded(l0, actions),
        live_after(l0, actions) == 1,
{
    let i = spec_started_index(was_active);
    if has_notice {
        let a3 = actions[i + 2];
        let tail3 = seq![a3] + Seq::<Action>::empty();
        let tail2 = seq![a2] + tail3;
        let tail1 = seq![a1] + tail2;
        assert(live_after(1nat, Seq::<Action>::empty()) == 1);
        assert(count_started(Seq::<Action>::empty()) == 0);
        lemma_actions_cons(1nat, a3, Seq::<Action>::empty());
        lemma_actions_cons(0nat, a2, tail3);
        lemma_actions_cons(0nat, a1, tail2);
        if was_active {
            assert(actions =~= seq![Action::StopPlayback] + tail1);
            lemma_actions_cons(l0, Action::StopPlayback, tail1);
        } else {
            assert(actions =~= tail1);
        }
    } else {
        let tail3 = Seq::<Action>::empty();
        let tail2 = seq![a2] + tail3;
        let tail1 = seq![a1] + tail2;
        assert(live_after(1nat, tail3) == 1);
        assert(count_started(tail3) == 0);
        lemma_actions_cons(0nat, a2, tail3);
        lemma_actions_cons(0nat, a1, tail2);
        if was_active {
            assert(actions =~= seq![Action::StopPlayback] + tail1);
            lemma_actions_cons(l0, Action::StopPlayback, tail1);
        } else {
            assert(actions =~= tail1);
        }
    }
}

/// Fold facts for a two-action list that neither stops nor spawns.
proof fn lemma_two_neutral_actions(l0: nat, actions: Seq<Action>)
    requires
        l0 <= 1,
        actions.len() == 2,
        !(actions[0] is StopPlayback),
        !(actions[0] is SpawnPlayback),
        !(actions[0] matches Action::EmitPlayback { .. }),
        !(actions[1] is StopPlayback),
        !(actions[1] is SpawnPlayback),
        !(actions[1] matches Action::EmitPlayback { .. }),
    ensures
        count_started(actions) == 0,
        live_bounded(l0, actions),
        live_after(l0, actions) == l0,
{
    let a0 = actions[0];
    let a1 = actions[1];
    let tail = seq![a1] + Seq::<Action>::empty();
    lemma_actions_cons(l0, a1, Seq::<Action>::empty());
    lemma_actions_cons(l0, a0, tail);
    assert(actions =~= seq![a0] + tail);
}

/// Build an owned string from a literal.
fn from_literal(s: &str) -> (r: String)
    ensures
        r@ == s@,
{
    String::from_str(s)
}

} // verus!
