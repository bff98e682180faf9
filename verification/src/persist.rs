use vstd::prelude::*;

verus! {

use crate::status::PersistedVoiceState;

/// Quiescence the persistence task waits for before it writes, in
/// milliseconds.
pub const DEBOUNCE_MS: u64 = 200;

/// What the persistence task must do after feeding one input to the
/// debouncer.
#[derive(Clone, Copy, Debug, PartialEq, Eq, Structural)]
pub enum PersistStep {
    /// (Re)arm the debounce timer.
    ArmTimer,
    /// Write this snapshot to disk now.
    Write(PersistedVoiceState),
    /// Nothing to do.
    Stand,
}

/// The debounce state of the persistence task: the latest unwritten
/// snapshot, and whether the timer is running.
#[derive(Clone, Copy, Debug, PartialEq, Eq, Structural)]
pub struct Debouncer {
    pub pending: Option<PersistedVoiceState>,
    pub timer_armed: bool,
}

/// The debouncer state after a snapshot arrives: it replaces whatever was
/// pending and the timer restarts.
pub open spec fn spec_on_snapshot(d: Debouncer, s: PersistedVoiceState) -> Debouncer {
    Debouncer { pending: Some(s), timer_armed: true }
}

/// The debouncer state after a sequence of snapshots arrives with no
/// timer expiry in between.
pub open spec fn spec_run_snapshots(d: Debouncer, snaps: Seq<PersistedVoiceState>) -> Debouncer
    decreases snaps.len(),
{
    if snaps.len() == 0 {
        d
    } else {
        spec_on_snapshot(spec_run_snapshots(d, snaps.drop_last()), snaps.last())
    }
}

impl Debouncer {
    /// A fresh persistence task: nothing pending, timer off.
    pub fn new() -> (r: Debouncer)
        ensures
            r.pending is None,
            !r.timer_armed,
    {
        Debouncer { pending: None, timer_armed: false }
    }

    /// A mutation snapshot arrived: it replaces the pending one and the
    /// debounce timer restarts. Nothing is written yet.
    pub fn on_snapshot(&mut self, s: PersistedVoiceState) -> (step: PersistStep)
        ensures
            *final(self) == spec_on_snapshot(*old(self), s),
            step == PersistStep::ArmTimer,
    {
        self.pending = Some(s);
        self.timer_armed = true;
        PersistStep::ArmTimer
    }

    /// The debounce timer fired: the pending snapshot, if any, is written
    /// and the slot cleared, so a later expiry writes nothing.
    pub fn on_timer(&mut self) -> (step: PersistStep)
        ensures
            final(self).pending is None,
            !final(self).timer_armed,
            step == (if old(self).pending is Some {
                PersistStep::Write(old(self).pending->0)
            } else {
                PersistStep::Stand
            }),
    {
        self.timer_armed = false;
        match self.pending {
            Some(s) => {
                self.pending = None;
                PersistStep::Write(s)
            },
            None => PersistStep::Stand,
        }
    }

    /// The snapshot channel closed: flush whatever is still pending.
    pub fn on_close(&mut self) -> (step: PersistStep)
        ensures
            final(self).pending is None,
            !final(self).timer_armed,
            step == (if old(self).pending is Some {
                PersistStep::Write(old(self).pending->0)
            } else {
                PersistStep::Stand
            }),
    {
        self.timer_armed = false;
        match self.pending {
            Some(s) => {
                self.pending = None;
                PersistStep::Write(s)
            },
            None => PersistStep::Stand,
        }
    }
}

/// Debounce law: any number of mutations arriving before the timer fires
/// coalesce — none of them writes ([`Debouncer::on_snapshot`] never
/// returns a write), the expiry that follows writes exactly the final
/// snapshot, and afterwards nothing is pending, so a second expiry writes
/// nothing.
pub proof fn lemma_debounce_coalesces(d0: Debouncer, snaps: Seq<PersistedVoiceState>)
    requires
        snaps.len() > 0,
    ensures
        spec_run_snapshots(d0, snaps).pending == Some(snaps.last()),
        spec_run_snapshots(d0, snaps).timer_armed,
{
}

} // verus!
