//! A voice-bridge service core: a headless TeamSpeak-3 client that streams
//! transcoded audio into a channel under a small control plane.
//!
//! The crate holds the service's decisions — the control-plane state
//! machine, the playback pacing machine, the connection actor's
//! bookkeeping, the event bus filter, the persistence debouncer and the
//! avatar one-shot — each with a contract. The I/O around them (network,
//! process pipes, files, timers) and the floating-point DSP stay with the
//! embedding program.

use vstd::prelude::*;

pub mod actor;
pub mod avatar;
pub mod control;
pub mod events;
pub mod logfmt;
pub mod persist;
pub mod playback;
pub mod queue;
pub mod status;
pub mod textutil;

verus! {

/// Clamp an integer into `lo..=hi`.
pub open spec fn clamp_i32(v: int, lo: int, hi: int) -> int {
    if v < lo {
        lo
    } else if v > hi {
        hi
    } else {
        v
    }
}

} // verus!
