//! Core of a virtual-console runtime: rollback save states over a
//! deterministic guest, double-buffered player input with edge detection,
//! and the lock-free handoff of mixer state to a real-time audio thread.
use vstd::prelude::*;

pub mod audio;
pub mod buttons;
pub mod channel;
pub mod console;
pub mod contexts;
pub mod guest;
pub mod input_context;
pub mod input_state;
pub mod snapshot;

verus! {

/// Number of sound-effect channels mixed by the audio core.
pub const SFX_CHANNELS: usize = 8;

/// Number of tracks a song plays at once.
pub const SONG_TRACK_CHANNELS: usize = 8;

/// Capacity of the simulation-to-audio channel: the most in-flight
/// mixer snapshots the audio thread can fall behind by.
pub const MAX_ROLLBACK_SOUNDS: usize = 4;

} // verus!
