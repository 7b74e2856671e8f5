//! Signal-processing core of a polyphonic pitch-shifting delay effect.
//!
//! Note events (pitch, velocity, timing) are turned into a continuously
//! varying per-voice delay length, and that delay length into sound through a
//! rate-limited, interpolated read over a circular history buffer.  All
//! quantities that are fractional at run time (delay lengths in samples,
//! envelope amplitudes, gains, pitch ratios) are carried as integers in Q16.16
//! fixed point, so that every step of the per-sample path is exact integer
//! arithmetic; audio samples are plain `i32` values.

use vstd::prelude::*;

pub mod buftools;
pub mod delayline;
pub mod envelope;
pub mod midivoice;
pub mod ring;
pub mod smoother;
pub mod voicebank;

verus! {

/// One whole unit in the Q16.16 fixed-point encoding used for delay lengths,
/// envelope amplitudes, gains and pitch ratios.
pub const FP_ONE: u64 = 65536;

} // verus!
