//! The integer core of a note synthesiser: which waveform a voice uses, and
//! where a note lands when a voice is detuned by a number of semitones.
//!
//! Amplitudes, envelopes and mixing are computed by the caller; this crate
//! holds the decisions that are made on whole numbers.

use vstd::prelude::*;

pub mod generator;
pub mod oscillator;
pub mod pitch;

verus! {

/// Samples per second of every rendered buffer.
pub const SAMPLE_RATE: i32 = 44100;

} // verus!
