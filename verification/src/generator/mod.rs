//! Voices: what a note is played with.

pub mod detuned;
pub mod simple;
