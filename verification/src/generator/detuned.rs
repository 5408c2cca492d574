//! A voice doubled at a distance of some semitones.

use crate::generator::simple::Simple;
use crate::oscillator::Oscillator;
use crate::pitch::{Compass, Pitch};
use vstd::prelude::*;

verus! {

/// A voice that sounds its waveform twice: once at the note's frequency, and
/// once shifted by as much as `detune` semitones shift the reference tone.
pub struct Semitones {
    source: Simple,
    detune: i32,
}

impl Semitones {
    /// The voice that is doubled, in contracts.
    pub closed spec fn spec_source(&self) -> &Simple {
        &self.source
    }

    /// The distance between the two voices in semitones, in contracts.
    pub closed spec fn spec_detune(&self) -> i32 {
        self.detune
    }

    /// The tone from which the distance between the voices is measured: the
    /// first pitch class of the first octave.
    pub open spec fn spec_reference() -> Pitch {
        Pitch::Tone { class: 0, octave: 0 }
    }

    /// What `interval` returns for a voice detuned by `detune` semitones.
    pub open spec fn spec_interval(compass: &Compass, detune: i32) -> Option<(Pitch, Pitch)> {
        if detune == 0 {
            None
        } else {
            Some(
                (
                    Semitones::spec_reference(),
                    compass@.transposed(Semitones::spec_reference(), detune as int),
                ),
            )
        }
    }

    /// A voice of the given waveform, doubled `by` semitones away.
    pub fn new(osc: Oscillator, by: i32) -> (voice: Semitones)
        ensures
            voice.source().oscillator() == osc,
            voice.detune() == by,
    {
        Semitones { source: Simple::new(osc), detune: by }
    }

    /// A square-wave voice, doubled `by` semitones away.
    pub fn square(by: i32) -> (voice: Semitones)
        ensures
            voice.source().oscillator() == Oscillator::Square,
            voice.detune() == by,
    {
        Semitones::new(Oscillator::Square, by)
    }

    /// The voice that is doubled.
    #[verifier::when_used_as_spec(spec_source)]
    pub fn source(&self) -> (source: &Simple)
        ensures
            source == self.source(),
    {
        &self.source
    }

    /// The distance between the two voices in semitones.
    #[verifier::when_used_as_spec(spec_detune)]
    pub fn detune(&self) -> (by: i32)
        ensures
            by == self.detune(),
    {
        self.detune
    }

    /// The tone from which the distance between the voices is measured.
    #[verifier::when_used_as_spec(spec_reference)]
    pub fn reference() -> (tone: Pitch)
        ensures
            tone == Semitones::reference(),
    {
        Pitch::Tone { class: 0, octave: 0 }
    }

    /// `note` moved by this voice's detune. A rest, and a tone that the
    /// detune would carry out of the compass, come back unchanged.
    pub fn preprocess_note(&self, compass: &Compass, note: Pitch) -> (out: Pitch)
        ensures
            out == compass@.transposed(note, self.detune() as int),
    {
        compass.transpose(note, self.detune)
    }

    /// The two tones whose frequencies are as far apart as the two voices:
    /// the reference tone and where the detune moves it. `None` for a detune
    /// of zero, where the voice is not doubled at all.
    pub fn interval(&self, compass: &Compass) -> (ends: Option<(Pitch, Pitch)>)
        ensures
            ends == Semitones::spec_interval(compass, self.detune()),
    {
        if self.detune == 0 {
            None
        } else {
            let from = Semitones::reference();
            Some((from, self.preprocess_note(compass, from)))
        }
    }
}

} // verus!
