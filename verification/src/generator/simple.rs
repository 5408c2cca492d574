//! A voice of one plain waveform.

use crate::oscillator::Oscillator;
use vstd::prelude::*;

verus! {

/// A voice that sounds one waveform at the note's own frequency.
pub struct Simple {
    osc: Oscillator,
}

impl Simple {
    /// The waveform of this voice, in contracts.
    pub closed spec fn spec_oscillator(&self) -> Oscillator {
        self.osc
    }

    /// The waveform of this voice.
    #[verifier::when_used_as_spec(spec_oscillator)]
    pub fn oscillator(&self) -> (osc: Oscillator)
        ensures
            osc == self.oscillator(),
    {
        self.osc
    }

    /// A voice of the given waveform.
    pub fn new(osc: Oscillator) -> (voice: Simple)
        ensures
            voice.oscillator() == osc,
    {
        Simple { osc }
    }

    /// A square-wave voice.
    pub fn square() -> (voice: Simple)
        ensures
            voice.oscillator() == Oscillator::Square,
    {
        Simple::new(Oscillator::Square)
    }
}

impl Default for Simple {
    /// A sine voice.
    fn default() -> (voice: Simple)
        ensures
            voice.oscillator() == Oscillator::Sine,
    {
        Simple { osc: Oscillator::Sine }
    }
}

} // verus!
