//! Waveform kinds.

use vstd::prelude::*;
use vstd::std_specs::convert::FromSpecImpl;

verus! {

/// The shape of one period of a voice.
#[derive(Copy, Clone, Debug, PartialEq, Eq, Structural)]
pub enum Oscillator {
    Sine,
    Square,
    Triangle,
    Saw,
}

impl Oscillator {
    /// The waveform that a numeric code selects: 1 is the square, 2 the
    /// triangle, 3 the saw, and every other code the sine.
    pub open spec fn of_code(code: int) -> Oscillator {
        if code == 1 {
            Oscillator::Square
        } else if code == 2 {
            Oscillator::Triangle
        } else if code == 3 {
            Oscillator::Saw
        } else {
            Oscillator::Sine
        }
    }
}

impl From<i32> for Oscillator {
    fn from(x: i32) -> (osc: Oscillator) {
        match x {
            1 => Oscillator::Square,
            2 => Oscillator::Triangle,
            3 => Oscillator::Saw,
            _ => Oscillator::Sine,
        }
    }
}

impl FromSpecImpl<i32> for Oscillator {
    open spec fn obeys_from_spec() -> bool {
        true
    }

    open spec fn from_spec(x: i32) -> Oscillator {
        Oscillator::of_code(x as int)
    }
}

} // verus!
