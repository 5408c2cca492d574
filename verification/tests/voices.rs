use instrument::generator::detuned::Semitones;
use instrument::generator::simple::Simple;
use instrument::oscillator::Oscillator;
use instrument::pitch::{Compass, Pitch};
use instrument::SAMPLE_RATE;

fn chromatic() -> Compass {
    Compass::new(0, 12, 0, 10).expect("twelve semitones make an octave")
}

#[test]
fn sample_rate_is_cd_quality() {
    assert_eq!(SAMPLE_RATE, 44100);
}

#[test]
fn oscillator_from_code() {
    assert_eq!(Oscillator::from(0), Oscillator::Sine);
    assert_eq!(Oscillator::from(1), Oscillator::Square);
    assert_eq!(Oscillator::from(2), Oscillator::Triangle);
    assert_eq!(Oscillator::from(3), Oscillator::Saw);
}

#[test]
fn oscillator_from_an_unknown_code_is_the_sine() {
    assert_eq!(Oscillator::from(4), Oscillator::Sine);
    assert_eq!(Oscillator::from(-1), Oscillator::Sine);
    assert_eq!(Oscillator::from(i32::MAX), Oscillator::Sine);
    assert_eq!(Oscillator::from(i32::MIN), Oscillator::Sine);
}

#[test]
fn oscillator_into_from_code() {
    let osc: Oscillator = 2.into();
    assert_eq!(osc, Oscillator::Triangle);
}

#[test]
fn simple_keeps_its_waveform() {
    assert_eq!(Simple::new(Oscillator::Saw).oscillator(), Oscillator::Saw);
    assert_eq!(Simple::new(Oscillator::Triangle).oscillator(), Oscillator::Triangle);
    assert_eq!(Simple::square().oscillator(), Oscillator::Square);
    assert_eq!(Simple::default().oscillator(), Oscillator::Sine);
}

#[test]
fn semitones_keeps_waveform_and_detune() {
    let voice = Semitones::new(Oscillator::Triangle, -5);
    assert_eq!(voice.source().oscillator(), Oscillator::Triangle);
    assert_eq!(voice.detune(), -5);
    let voice = Semitones::square(3);
    assert_eq!(voice.source().oscillator(), Oscillator::Square);
    assert_eq!(voice.detune(), 3);
}

#[test]
fn reference_is_the_first_tone() {
    assert_eq!(Semitones::reference(), Pitch::Tone { class: 0, octave: 0 });
}

#[test]
fn interval_of_no_detune_is_none() {
    assert_eq!(Semitones::square(0).interval(&chromatic()), None);
    assert_eq!(Semitones::new(Oscillator::Sine, 0).interval(&chromatic()), None);
}

#[test]
fn interval_runs_from_the_reference_to_its_transposition() {
    let from = Pitch::Tone { class: 0, octave: 0 };
    assert_eq!(
        Semitones::square(3).interval(&chromatic()),
        Some((from, Pitch::Tone { class: 3, octave: 0 }))
    );
    assert_eq!(
        Semitones::square(12).interval(&chromatic()),
        Some((from, Pitch::Tone { class: 0, octave: 1 }))
    );
    assert_eq!(
        Semitones::square(25).interval(&chromatic()),
        Some((from, Pitch::Tone { class: 1, octave: 2 }))
    );
}

#[test]
fn interval_collapses_where_the_detune_leaves_the_compass() {
    let from = Pitch::Tone { class: 0, octave: 0 };
    // Below the reference there is nothing: the second voice stays on it.
    assert_eq!(Semitones::square(-1).interval(&chromatic()), Some((from, from)));
    assert_eq!(Semitones::square(-200).interval(&chromatic()), Some((from, from)));
    // 121 semitones up is past the ceiling of 120.
    assert_eq!(Semitones::square(121).interval(&chromatic()), Some((from, from)));
    assert_eq!(
        Semitones::square(120).interval(&chromatic()),
        Some((from, Pitch::Tone { class: 0, octave: 10 }))
    );
}
