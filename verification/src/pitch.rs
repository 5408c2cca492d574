//! Notes as whole numbers, and the ladder of semitones they stand on.
//!
//! A tone is a pitch class (its step within the octave) and an octave. A
//! `Compass` says how many steps an octave has and which classes and octaves
//! exist; with it every tone has a position on one ladder of semitones, and
//! transposing is moving along that ladder.

use vstd::arithmetic::div_mod::{
    lemma_div_pos_is_pos, lemma_fundamental_div_mod, lemma_fundamental_div_mod_converse,
    lemma_mod_pos_bound,
};
use vstd::prelude::*;

verus! {

/// A note, as far as transposition reads it.
#[derive(Copy, Clone, Debug, PartialEq, Eq, Structural)]
pub enum Pitch {
    /// Silence. Transposition leaves it alone.
    Rest,
    /// A sounding note: the index of its pitch class and of its octave.
    Tone { class: i32, octave: i32 },
}

/// What a `Compass` stands for in contracts.
pub struct Bounds {
    /// Lowest pitch-class index.
    pub lowest_class: int,
    /// Semitones from one octave to the next.
    pub span: int,
    /// Lowest octave index.
    pub lowest_octave: int,
    /// Highest octave index.
    pub highest_octave: int,
}

/// The quotient of `a` by a positive `b`, rounded toward zero.
pub open spec fn toward_zero(a: int, b: int) -> int {
    if a >= 0 {
        a / b
    } else {
        -((-a) / b)
    }
}

/// Rounding toward zero splits `a` into whole multiples of `b` and a
/// remainder that is smaller than `b` and has the sign of `a`.
proof fn lemma_toward_zero_splits(a: int, b: int)
    requires
        b > 0,
    ensures
        a >= 0 ==> toward_zero(a, b) >= 0 && a - toward_zero(a, b) * b == a % b,
        a < 0 ==> toward_zero(a, b) <= 0 && a - toward_zero(a, b) * b == -((-a) % b),
        a >= 0 ==> 0 <= a - toward_zero(a, b) * b < b,
        a < 0 ==> -b < a - toward_zero(a, b) * b <= 0,
{
    let m = if a >= 0 { a } else { -a };
    lemma_fundamental_div_mod(m, b);
    lemma_mod_pos_bound(m, b);
    lemma_div_pos_is_pos(m, b);
    assert(b * (m / b) == (m / b) * b) by (nonlinear_arith);
    assert((-(m / b)) * b == -((m / b) * b)) by (nonlinear_arith);
}

/// No other quotient splits `a` that way.
proof fn lemma_toward_zero_unique(a: int, b: int, q: int)
    requires
        b > 0,
        a >= 0 ==> 0 <= a - q * b < b,
        a < 0 ==> -b < a - q * b <= 0,
    ensures
        toward_zero(a, b) == q,
{
    if a >= 0 {
        lemma_fundamental_div_mod_converse(a, b, q, a - q * b);
    } else {
        assert(-a == (-q) * b + (q * b - a)) by (nonlinear_arith);
        lemma_fundamental_div_mod_converse(-a, b, -q, q * b - a);
    }
}

/// A dividend of at most `h` multiples of `b` has a quotient of at most `h`.
proof fn lemma_toward_zero_at_most(a: int, b: int, h: int)
    requires
        b > 0,
        a <= h * b,
    ensures
        toward_zero(a, b) <= h,
{
    lemma_toward_zero_splits(a, b);
    let q = toward_zero(a, b);
    if q > h {
        assert(q * b >= (h + 1) * b) by (nonlinear_arith)
            requires
                q >= h + 1,
                b > 0,
        ;
        assert((h + 1) * b == h * b + b) by (nonlinear_arith);
        if a < 0 {
            assert(h * b < 0) by (nonlinear_arith)
                requires
                    h < 0,
                    b > 0,
            ;
        }
    }
}

impl Bounds {
    /// Bounds that a `Compass` can stand for: an octave has at least one
    /// step, and each number fits the machine integer it is kept in.
    pub open spec fn valid(self) -> bool {
        &&& 0 < self.span <= i32::MAX
        &&& i32::MIN <= self.lowest_class <= i32::MAX
        &&& i32::MIN <= self.lowest_octave <= i32::MAX
        &&& i32::MIN <= self.highest_octave <= i32::MAX
    }

    /// Position of a tone on the ladder of semitones.
    pub open spec fn index(self, class: int, octave: int) -> int {
        octave * self.span + class
    }

    /// The highest position a transposition may land on.
    pub open spec fn ceiling(self) -> int {
        self.highest_octave * self.span
    }

    /// The class and octave at a ladder position, or `None` where the
    /// position lies outside the bounds. The octave is the position divided
    /// by the span, rounded toward zero; the class is what remains.
    pub open spec fn place(self, position: int) -> Option<(int, int)> {
        let octave = toward_zero(position, self.span);
        let class = position - octave * self.span;
        if position > self.ceiling() || octave < self.lowest_octave || class < self.lowest_class {
            None
        } else {
            Some((class, octave))
        }
    }

    /// A tone is held when it is the tone at its own ladder position.
    pub open spec fn holds(self, note: Pitch) -> bool {
        match note {
            Pitch::Rest => false,
            Pitch::Tone { class, octave } => self.place(self.index(class as int, octave as int))
                == Some((class as int, octave as int)),
        }
    }

    /// Whether moving `note` by `by` semitones lands within the bounds.
    pub open spec fn reaches(self, note: Pitch, by: int) -> bool {
        match note {
            Pitch::Rest => false,
            Pitch::Tone { class, octave } => self.place(
                self.index(class as int, octave as int) + by,
            ) is Some,
        }
    }

    /// `note` moved by `by` semitones. A rest stays a rest, and a tone whose
    /// target lies outside the bounds stays where it is.
    pub open spec fn transposed(self, note: Pitch, by: int) -> Pitch {
        match note {
            Pitch::Rest => Pitch::Rest,
            Pitch::Tone { class, octave } => match self.place(
                self.index(class as int, octave as int) + by,
            ) {
                Some((c, o)) => Pitch::Tone { class: c as i32, octave: o as i32 },
                None => note,
            },
        }
    }
}

/// The pitch classes and octaves that a note model can name.
pub struct Compass {
    lowest_class: i32,
    span: i32,
    lowest_octave: i32,
    highest_octave: i32,
}

impl View for Compass {
    type V = Bounds;

    closed spec fn view(&self) -> Bounds {
        Bounds {
            lowest_class: self.lowest_class as int,
            span: self.span as int,
            lowest_octave: self.lowest_octave as int,
            highest_octave: self.highest_octave as int,
        }
    }
}

impl Compass {
    /// What every compass satisfies.
    #[verifier::type_invariant]
    pub closed spec fn well_formed(&self) -> bool {
        self.span > 0
    }

    /// A compass stands for valid bounds.
    pub proof fn lemma_bounds_valid(&self)
        requires
            self.well_formed(),
        ensures
            self@.valid(),
    {
    }

    /// A compass with the given bounds. There is none for an octave without
    /// steps: `span` must be positive.
    pub fn new(lowest_class: i32, span: i32, lowest_octave: i32, highest_octave: i32) -> (compass:
        Option<Compass>)
        ensures
            compass is Some <==> span > 0,
            compass matches Some(c) ==> c.well_formed() && c@ == (Bounds {
                lowest_class: lowest_class as int,
                span: span as int,
                lowest_octave: lowest_octave as int,
                highest_octave: highest_octave as int,
            }),
    {
        if span > 0 {
            Some(Compass { lowest_class, span, lowest_octave, highest_octave })
        } else {
            None
        }
    }

    /// Moves `note` by `by` semitones along the ladder.
    pub fn transpose(&self, note: Pitch, by: i32) -> (out: Pitch)
        ensures
            out == self@.transposed(note, by as int),
    {
        proof {
            use_type_invariant(self);
        }
        match note {
            Pitch::Rest => note,
            Pitch::Tone { class, octave } => {
                let span: i64 = self.span as i64;
                assert(-0x4000_0000_0000_0000 <= octave * span <= 0x4000_0000_0000_0000)
                    by (nonlinear_arith)
                    requires
                        -0x8000_0000 <= octave <= 0x7fff_ffff,
                        0 < span <= 0x7fff_ffff,
                ;
                assert(-0x4000_0000_0000_0000 <= self.highest_octave * span
                    <= 0x4000_0000_0000_0000) by (nonlinear_arith)
                    requires
                        -0x8000_0000 <= self.highest_octave <= 0x7fff_ffff,
                        0 < span <= 0x7fff_ffff,
                ;
                let position: i64 = octave as i64 * span + class as i64 + by as i64;
                if position > self.highest_octave as i64 * span {
                    return note;
                }
                let to_octave: i64;
                let to_class: i64;
                if position >= 0 {
                    to_octave = position / span;
                    to_class = position % span;
                } else {
                    let below: i64 = -position;
                    to_octave = -(below / span);
                    to_class = -(below % span);
                }
                proof {
                    lemma_toward_zero_splits(position as int, span as int);
                    lemma_toward_zero_at_most(
                        position as int,
                        span as int,
                        self.highest_octave as int,
                    );
                    assert(to_octave == toward_zero(position as int, span as int));
                    assert(to_class == position - to_octave * span);
                }
                if to_octave < self.lowest_octave as i64 || to_class < self.lowest_class as i64 {
                    return note;
                }
                Pitch::Tone { class: to_class as i32, octave: to_octave as i32 }
            },
        }
    }
}

/// The tone at a ladder position is held, sits at that position, and its
/// class and octave fit machine integers.
pub proof fn lemma_place_is_held(bounds: Bounds, position: int)
    requires
        bounds.valid(),
        bounds.place(position) is Some,
    ensures
        ({
            let (class, octave) = bounds.place(position)->Some_0;
            &&& i32::MIN <= class <= i32::MAX
            &&& i32::MIN <= octave <= i32::MAX
            &&& bounds.index(class, octave) == position
            &&& bounds.holds(Pitch::Tone { class: class as i32, octave: octave as i32 })
        }),
{
    lemma_toward_zero_splits(position, bounds.span);
    lemma_toward_zero_at_most(position, bounds.span, bounds.highest_octave);
}

/// Transposing a tone puts it at its old position plus the shift where that
/// lies within the bounds, and leaves it alone where it does not.
pub proof fn lemma_transposed_lands(bounds: Bounds, note: Pitch, by: int)
    requires
        bounds.valid(),
        note is Tone,
    ensures
        bounds.transposed(note, by) is Tone,
        !bounds.reaches(note, by) ==> bounds.transposed(note, by) == note,
        bounds.reaches(note, by) ==> bounds.holds(bounds.transposed(note, by)),
        bounds.reaches(note, by) ==> bounds.index(
            bounds.transposed(note, by)->class as int,
            bounds.transposed(note, by)->octave as int,
        ) == bounds.index(note->class as int, note->octave as int) + by,
{
    if bounds.reaches(note, by) {
        lemma_place_is_held(bounds, bounds.index(note->class as int, note->octave as int) + by);
    }
}

/// A held tone stays held wherever it is transposed to.
pub proof fn lemma_transposed_stays_held(bounds: Bounds, note: Pitch, by: int)
    requires
        bounds.valid(),
        bounds.holds(note),
    ensures
        bounds.holds(bounds.transposed(note, by)),
{
    lemma_transposed_lands(bounds, note, by);
}

/// Two transpositions in a row are one by the sum, as long as the first was
/// carried out.
pub proof fn lemma_transposed_twice(bounds: Bounds, note: Pitch, first: int, second: int)
    requires
        bounds.valid(),
        bounds.reaches(note, first),
    ensures
        bounds.transposed(bounds.transposed(note, first), second) == if bounds.reaches(
            note,
            first + second,
        ) {
            bounds.transposed(note, first + second)
        } else {
            bounds.transposed(note, first)
        },
{
    lemma_transposed_lands(bounds, note, first);
}

/// Up by some semitones and down by as many ends on the tone it began with,
/// for every held tone whose way up stays within the bounds.
pub proof fn lemma_transposed_there_and_back(bounds: Bounds, note: Pitch, by: int)
    requires
        bounds.valid(),
        bounds.holds(note),
        bounds.reaches(note, by),
    ensures
        bounds.transposed(bounds.transposed(note, by), -by) == note,
{
    lemma_transposed_twice(bounds, note, by, -by);
}

/// Where no class and no octave has a negative index, a shift that would
/// end below the bottom of the ladder or above its ceiling changes nothing.
pub proof fn lemma_transposed_beyond_bounds(bounds: Bounds, note: Pitch, by: int)
    requires
        bounds.valid(),
        bounds.lowest_class >= 0,
        bounds.lowest_octave >= 0,
        note matches Pitch::Tone { class, octave } && ({
            let target = bounds.index(class as int, octave as int) + by;
            target < 0 || target > bounds.ceiling()
        }),
    ensures
        bounds.transposed(note, by) == note,
{
    let target = bounds.index(note->class as int, note->octave as int) + by;
    lemma_toward_zero_splits(target, bounds.span);
}

} // verus!
