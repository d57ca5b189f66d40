//! Note values, dots, time signatures and the time a note takes.

use vstd::prelude::*;
use crate::number::{lemma_quotient_positive, DurationExt, Natural, NaturalRatio, NANOS_PER_SEC};
use std::time::Duration;

verus! {

/// The value of a note: the power of two by which a whole note is divided.
#[derive(Debug, Clone, Copy, PartialEq, Eq, PartialOrd, Ord, Hash, Structural)]
pub enum NoteValue {
    Whole,
    Half,
    Quarter,
    Eighth,
    Sixteenth,
    ThirtySecond,
    SixtyForth,
}

impl NoteValue {
    /// How many notes of this value make a whole note.
    pub open spec fn spec_numeric(self) -> nat {
        match self {
            NoteValue::Whole => 1,
            NoteValue::Half => 2,
            NoteValue::Quarter => 4,
            NoteValue::Eighth => 8,
            NoteValue::Sixteenth => 16,
            NoteValue::ThirtySecond => 32,
            NoteValue::SixtyForth => 64,
        }
    }

    pub fn numeric(&self) -> (r: u32)
        ensures
            r == self.spec_numeric(),
            1 <= r <= 64,
    {
        match self {
            NoteValue::Whole => 1,
            NoteValue::Half => 2,
            NoteValue::Quarter => 4,
            NoteValue::Eighth => 8,
            NoteValue::Sixteenth => 16,
            NoteValue::ThirtySecond => 32,
            NoteValue::SixtyForth => 64,
        }
    }
}

/// The dots behind a note, each adding half of what the one before added.
#[derive(Debug, Clone, Copy, PartialEq, Eq, PartialOrd, Ord, Hash, Structural)]
pub enum Dot {
    Undotted,
    Single,
    Double,
}

impl Dot {
    /// The factor by which the dots lengthen a note: with `n` dots, two
    /// less the `n`-th power of a half.
    pub open spec fn spec_numeric(self) -> real {
        match self {
            Dot::Undotted => 1real,
            Dot::Single => 3real / 2real,
            Dot::Double => 7real / 4real,
        }
    }

    pub fn numeric(&self) -> (r: NaturalRatio)
        ensures
            r@ == self.spec_numeric(),
    {
        match self {
            Dot::Undotted => NaturalRatio::new(1, 1),
            Dot::Single => NaturalRatio::new(3, 2),
            Dot::Double => NaturalRatio::new(7, 4),
        }
    }
}

/// A time signature: how many notes of which value fill a bar.
#[derive(Debug, Clone, Copy, PartialEq, Eq, PartialOrd, Ord, Hash, Structural)]
pub struct TimeSignature {
    pub numer: u32,
    pub denom: NoteValue,
}

impl TimeSignature {
    /// The length of a bar, in whole notes.
    pub open spec fn spec_ratio(self) -> real {
        self.numer as real / self.denom.spec_numeric() as real
    }

    pub fn ratio(&self) -> (r: NaturalRatio)
        ensures
            r@ == self.spec_ratio(),
    {
        NaturalRatio::new(self.numer as Natural, self.denom.numeric() as Natural)
    }
}

/// The time a note takes: its value, its dots, the tuplet it belongs to and
/// the tempo, in whole notes per minute.
#[derive(Debug)]
pub struct NoteTime {
    pub note_value: NoteValue,
    pub dot: Dot,
    pub tuplet: u32,
    pub whole_bpm: NaturalRatio,
}

/// A `NoteTime` with its tempo as a number.
pub struct NoteTimeView {
    pub note_value: NoteValue,
    pub dot: Dot,
    pub tuplet: u32,
    pub whole_bpm: real,
}

impl View for NoteTime {
    type V = NoteTimeView;

    open spec fn view(&self) -> NoteTimeView {
        NoteTimeView {
            note_value: self.note_value,
            dot: self.dot,
            tuplet: self.tuplet,
            whole_bpm: self.whole_bpm@,
        }
    }
}

impl NoteTimeView {
    /// A tuplet divides by its size, so the size is not zero.
    pub open spec fn measurable(self) -> bool {
        self.tuplet > 0
    }

    /// A measurable time at a tempo above zero.
    pub open spec fn timed(self) -> bool {
        self.tuplet > 0 && self.whole_bpm > 0real
    }

    /// By how much the note value is divided: twice the note value over the
    /// size of the tuplet, so that a tuplet of two leaves the note value as
    /// it is.
    pub open spec fn divisor(self) -> real {
        (self.note_value.spec_numeric() * 2) as real / self.tuplet as real
    }

    /// The part of a whole note that the note takes.
    pub open spec fn measure(self) -> real {
        self.dot.spec_numeric() / self.divisor()
    }

    /// The time the note takes, in nanoseconds.
    pub open spec fn nanos(self) -> real {
        60real / self.whole_bpm * self.dot.spec_numeric() / self.divisor() * (NANOS_PER_SEC as real)
    }
}

impl Clone for NoteTime {
    fn clone(&self) -> (r: Self)
        ensures
            r@ == self@,
    {
        NoteTime {
            note_value: self.note_value,
            dot: self.dot,
            tuplet: self.tuplet,
            whole_bpm: self.whole_bpm.clone(),
        }
    }
}

impl PartialEq for NoteTime {
    fn eq(&self, other: &Self) -> (r: bool) {
        self.note_value == other.note_value && self.dot == other.dot && self.tuplet
            == other.tuplet && self.whole_bpm == other.whole_bpm
    }
}

impl vstd::std_specs::cmp::PartialEqSpecImpl for NoteTime {
    open spec fn obeys_eq_spec() -> bool {
        true
    }

    open spec fn eq_spec(&self, other: &Self) -> bool {
        self@ == other@
    }
}

impl NoteTime {
    fn divisor(&self) -> (r: NaturalRatio)
        requires
            self@.measurable(),
        ensures
            r@ == self@.divisor(),
            r@ > 0real,
    {
        proof {
            lemma_quotient_positive(self.note_value.spec_numeric() * 2, self.tuplet as nat);
        }
        NaturalRatio::new(self.note_value.numeric() as Natural * 2, self.tuplet as Natural)
    }

    /// Whether the time of the note is defined: a tuplet size and a tempo
    /// above zero.
    pub fn is_timed(&self) -> (r: bool)
        ensures
            r == self@.timed(),
    {
        self.tuplet > 0 && !self.whole_bpm.le(&NaturalRatio::from_integer(0))
    }

    pub fn measure(&self) -> (r: NaturalRatio)
        requires
            self@.measurable(),
        ensures
            r@ == self@.measure(),
    {
        let dividend = self.dot.numeric();
        let divisor = self.divisor();
        dividend.over(&divisor)
    }

    pub fn nanos(&self) -> (r: NaturalRatio)
        requires
            self@.timed(),
        ensures
            r@ == self@.nanos(),
    {
        let dividend = NaturalRatio::from_integer(60).over(&self.whole_bpm).times(
            &self.dot.numeric(),
        );
        let divisor = self.divisor();
        let secs = dividend.over(&divisor);
        secs.times(&NaturalRatio::from_integer(NANOS_PER_SEC))
    }

    /// The time the note takes, cut to whole nanoseconds.
    pub fn duration(&self) -> (r: Duration)
        requires
            self@.timed(),
            self@.nanos().floor() / (NANOS_PER_SEC as int) <= u64::MAX,
        ensures
            r == Duration::spec_from_raw_nanos(self@.nanos().floor() as Natural),
    {
        match self.nanos().to_integer() {
            Some(nanos) => Duration::from_raw_nanos(nanos),
            None => unreached(),
        }
    }
}

} // verus!
