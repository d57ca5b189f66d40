//! Tones: a semitone in an octave, or a tie to the tone before.

use vstd::prelude::*;
use std::ops::Sub;

verus! {

/// One of the twelve semitone classes of an octave, counted from C.
#[derive(Debug, Clone, Copy, PartialEq, Eq, PartialOrd, Ord, Hash, Structural)]
pub enum Semitone {
    C,
    Cs,
    D,
    Ds,
    E,
    F,
    Fs,
    G,
    Gs,
    A,
    As,
    B,
}

impl Semitone {
    /// How many semitone classes an octave has.
    pub const TOTAL: usize = 12;

    #[allow(non_upper_case_globals)]
    pub const Db: Semitone = Semitone::Cs;

    #[allow(non_upper_case_globals)]
    pub const Eb: Semitone = Semitone::Ds;

    #[allow(non_upper_case_globals)]
    pub const Fb: Semitone = Semitone::E;

    #[allow(non_upper_case_globals)]
    pub const Es: Semitone = Semitone::F;

    #[allow(non_upper_case_globals)]
    pub const Gb: Semitone = Semitone::Fs;

    #[allow(non_upper_case_globals)]
    pub const Ab: Semitone = Semitone::Gs;

    #[allow(non_upper_case_globals)]
    pub const Bb: Semitone = Semitone::As;

    #[allow(non_upper_case_globals)]
    pub const Cb: Semitone = Semitone::B;

    #[allow(non_upper_case_globals)]
    pub const Bs: Semitone = Semitone::C;

    /// The number of semitones from C up to this semitone.
    pub open spec fn spec_index(self) -> int {
        match self {
            Semitone::C => 0,
            Semitone::Cs => 1,
            Semitone::D => 2,
            Semitone::Ds => 3,
            Semitone::E => 4,
            Semitone::F => 5,
            Semitone::Fs => 6,
            Semitone::G => 7,
            Semitone::Gs => 8,
            Semitone::A => 9,
            Semitone::As => 10,
            Semitone::B => 11,
        }
    }

    pub fn index(self) -> (r: u8)
        ensures
            r == self.spec_index(),
            r < 12,
    {
        match self {
            Semitone::C => 0,
            Semitone::Cs => 1,
            Semitone::D => 2,
            Semitone::Ds => 3,
            Semitone::E => 4,
            Semitone::F => 5,
            Semitone::Fs => 6,
            Semitone::G => 7,
            Semitone::Gs => 8,
            Semitone::A => 9,
            Semitone::As => 10,
            Semitone::B => 11,
        }
    }
}

impl vstd::std_specs::ops::SubSpecImpl for Semitone {
    open spec fn obeys_sub_spec() -> bool {
        true
    }

    open spec fn sub_req(self, other: Semitone) -> bool {
        true
    }

    /// The signed number of semitones from `other` up to `self`, both taken
    /// in one octave.
    open spec fn sub_spec(self, other: Semitone) -> i8 {
        (self.spec_index() - other.spec_index()) as i8
    }
}

impl Sub for Semitone {
    type Output = i8;

    fn sub(self, other: Semitone) -> (r: i8)
        ensures
            r == self.spec_index() - other.spec_index(),
    {
        let high: i8 = self.index() as i8;
        let low: i8 = other.index() as i8;
        high - low
    }
}

/// A semitone in an octave.
#[derive(Debug, Clone, Copy, PartialEq, Eq, PartialOrd, Ord, Hash, Structural)]
pub struct HardNote {
    pub note: Semitone,
    pub octave: u32,
}

impl HardNote {
    /// The number of semitones from C of octave zero up to this note.
    pub open spec fn spec_semitones(self) -> int {
        self.octave * 12 + self.note.spec_index()
    }
}

impl vstd::std_specs::ops::SubSpecImpl for HardNote {
    open spec fn obeys_sub_spec() -> bool {
        true
    }

    open spec fn sub_req(self, other: HardNote) -> bool {
        true
    }

    /// The signed number of semitones from `other` up to `self`.
    open spec fn sub_spec(self, other: HardNote) -> i64 {
        (self.spec_semitones() - other.spec_semitones()) as i64
    }
}

impl Sub for HardNote {
    type Output = i64;

    fn sub(self, other: HardNote) -> (r: i64)
        ensures
            r == self.spec_semitones() - other.spec_semitones(),
            r == (self.octave - other.octave) * 12 + (self.note.spec_index()
                - other.note.spec_index()),
    {
        let total: i64 = Semitone::TOTAL as i64;
        let octave: i64 = self.octave as i64 - other.octave as i64;
        let note: i64 = (self.note - other.note) as i64;
        octave * total + note
    }
}

/// What a voice does next: sound a tone, or hold on to the one before.
#[derive(Debug, Clone, Copy, PartialEq, Eq, PartialOrd, Ord, Hash, Structural)]
pub enum Note {
    Hard(HardNote),
    Ligature,
}

} // verus!
