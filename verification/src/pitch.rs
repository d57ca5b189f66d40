//! Pitches of the twelve-tone scale.

use vstd::prelude::*;
use std::ops::Sub;

verus! {

/// One of the twelve semitone classes of an octave, counted from C.
#[derive(Debug, Clone, Copy, PartialEq, Eq, PartialOrd, Ord, Hash, Structural)]
pub enum Key {
    C,
    Cs,
    D,
    Ds,
    E,
    F,
    Fs,
    G,
    Gs,
    A,
    As,
    B,
}

impl Key {
    /// How many semitone classes an octave has.
    pub const TOTAL: usize = 12;

    #[allow(non_upper_case_globals)]
    pub const Db: Key = Key::Cs;

    #[allow(non_upper_case_globals)]
    pub const Eb: Key = Key::Ds;

    #[allow(non_upper_case_globals)]
    pub const Fb: Key = Key::E;

    #[allow(non_upper_case_globals)]
    pub const Es: Key = Key::F;

    #[allow(non_upper_case_globals)]
    pub const Gb: Key = Key::Fs;

    #[allow(non_upper_case_globals)]
    pub const Ab: Key = Key::Gs;

    #[allow(non_upper_case_globals)]
    pub const Bb: Key = Key::As;

    #[allow(non_upper_case_globals)]
    pub const Cb: Key = Key::B;

    #[allow(non_upper_case_globals)]
    pub const Bs: Key = Key::C;

    /// The number of semitones from C up to this key.
    pub open spec fn spec_index(self) -> int {
        match self {
            Key::C => 0,
            Key::Cs => 1,
            Key::D => 2,
            Key::Ds => 3,
            Key::E => 4,
            Key::F => 5,
            Key::Fs => 6,
            Key::G => 7,
            Key::Gs => 8,
            Key::A => 9,
            Key::As => 10,
            Key::B => 11,
        }
    }

    pub fn index(self) -> (r: u8)
        ensures
            r == self.spec_index(),
            r < 12,
    {
        match self {
            Key::C => 0,
            Key::Cs => 1,
            Key::D => 2,
            Key::Ds => 3,
            Key::E => 4,
            Key::F => 5,
            Key::Fs => 6,
            Key::G => 7,
            Key::Gs => 8,
            Key::A => 9,
            Key::As => 10,
            Key::B => 11,
        }
    }
}

impl vstd::std_specs::ops::SubSpecImpl for Key {
    open spec fn obeys_sub_spec() -> bool {
        true
    }

    open spec fn sub_req(self, other: Key) -> bool {
        true
    }

    /// The signed number of semitones from `other` up to `self`, both taken
    /// in one octave.
    open spec fn sub_spec(self, other: Key) -> i8 {
        (self.spec_index() - other.spec_index()) as i8
    }
}

impl Sub for Key {
    type Output = i8;

    fn sub(self, other: Key) -> (r: i8)
        ensures
            r == self.spec_index() - other.spec_index(),
    {
        let high: i8 = self.index() as i8;
        let low: i8 = other.index() as i8;
        high - low
    }
}

/// A key in an octave.
#[derive(Debug, Clone, Copy, PartialEq, Eq, PartialOrd, Ord, Hash, Structural)]
pub struct Pitch {
    pub key: Key,
    pub octave: u32,
}

impl Pitch {
    /// The number of semitones from C of octave zero up to this pitch.
    pub open spec fn spec_semitones(self) -> int {
        self.octave * 12 + self.key.spec_index()
    }
}

impl vstd::std_specs::ops::SubSpecImpl for Pitch {
    open spec fn obeys_sub_spec() -> bool {
        true
    }

    open spec fn sub_req(self, other: Pitch) -> bool {
        true
    }

    /// The signed number of semitones from `other` up to `self`.
    open spec fn sub_spec(self, other: Pitch) -> i64 {
        (self.spec_semitones() - other.spec_semitones()) as i64
    }
}

impl Sub for Pitch {
    type Output = i64;

    fn sub(self, other: Pitch) -> (r: i64)
        ensures
            r == self.spec_semitones() - other.spec_semitones(),
            r == (self.octave - other.octave) * 12 + (self.key.spec_index()
                - other.key.spec_index()),
    {
        let total: i64 = Key::TOTAL as i64;
        let octave: i64 = self.octave as i64 - other.octave as i64;
        let note: i64 = (self.key - other.key) as i64;
        octave * total + note
    }
}

} // verus!
