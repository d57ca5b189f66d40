//! The manner of a timed slot: sounding, tied or silent.

use vstd::prelude::*;
use crate::pitch::Pitch;

verus! {

/// The manner of a slot without its pitch.
#[derive(Debug, Clone, Copy, PartialEq, Eq, PartialOrd, Ord, Hash, Structural)]
pub enum MannerKind {
    Plain,
    Ligature,
    Rest,
}

impl MannerKind {
    /// The manner of this kind; only a plain manner keeps the pitch.
    pub open spec fn spec_make_note(self, pitch: Pitch) -> Manner {
        match self {
            MannerKind::Plain => Manner::Plain(pitch),
            MannerKind::Ligature => Manner::Ligature,
            MannerKind::Rest => Manner::Rest,
        }
    }

    pub fn make_note(self, pitch: Pitch) -> (r: Manner)
        ensures
            r == self.spec_make_note(pitch),
            r.spec_kind() == self,
    {
        match self {
            MannerKind::Plain => Manner::Plain(pitch),
            MannerKind::Ligature => Manner::Ligature,
            MannerKind::Rest => Manner::Rest,
        }
    }
}

/// What a slot does for its time: sound a pitch, hold on to the pitch that
/// sounded last, or stay silent.
#[derive(Debug, Clone, Copy, PartialEq, Eq, PartialOrd, Ord, Hash, Structural)]
pub enum Manner {
    Plain(Pitch),
    Ligature,
    Rest,
}

impl Manner {
    pub open spec fn spec_kind(self) -> MannerKind {
        match self {
            Manner::Plain(_) => MannerKind::Plain,
            Manner::Ligature => MannerKind::Ligature,
            Manner::Rest => MannerKind::Rest,
        }
    }

    pub fn kind(self) -> (r: MannerKind)
        ensures
            r == self.spec_kind(),
    {
        match self {
            Manner::Plain(_) => MannerKind::Plain,
            Manner::Ligature => MannerKind::Ligature,
            Manner::Rest => MannerKind::Rest,
        }
    }
}

} // verus!
