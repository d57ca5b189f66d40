//! Notes and the groups of notes that sound together.

use vstd::prelude::*;
use crate::manner::Manner;
use crate::pitch::Pitch;
use crate::tempo::{NoteTime, NoteTimeView};

verus! {

/// Whether a note starts to sound or holds on to a sound.
#[derive(Debug, Clone, Copy, PartialEq, Eq, PartialOrd, Ord, Hash, Structural)]
pub enum NoteKind {
    Plain,
    Ligature,
}

impl NoteKind {
    pub open spec fn spec_index(self) -> int {
        match self {
            NoteKind::Plain => 0,
            NoteKind::Ligature => 1,
        }
    }

    fn index(self) -> (r: u64)
        ensures
            r == self.spec_index(),
    {
        match self {
            NoteKind::Plain => 0,
            NoteKind::Ligature => 1,
        }
    }
}

/// A pitch that starts to sound, or that is held on.
#[derive(Debug, Clone, Copy, PartialEq, Eq, PartialOrd, Ord, Hash, Structural)]
pub struct Note {
    pub kind: NoteKind,
    pub pitch: Pitch,
}

impl Note {
    /// The place of the note in the order of notes: plain notes come before
    /// ties, a lower key before a higher one, a lower octave before a higher
    /// one.
    pub open spec fn spec_rank(self) -> int {
        (self.kind.spec_index() * 12 + self.pitch.key.spec_index()) * 0x1_0000_0000
            + self.pitch.octave
    }

    pub fn rank(&self) -> (r: u64)
        ensures
            r == self.spec_rank(),
    {
        (self.kind.index() * 12 + self.pitch.key.index() as u64) * 0x1_0000_0000
            + self.pitch.octave as u64
    }

    /// Two notes of one rank are one note.
    pub proof fn lemma_rank_injective(self, other: Note)
        requires
            self.spec_rank() == other.spec_rank(),
        ensures
            self == other,
    {
    }
}

/// Whether the notes stand in strictly rising order.
pub open spec fn strictly_rising(notes: Seq<Note>) -> bool {
    forall|i: int, j: int| 0 <= i < j < notes.len() ==> notes[i].spec_rank() < notes[j].spec_rank()
}

/// A set of notes, kept in rising order.
#[derive(Debug)]
pub struct NoteSet {
    notes: Vec<Note>,
}

impl View for NoteSet {
    type V = Seq<Note>;

    closed spec fn view(&self) -> Seq<Note> {
        self.notes@
    }
}

impl NoteSet {
    #[verifier::type_invariant]
    spec fn rising(&self) -> bool {
        strictly_rising(self.notes@)
    }

    /// The empty set.
    pub fn new() -> (r: Self)
        ensures
            r@ == Seq::<Note>::empty(),
    {
        NoteSet { notes: Vec::new() }
    }

    pub fn len(&self) -> (r: usize)
        ensures
            r == self@.len(),
    {
        self.notes.len()
    }

    pub fn is_empty(&self) -> (r: bool)
        ensures
            r == (self@.len() == 0),
    {
        self.notes.len() == 0
    }

    /// The notes in rising order.
    pub fn as_slice(&self) -> (r: &[Note])
        ensures
            r@ == self@,
            strictly_rising(self@),
    {
        proof {
            use_type_invariant(self);
        }
        self.notes.as_slice()
    }

    /// The least note of the set.
    pub fn first(&self) -> (r: Option<Note>)
        ensures
            strictly_rising(self@),
            r == if self@.len() == 0 {
                None
            } else {
                Some(self@[0])
            },
    {
        proof {
            use_type_invariant(self);
        }
        if self.notes.len() == 0 {
            None
        } else {
            Some(self.notes[0])
        }
    }

    pub fn contains(&self, note: &Note) -> (r: bool)
        ensures
            r == self@.contains(*note),
    {
        let mut i: usize = 0;
        while i < self.notes.len()
            invariant
                i <= self.notes.len(),
                forall|j: int| 0 <= j < i ==> self.notes@[j] != *note,
            decreases self.notes.len() - i,
        {
            if self.notes[i].rank() == note.rank() {
                proof {
                    self.notes@[i as int].lemma_rank_injective(*note);
                }
                return true;
            }
            i += 1;
        }
        false
    }

    /// Puts the note into the set, and says whether it was new to it.
    pub fn insert(&mut self, note: Note) -> (r: bool)
        ensures
            r == !old(self)@.contains(note),
            strictly_rising(final(self)@),
            final(self)@.to_set() == old(self)@.to_set().insert(note),
            !r ==> final(self)@ == old(self)@,
    {
        proof {
            use_type_invariant(&*self);
        }
        let rank = note.rank();
        let mut i: usize = 0;
        while i < self.notes.len() && self.notes[i].rank() < rank
            invariant
                i <= self.notes.len(),
                self.notes == old(self).notes,
                forall|j: int| 0 <= j < i ==> self.notes@[j].spec_rank() < rank,
            decreases self.notes.len() - i,
        {
            i += 1;
        }
        if i < self.notes.len() && self.notes[i].rank() == rank {
            proof {
                self.notes@[i as int].lemma_rank_injective(note);
                assert(old(self)@.to_set().insert(note) =~= old(self)@.to_set());
            }
            false
        } else {
            let ghost before = self.notes@;
            let mut notes: Vec<Note> = Vec::new();
            std::mem::swap(&mut self.notes, &mut notes);
            notes.insert(i, note);
            let ghost after = notes@;
            proof {
                assert(after == before.insert(i as int, note));
                assert forall|x: Note| !(#[trigger] before.contains(x) && x == note) by {
                    if before.contains(x) && x == note {
                        let k = choose|k: int| 0 <= k < before.len() && before[k] == x;
                        assert(before[k].spec_rank() == rank);
                    }
                }
                assert forall|x: Note| after.to_set().contains(x) <==> before.to_set().insert(
                    note,
                ).contains(x) by {
                    if after.contains(x) {
                        let k = choose|k: int| 0 <= k < after.len() && after[k] == x;
                        if k < i {
                            assert(before[k] == x);
                        } else if k > i {
                            assert(before[k - 1] == x);
                        }
                    }
                    if before.contains(x) {
                        let k = choose|k: int| 0 <= k < before.len() && before[k] == x;
                        if k < i {
                            assert(after[k] == x);
                        } else {
                            assert(after[k + 1] == x);
                        }
                    }
                    if x == note {
                        assert(after[i as int] == x);
                    }
                }
                assert(after.to_set() =~= before.to_set().insert(note));
            }
            self.notes = notes;
            true
        }
    }
}

impl Clone for NoteSet {
    fn clone(&self) -> (r: Self)
        ensures
            r@ == self@,
    {
        proof {
            use_type_invariant(self);
        }
        let notes = self.notes.clone();
        assert(notes@ =~= self.notes@);
        NoteSet { notes }
    }
}

impl PartialEq for NoteSet {
    fn eq(&self, other: &Self) -> (r: bool) {
        if self.notes.len() != other.notes.len() {
            return false;
        }
        let mut i: usize = 0;
        while i < self.notes.len()
            invariant
                i <= self.notes.len(),
                self.notes.len() == other.notes.len(),
                forall|j: int| 0 <= j < i ==> self.notes@[j] == other.notes@[j],
            decreases self.notes.len() - i,
        {
            if self.notes[i] != other.notes[i] {
                return false;
            }
            i += 1;
        }
        assert(self.notes@ =~= other.notes@);
        true
    }
}

impl vstd::std_specs::cmp::PartialEqSpecImpl for NoteSet {
    open spec fn obeys_eq_spec() -> bool {
        true
    }

    open spec fn eq_spec(&self, other: &Self) -> bool {
        self@ == other@
    }
}

/// The notes that sound together for one stretch of time.
#[derive(Debug)]
pub struct NoteGroup {
    pub tempo: NoteTime,
    pub notes: NoteSet,
}

/// A `NoteGroup` with its tempo as a number and its notes in rising order.
pub struct NoteGroupView {
    pub tempo: NoteTimeView,
    pub notes: Seq<Note>,
}

impl View for NoteGroup {
    type V = NoteGroupView;

    open spec fn view(&self) -> NoteGroupView {
        NoteGroupView { tempo: self.tempo@, notes: self.notes@ }
    }
}

impl NoteGroupView {
    /// What the group does as one voice. A group without notes rests. A
    /// group with a plain note sounds the least of its plain notes, which
    /// is the least of all its notes. A group of ties alone holds on.
    pub open spec fn manner(self) -> Manner {
        if self.notes.len() == 0 {
            Manner::Rest
        } else if self.notes[0].kind == NoteKind::Plain {
            Manner::Plain(self.notes[0].pitch)
        } else {
            Manner::Ligature
        }
    }
}

impl NoteGroup {
    pub fn manner(&self) -> (r: Manner)
        ensures
            r == self@.manner(),
    {
        match self.notes.first() {
            None => Manner::Rest,
            Some(note) => match note.kind {
                NoteKind::Plain => Manner::Plain(note.pitch),
                NoteKind::Ligature => Manner::Ligature,
            },
        }
    }
}

impl PartialEq for NoteGroup {
    fn eq(&self, other: &Self) -> (r: bool) {
        self.tempo == other.tempo && self.notes == other.notes
    }
}

impl vstd::std_specs::cmp::PartialEqSpecImpl for NoteGroup {
    open spec fn obeys_eq_spec() -> bool {
        true
    }

    open spec fn eq_spec(&self, other: &Self) -> bool {
        self@ == other@
    }
}

impl Clone for NoteGroup {
    fn clone(&self) -> (r: Self)
        ensures
            r@ == self@,
    {
        NoteGroup { tempo: self.tempo.clone(), notes: self.notes.clone() }
    }
}

} // verus!
