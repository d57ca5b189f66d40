//! Songs, and the builder that puts them together bar by bar.

use vstd::prelude::*;
use crate::compass::{
    all_timed, clone_groups, groups_view, lemma_nanos_sum_concat, measure_sum,
    nanos_sum, sum_measures, Compass, CompassView, InvalidCompass,
};
use crate::note::{Note, NoteGroup, NoteGroupView, NoteKind, NoteSet};
use crate::number::{DurationExt, Natural, NaturalRatio, NANOS_PER_SEC};
use crate::pitch::{Key, Pitch};
use crate::tempo::{Dot, NoteTime, NoteTimeView, NoteValue, TimeSignature};
use std::time::Duration;

pub use crate::playable::{PlayableSong, PlayableSongBuilder};

verus! {

/// The bars as the contracts see them.
pub open spec fn compasses_view(compasses: Seq<Compass>) -> Seq<CompassView> {
    Seq::new(compasses.len(), |i: int| compasses[i]@)
}

/// Whether every bar is filled exactly.
pub open spec fn all_full(compasses: Seq<CompassView>) -> bool {
    forall|i: int| 0 <= i < compasses.len() ==> (#[trigger] compasses[i]).wf()
}

/// Whether the time of every group of every bar is defined.
pub open spec fn song_timed(compasses: Seq<CompassView>) -> bool {
    forall|i: int| 0 <= i < compasses.len() ==> (#[trigger] compasses[i]).timed()
}

/// The times of the bars in nanoseconds, added up.
pub open spec fn song_nanos(compasses: Seq<CompassView>) -> real
    decreases compasses.len(),
{
    if compasses.len() == 0 {
        0real
    } else {
        song_nanos(compasses.drop_last()) + compasses.last().nanos()
    }
}

/// The groups of all the bars, in the order in which they sound.
pub open spec fn song_slots(compasses: Seq<CompassView>) -> Seq<NoteGroupView>
    decreases compasses.len(),
{
    if compasses.len() == 0 {
        Seq::empty()
    } else {
        song_slots(compasses.drop_last()) + compasses.last().note_groups
    }
}

/// The time of a song is the time of its bars added up, and that is the
/// time of its groups added up: nothing is lost between the three.
pub proof fn lemma_song_nanos_is_slot_nanos(compasses: Seq<CompassView>)
    ensures
        song_nanos(compasses) == nanos_sum(song_slots(compasses)),
    decreases compasses.len(),
{
    if compasses.len() > 0 {
        lemma_song_nanos_is_slot_nanos(compasses.drop_last());
        lemma_nanos_sum_concat(song_slots(compasses.drop_last()), compasses.last().note_groups);
    }
}

/// Every group of a timed song has its time defined.
pub proof fn lemma_song_slots_timed(compasses: Seq<CompassView>)
    requires
        song_timed(compasses),
    ensures
        all_timed(song_slots(compasses)),
    decreases compasses.len(),
{
    if compasses.len() > 0 {
        let front = compasses.drop_last();
        assert forall|i: int| 0 <= i < front.len() implies (#[trigger] front[i]).timed() by {
            assert(front[i] == compasses[i]);
        }
        lemma_song_slots_timed(front);
        assert(compasses.last() == compasses[compasses.len() - 1]);
        assert(compasses.last().timed());
    }
}

/// A song: bars in the order in which they are played.
#[derive(Debug)]
pub struct Song {
    compasses: Vec<Compass>,
}

impl View for Song {
    type V = Seq<CompassView>;

    closed spec fn view(&self) -> Seq<CompassView> {
        compasses_view(self.compasses@)
    }
}

/// Copies the bars one by one.
fn clone_compasses(compasses: &Vec<Compass>) -> (r: Vec<Compass>)
    ensures
        compasses_view(r@) == compasses_view(compasses@),
{
    let mut copy: Vec<Compass> = Vec::new();
    let mut i: usize = 0;
    while i < compasses.len()
        invariant
            i <= compasses.len(),
            copy@.len() == i,
            forall|j: int| 0 <= j < i ==> copy@[j]@ == compasses@[j]@,
        decreases compasses.len() - i,
    {
        copy.push(compasses[i].clone());
        i += 1;
    }
    assert(compasses_view(copy@) =~= compasses_view(compasses@));
    copy
}

/// Every bar is full, because no bar can be made otherwise.
fn compasses_full(compasses: &Vec<Compass>)
    ensures
        all_full(compasses_view(compasses@)),
{
    let ghost view = compasses_view(compasses@);
    let mut i: usize = 0;
    while i < compasses.len()
        invariant
            i <= compasses.len(),
            view == compasses_view(compasses@),
            forall|j: int| 0 <= j < i ==> (#[trigger] view[j]).wf(),
        decreases compasses.len() - i,
    {
        let groups = compasses[i].note_groups();
        assert(view[i as int] == compasses@[i as int]@);
        i += 1;
    }
}

impl Song {
    /// The song of these bars.
    pub fn new(compasses: Vec<Compass>) -> (r: Self)
        ensures
            r@ == compasses_view(compasses@),
            all_full(r@),
    {
        compasses_full(&compasses);
        Song { compasses }
    }

    /// The bars of the song, each of them full.
    pub fn compasses(&self) -> (r: &Vec<Compass>)
        ensures
            compasses_view(r@) == self@,
            all_full(self@),
    {
        compasses_full(&self.compasses);
        &self.compasses
    }

    /// Whether the time of every group of the song is defined.
    pub fn is_timed(&self) -> (r: bool)
        ensures
            r == song_timed(self@),
    {
        let ghost view = self@;
        let mut i: usize = 0;
        while i < self.compasses.len()
            invariant
                i <= self.compasses.len(),
                view == compasses_view(self.compasses@),
                forall|j: int| 0 <= j < i ==> (#[trigger] view[j]).timed(),
            decreases self.compasses.len() - i,
        {
            assert(view[i as int] == self.compasses@[i as int]@);
            if !self.compasses[i].is_timed() {
                return false;
            }
            i += 1;
        }
        true
    }

    /// The time the song takes, in nanoseconds.
    pub fn nanos(&self) -> (r: NaturalRatio)
        requires
            song_timed(self@),
        ensures
            r@ == song_nanos(self@),
            r@ == nanos_sum(song_slots(self@)),
    {
        let ghost view = self@;
        let mut sum = NaturalRatio::from_integer(0);
        let mut i: usize = 0;
        while i < self.compasses.len()
            invariant
                i <= self.compasses.len(),
                view == compasses_view(self.compasses@),
                song_timed(view),
                sum@ == song_nanos(view.take(i as int)),
            decreases self.compasses.len() - i,
        {
            assert(view[i as int] == self.compasses@[i as int]@);
            assert(view.take(i + 1).drop_last() =~= view.take(i as int));
            sum = sum.plus(&self.compasses[i].nanos());
            i += 1;
        }
        proof {
            assert(view.take(i as int) =~= view);
            lemma_song_nanos_is_slot_nanos(view);
        }
        sum
    }

    /// The time the song takes, cut to whole nanoseconds.
    pub fn duration(&self) -> (r: Duration)
        requires
            song_timed(self@),
            song_nanos(self@).floor() / (NANOS_PER_SEC as int) <= u64::MAX,
        ensures
            r == Duration::spec_from_raw_nanos(song_nanos(self@).floor() as Natural),
    {
        match self.nanos().to_integer() {
            Some(nanos) => Duration::from_raw_nanos(nanos),
            None => unreached(),
        }
    }
}

impl PartialEq for Song {
    fn eq(&self, other: &Self) -> (r: bool) {
        if self.compasses.len() != other.compasses.len() {
            assert(compasses_view(self.compasses@).len() != compasses_view(
                other.compasses@,
            ).len());
            return false;
        }
        let mut i: usize = 0;
        while i < self.compasses.len()
            invariant
                i <= self.compasses.len(),
                self.compasses.len() == other.compasses.len(),
                forall|j: int| 0 <= j < i ==> self.compasses@[j]@ == other.compasses@[j]@,
            decreases self.compasses.len() - i,
        {
            if self.compasses[i] != other.compasses[i] {
                assert(compasses_view(self.compasses@)[i as int] != compasses_view(
                    other.compasses@,
                )[i as int]);
                return false;
            }
            i += 1;
        }
        assert(compasses_view(self.compasses@) =~= compasses_view(other.compasses@));
        true
    }
}

impl vstd::std_specs::cmp::PartialEqSpecImpl for Song {
    open spec fn obeys_eq_spec() -> bool {
        true
    }

    open spec fn eq_spec(&self, other: &Self) -> bool {
        self@ == other@
    }
}

impl Clone for Song {
    fn clone(&self) -> (r: Self)
        ensures
            r@ == self@,
    {
        Song { compasses: clone_compasses(&self.compasses) }
    }
}

/// What a `SongBuilder` holds, as the contracts see it.
pub struct SongBuilderView {
    pub signature: TimeSignature,
    /// The tempo, in whole notes per minute.
    pub bpm: real,
    pub tuplet: u32,
    pub note_value: NoteValue,
    pub dot: Dot,
    pub pitch: Pitch,
    pub note_kind: NoteKind,
    /// The notes of the group that is being put together.
    pub notes: Seq<Note>,
    /// The groups of the bar that is being put together.
    pub note_groups: Seq<NoteGroupView>,
    /// The bars that are done.
    pub compasses: Seq<CompassView>,
}

impl SongBuilderView {
    /// The time that the next group gets.
    pub open spec fn tempo(self) -> NoteTimeView {
        NoteTimeView {
            note_value: self.note_value,
            dot: self.dot,
            tuplet: self.tuplet,
            whole_bpm: self.bpm,
        }
    }

    /// The group that the pending notes make at the current settings.
    pub open spec fn group(self) -> NoteGroupView {
        NoteGroupView { tempo: self.tempo(), notes: self.notes }
    }

    /// The measure of the pending groups with the next group added.
    pub open spec fn next_measure(self) -> real {
        measure_sum(self.note_groups) + self.tempo().measure()
    }

    /// Whether the next group still has room in the bar.
    pub open spec fn group_fits(self) -> bool {
        self.next_measure() <= self.signature.spec_ratio()
    }

    /// Whether the pending groups fill the bar exactly.
    pub open spec fn compass_full(self) -> bool {
        measure_sum(self.note_groups) == self.signature.spec_ratio()
    }

    /// Whether notes or groups are left that no bar holds.
    pub open spec fn has_residue(self) -> bool {
        self.notes.len() > 0 || self.note_groups.len() > 0
    }

    /// What always holds of a builder: a tuplet size and a tempo above
    /// zero, and a defined time for every group, pending or in a bar.
    pub open spec fn wf(self) -> bool {
        &&& self.tuplet > 0
        &&& self.bpm > 0real
        &&& all_timed(self.note_groups)
        &&& all_full(self.compasses)
        &&& song_timed(self.compasses)
    }
}

/// Puts a song together: settings that stay until they are changed, notes
/// that gather into a group, groups that gather into a bar, bars that
/// gather into the song.
#[derive(Debug)]
pub struct SongBuilder {
    signature: TimeSignature,
    bpm: NaturalRatio,
    tuplet: u32,
    note_value: NoteValue,
    dot: Dot,
    pitch: Pitch,
    note_kind: NoteKind,
    notes: NoteSet,
    note_groups: Vec<NoteGroup>,
    compasses: Vec<Compass>,
}

impl View for SongBuilder {
    type V = SongBuilderView;

    closed spec fn view(&self) -> SongBuilderView {
        SongBuilderView {
            signature: self.signature,
            bpm: self.bpm@,
            tuplet: self.tuplet,
            note_value: self.note_value,
            dot: self.dot,
            pitch: self.pitch,
            note_kind: self.note_kind,
            notes: self.notes@,
            note_groups: groups_view(self.note_groups@),
            compasses: compasses_view(self.compasses@),
        }
    }
}

impl Default for SongBuilder {
    /// Four quarters to the bar at 120 quarters per minute; plain quarter
    /// notes on the A of octave five, without dots, in no tuplet.
    fn default() -> (r: Self)
        ensures
            r@ == (SongBuilderView {
                signature: TimeSignature { numer: 4, denom: NoteValue::Quarter },
                bpm: 30real,
                tuplet: 2,
                note_value: NoteValue::Quarter,
                dot: Dot::Undotted,
                pitch: Pitch { key: Key::A, octave: 5 },
                note_kind: NoteKind::Plain,
                notes: Seq::empty(),
                note_groups: Seq::empty(),
                compasses: Seq::empty(),
            }),
            r@.wf(),
    {
        let r = SongBuilder {
            signature: TimeSignature { numer: 4, denom: NoteValue::Quarter },
            bpm: NaturalRatio::new(120, 4),
            tuplet: 2,
            note_value: NoteValue::Quarter,
            dot: Dot::Undotted,
            pitch: Pitch { key: Key::A, octave: 5 },
            note_kind: NoteKind::Plain,
            notes: NoteSet::new(),
            note_groups: Vec::new(),
            compasses: Vec::new(),
        };
        assert(r@.note_groups =~= Seq::empty());
        assert(r@.compasses =~= Seq::empty());
        r
    }
}

impl Clone for SongBuilder {
    fn clone(&self) -> (r: Self)
        ensures
            r@ == self@,
    {
        proof {
            use_type_invariant(self);
        }
        SongBuilder {
            signature: self.signature,
            bpm: self.bpm.clone(),
            tuplet: self.tuplet,
            note_value: self.note_value,
            dot: self.dot,
            pitch: self.pitch,
            note_kind: self.note_kind,
            notes: self.notes.clone(),
            note_groups: clone_groups(&self.note_groups),
            compasses: clone_compasses(&self.compasses),
        }
    }
}

impl SongBuilder {
    #[verifier::type_invariant]
    spec fn sound(&self) -> bool {
        self@.wf()
    }

    /// Sets the time signature of the bars to come.
    pub fn signature(&mut self, signature: TimeSignature) -> (ret: &mut Self)
        ensures
            ret@ == (SongBuilderView { signature, ..old(self)@ }),
            *final(self) == *final(ret),
    {
        proof {
            use_type_invariant(&*self);
        }
        self.signature = signature;
        self
    }

    pub fn get_signature(&self) -> (r: TimeSignature)
        ensures
            r == self@.signature,
    {
        self.signature
    }

    /// Sets the tempo to `bpm` notes of the given value per minute.
    pub fn bpm(&mut self, note_value: NoteValue, bpm: NaturalRatio) -> (ret: &mut Self)
        requires
            bpm@ > 0real,
        ensures
            ret@ == (SongBuilderView {
                bpm: bpm@ / note_value.spec_numeric() as real,
                ..old(self)@
            }),
            *final(self) == *final(ret),
    {
        proof {
            use_type_invariant(&*self);
        }
        let whole = bpm.over(&NaturalRatio::from_integer(note_value.numeric() as Natural));
        assert(whole@ > 0real) by (nonlinear_arith)
            requires
                whole@ == bpm@ / note_value.spec_numeric() as real,
                bpm@ > 0real,
                note_value.spec_numeric() >= 1,
        ;
        self.bpm = whole;
        self
    }

    /// The tempo, in whole notes per minute.
    pub fn get_bpm(&self) -> (r: NaturalRatio)
        ensures
            r@ == self@.bpm,
            r@ > 0real,
    {
        proof {
            use_type_invariant(self);
        }
        self.bpm.clone()
    }

    /// Sets the size of the tuplet; two stands for no tuplet.
    pub fn tuplet(&mut self, tuplet: u32) -> (ret: &mut Self)
        requires
            tuplet > 0,
        ensures
            ret@ == (SongBuilderView { tuplet, ..old(self)@ }),
            *final(self) == *final(ret),
    {
        proof {
            use_type_invariant(&*self);
        }
        self.tuplet = tuplet;
        self
    }

    pub fn get_tuplet(&self) -> (r: u32)
        ensures
            r == self@.tuplet,
            r > 0,
    {
        proof {
            use_type_invariant(self);
        }
        self.tuplet
    }

    pub fn note_value(&mut self, note_value: NoteValue) -> (ret: &mut Self)
        ensures
            ret@ == (SongBuilderView { note_value, ..old(self)@ }),
            *final(self) == *final(ret),
    {
        proof {
            use_type_invariant(&*self);
        }
        self.note_value = note_value;
        self
    }

    pub fn get_note_value(&self) -> (r: NoteValue)
        ensures
            r == self@.note_value,
    {
        self.note_value
    }

    pub fn dot(&mut self, dot: Dot) -> (ret: &mut Self)
        ensures
            ret@ == (SongBuilderView { dot, ..old(self)@ }),
            *final(self) == *final(ret),
    {
        proof {
            use_type_invariant(&*self);
        }
        self.dot = dot;
        self
    }

    pub fn get_dot(&self) -> (r: Dot)
        ensures
            r == self@.dot,
    {
        self.dot
    }

    pub fn pitch(&mut self, pitch: Pitch) -> (ret: &mut Self)
        ensures
            ret@ == (SongBuilderView { pitch, ..old(self)@ }),
            *final(self) == *final(ret),
    {
        proof {
            use_type_invariant(&*self);
        }
        self.pitch = pitch;
        self
    }

    pub fn get_pitch(&self) -> (r: Pitch)
        ensures
            r == self@.pitch,
    {
        self.pitch
    }

    pub fn note_kind(&mut self, note_kind: NoteKind) -> (ret: &mut Self)
        ensures
            ret@ == (SongBuilderView { note_kind, ..old(self)@ }),
            *final(self) == *final(ret),
    {
        proof {
            use_type_invariant(&*self);
        }
        self.note_kind = note_kind;
        self
    }

    pub fn get_note_kind(&self) -> (r: NoteKind)
        ensures
            r == self@.note_kind,
    {
        self.note_kind
    }
}

impl SongBuilder {
    /// Adds a note of the current pitch and kind to the group that is being
    /// put together. A note that the group holds already adds nothing.
    pub fn note(&mut self) -> (ret: &mut Self)
        ensures
            ret@.notes.to_set() == old(self)@.notes.to_set().insert(
                Note { kind: old(self)@.note_kind, pitch: old(self)@.pitch },
            ),
            crate::note::strictly_rising(ret@.notes),
            ret@ == (SongBuilderView { notes: ret@.notes, ..old(self)@ }),
            *final(self) == *final(ret),
    {
        proof {
            use_type_invariant(&*self);
        }
        let mut notes = NoteSet::new();
        std::mem::swap(&mut self.notes, &mut notes);
        notes.insert(Note { pitch: self.pitch, kind: self.note_kind });
        self.notes = notes;
        self
    }

    /// Closes the group that is being put together and adds it to the bar,
    /// if the bar has room for it. Otherwise nothing changes, and the error
    /// holds the measure that the bar would have had.
    pub fn try_note_group(&mut self) -> (ret: Result<&mut Self, InvalidCompass>)
        ensures
            match ret {
                Ok(builder) => {
                    &&& old(self)@.group_fits()
                    &&& builder@ == (SongBuilderView {
                        notes: Seq::empty(),
                        note_groups: old(self)@.note_groups.push(old(self)@.group()),
                        ..old(self)@
                    })
                    &&& *final(self) == *final(builder)
                },
                Err(error) => {
                    &&& !old(self)@.group_fits()
                    &&& error@.found == old(self)@.next_measure()
                    &&& error@.expected == old(self)@.signature.spec_ratio()
                    &&& *final(self) == *old(self)
                },
            },
    {
        proof {
            use_type_invariant(&*self);
        }
        let tempo = NoteTime {
            whole_bpm: self.bpm.clone(),
            tuplet: self.tuplet,
            dot: self.dot,
            note_value: self.note_value,
        };
        let sum = sum_measures(&self.note_groups).plus(&tempo.measure());
        let expected = self.signature.ratio();
        if sum.le(&expected) {
            let ghost before = groups_view(self.note_groups@);
            let mut notes = NoteSet::new();
            std::mem::swap(&mut self.notes, &mut notes);
            let group = NoteGroup { notes, tempo };
            let mut note_groups: Vec<NoteGroup> = Vec::new();
            std::mem::swap(&mut self.note_groups, &mut note_groups);
            note_groups.push(group);
            proof {
                assert(groups_view(note_groups@) =~= before.push(old(self)@.group()));
            }
            self.note_groups = note_groups;
            Ok(self)
        } else {
            Err(InvalidCompass { expected, found: sum })
        }
    }

    /// Closes the group that is being put together and adds it to the bar,
    /// which has room for it.
    pub fn note_group(&mut self) -> (ret: &mut Self)
        requires
            old(self)@.group_fits(),
        ensures
            ret@ == (SongBuilderView {
                notes: Seq::empty(),
                note_groups: old(self)@.note_groups.push(old(self)@.group()),
                ..old(self)@
            }),
            *final(self) == *final(ret),
    {
        match self.try_note_group() {
            Ok(builder) => builder,
            Err(_) => unreached(),
        }
    }

    /// Closes the bar that is being put together and adds it to the song,
    /// if its groups fill the signature exactly. Otherwise nothing changes,
    /// and the error holds both measures.
    pub fn try_compass(&mut self) -> (ret: Result<&mut Self, InvalidCompass>)
        ensures
            match ret {
                Ok(builder) => {
                    &&& old(self)@.compass_full()
                    &&& builder@ == (SongBuilderView {
                        note_groups: Seq::empty(),
                        compasses: old(self)@.compasses.push(
                            CompassView {
                                signature: old(self)@.signature,
                                note_groups: old(self)@.note_groups,
                            },
                        ),
                        ..old(self)@
                    })
                    &&& *final(self) == *final(builder)
                },
                Err(error) => {
                    &&& !old(self)@.compass_full()
                    &&& error@.found == measure_sum(old(self)@.note_groups)
                    &&& error@.expected == old(self)@.signature.spec_ratio()
                    &&& *final(self) == *old(self)
                },
            },
    {
        proof {
            use_type_invariant(&*self);
        }
        let found = sum_measures(&self.note_groups);
        let expected = self.signature.ratio();
        if found != expected {
            return Err(InvalidCompass { expected, found });
        }
        let ghost groups = groups_view(self.note_groups@);
        let ghost before = compasses_view(self.compasses@);
        let mut note_groups: Vec<NoteGroup> = Vec::new();
        std::mem::swap(&mut self.note_groups, &mut note_groups);
        assert(groups_view(self.note_groups@) =~= Seq::empty());
        match Compass::new(self.signature, note_groups) {
            Ok(compass) => {
                let mut compasses: Vec<Compass> = Vec::new();
                std::mem::swap(&mut self.compasses, &mut compasses);
                compasses.push(compass);
                proof {
                    let after = compasses_view(compasses@);
                    let added = CompassView { signature: self.signature, note_groups: groups };
                    assert(compass@ == added);
                    assert(after =~= before.push(added));
                    assert forall|i: int| 0 <= i < after.len() implies (#[trigger] after[i]).wf()
                        && after[i].timed() by {
                        if i < before.len() {
                            assert(after[i] == before[i]);
                        }
                    }
                }
                self.compasses = compasses;
                Ok(self)
            },
            Err(_) => unreached(),
        }
    }

    /// Closes the bar that is being put together, which its groups fill
    /// exactly, and adds it to the song.
    pub fn compass(&mut self) -> (ret: &mut Self)
        requires
            old(self)@.compass_full(),
        ensures
            ret@ == (SongBuilderView {
                note_groups: Seq::empty(),
                compasses: old(self)@.compasses.push(
                    CompassView {
                        signature: old(self)@.signature,
                        note_groups: old(self)@.note_groups,
                    },
                ),
                ..old(self)@
            }),
            *final(self) == *final(ret),
    {
        match self.try_compass() {
            Ok(builder) => builder,
            Err(_) => unreached(),
        }
    }

    /// Whether notes or groups are left that no bar holds.
    pub fn has_residue(&self) -> (r: bool)
        ensures
            r == self@.has_residue(),
    {
        !self.notes.is_empty() || self.note_groups.len() > 0
    }

    /// The song of the bars that are done. Nothing may be left that no bar
    /// holds.
    pub fn finish(&self) -> (r: Song)
        requires
            !self@.has_residue(),
        ensures
            r@ == self@.compasses,
            all_full(r@),
            song_timed(r@),
    {
        proof {
            use_type_invariant(self);
        }
        Song { compasses: clone_compasses(&self.compasses) }
    }

    /// The song of the bars that are done, or nothing where notes or groups
    /// are left that no bar holds.
    pub fn try_finish(&self) -> (r: Option<Song>)
        ensures
            r is None <==> self@.has_residue(),
            r matches Some(song) ==> song@ == self@.compasses && all_full(song@) && song_timed(
                song@,
            ),
    {
        if self.has_residue() {
            None
        } else {
            Some(self.finish())
        }
    }

    /// The song of the bars that are done, which leave the builder. Nothing
    /// may be left that no bar holds.
    pub fn clear_finish(&mut self) -> (r: Song)
        requires
            !old(self)@.has_residue(),
        ensures
            r@ == old(self)@.compasses,
            all_full(r@),
            song_timed(r@),
            final(self)@ == (SongBuilderView { compasses: Seq::empty(), ..old(self)@ }),
    {
        proof {
            use_type_invariant(&*self);
        }
        let mut compasses: Vec<Compass> = Vec::new();
        std::mem::swap(&mut self.compasses, &mut compasses);
        assert(compasses_view(self.compasses@) =~= Seq::empty());
        Song { compasses }
    }

    /// The song of the bars that are done, which leave the builder, or
    /// nothing, and no change, where notes or groups are left that no bar
    /// holds.
    pub fn try_clear_finish(&mut self) -> (r: Option<Song>)
        ensures
            r is None <==> old(self)@.has_residue(),
            r is None ==> *final(self) == *old(self),
            r matches Some(song) ==> {
                &&& song@ == old(self)@.compasses
                &&& all_full(song@)
                &&& song_timed(song@)
                &&& final(self)@ == (SongBuilderView { compasses: Seq::empty(), ..old(self)@ })
            },
    {
        if self.has_residue() {
            None
        } else {
            Some(self.clear_finish())
        }
    }
}

} // verus!
