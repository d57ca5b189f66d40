//! Bars: a time signature and the note groups that fill it exactly.

use vstd::prelude::*;
use crate::note::{NoteGroup, NoteGroupView};
use crate::number::{DurationExt, Natural, NaturalRatio, NANOS_PER_SEC};
use crate::tempo::TimeSignature;
use std::time::Duration;

verus! {

/// The groups as the contracts see them.
pub open spec fn groups_view(groups: Seq<NoteGroup>) -> Seq<NoteGroupView> {
    Seq::new(groups.len(), |i: int| groups[i]@)
}

/// Whether the measure of every group is defined.
pub open spec fn all_measurable(groups: Seq<NoteGroupView>) -> bool {
    forall|i: int| 0 <= i < groups.len() ==> (#[trigger] groups[i]).tempo.measurable()
}

/// Whether the time of every group is defined.
pub open spec fn all_timed(groups: Seq<NoteGroupView>) -> bool {
    forall|i: int| 0 <= i < groups.len() ==> (#[trigger] groups[i]).tempo.timed()
}

/// The measures of the groups, added up.
pub open spec fn measure_sum(groups: Seq<NoteGroupView>) -> real
    decreases groups.len(),
{
    if groups.len() == 0 {
        0real
    } else {
        measure_sum(groups.drop_last()) + groups.last().tempo.measure()
    }
}

/// The times of the groups in nanoseconds, added up.
pub open spec fn nanos_sum(groups: Seq<NoteGroupView>) -> real
    decreases groups.len(),
{
    if groups.len() == 0 {
        0real
    } else {
        nanos_sum(groups.drop_last()) + groups.last().tempo.nanos()
    }
}

/// The time of what comes first and of what comes after add up.
pub proof fn lemma_nanos_sum_concat(a: Seq<NoteGroupView>, b: Seq<NoteGroupView>)
    ensures
        nanos_sum(a + b) == nanos_sum(a) + nanos_sum(b),
    decreases b.len(),
{
    if b.len() == 0 {
        assert(a + b =~= a);
    } else {
        assert((a + b).drop_last() =~= a + b.drop_last());
        lemma_nanos_sum_concat(a, b.drop_last());
    }
}

/// The measures of the groups, added up exactly.
pub fn sum_measures(groups: &Vec<NoteGroup>) -> (r: NaturalRatio)
    requires
        all_measurable(groups_view(groups@)),
    ensures
        r@ == measure_sum(groups_view(groups@)),
{
    let ghost view = groups_view(groups@);
    let mut sum = NaturalRatio::from_integer(0);
    let mut i: usize = 0;
    while i < groups.len()
        invariant
            i <= groups.len(),
            view == groups_view(groups@),
            all_measurable(view),
            sum@ == measure_sum(view.take(i as int)),
        decreases groups.len() - i,
    {
        assert(view[i as int] == groups@[i as int]@);
        assert(view.take(i + 1).drop_last() =~= view.take(i as int));
        sum = sum.plus(&groups[i].tempo.measure());
        i += 1;
    }
    assert(view.take(i as int) =~= view);
    sum
}

/// The times of the groups in nanoseconds, added up exactly.
pub fn sum_nanos(groups: &Vec<NoteGroup>) -> (r: NaturalRatio)
    requires
        all_timed(groups_view(groups@)),
    ensures
        r@ == nanos_sum(groups_view(groups@)),
{
    let ghost view = groups_view(groups@);
    let mut sum = NaturalRatio::from_integer(0);
    let mut i: usize = 0;
    while i < groups.len()
        invariant
            i <= groups.len(),
            view == groups_view(groups@),
            all_timed(view),
            sum@ == nanos_sum(view.take(i as int)),
        decreases groups.len() - i,
    {
        assert(view[i as int] == groups@[i as int]@);
        assert(view.take(i + 1).drop_last() =~= view.take(i as int));
        sum = sum.plus(&groups[i].tempo.nanos());
        i += 1;
    }
    assert(view.take(i as int) =~= view);
    sum
}

/// Why a bar was refused: the measure that its groups add up to, and the
/// measure that its signature asks for.
#[derive(Debug)]
pub struct InvalidCompass {
    pub found: NaturalRatio,
    pub expected: NaturalRatio,
}

/// An `InvalidCompass` with both measures as numbers.
pub struct InvalidCompassView {
    pub found: real,
    pub expected: real,
}

impl View for InvalidCompass {
    type V = InvalidCompassView;

    open spec fn view(&self) -> InvalidCompassView {
        InvalidCompassView { found: self.found@, expected: self.expected@ }
    }
}

/// A bar. Its groups add up to exactly the measure of its signature.
#[derive(Debug)]
pub struct Compass {
    signature: TimeSignature,
    note_groups: Vec<NoteGroup>,
}

/// A `Compass` as the contracts see it.
pub struct CompassView {
    pub signature: TimeSignature,
    pub note_groups: Seq<NoteGroupView>,
}

impl CompassView {
    /// The groups are measurable and fill the bar exactly.
    pub open spec fn wf(self) -> bool {
        &&& all_measurable(self.note_groups)
        &&& measure_sum(self.note_groups) == self.signature.spec_ratio()
    }

    /// The time of every group is defined.
    pub open spec fn timed(self) -> bool {
        all_timed(self.note_groups)
    }

    /// The time the bar takes, in nanoseconds.
    pub open spec fn nanos(self) -> real {
        nanos_sum(self.note_groups)
    }
}

impl View for Compass {
    type V = CompassView;

    closed spec fn view(&self) -> CompassView {
        CompassView { signature: self.signature, note_groups: groups_view(self.note_groups@) }
    }
}

impl Compass {
    #[verifier::type_invariant]
    spec fn full(&self) -> bool {
        self@.wf()
    }

    /// Makes a bar of the groups, if they fill the signature exactly.
    pub fn new(signature: TimeSignature, note_groups: Vec<NoteGroup>) -> (r: Result<
        Self,
        InvalidCompass,
    >)
        requires
            all_measurable(groups_view(note_groups@)),
        ensures
            match r {
                Ok(compass) => {
                    &&& measure_sum(groups_view(note_groups@)) == signature.spec_ratio()
                    &&& compass@.signature == signature
                    &&& compass@.note_groups == groups_view(note_groups@)
                    &&& compass@.wf()
                },
                Err(error) => {
                    &&& measure_sum(groups_view(note_groups@)) != signature.spec_ratio()
                    &&& error@.found == measure_sum(groups_view(note_groups@))
                    &&& error@.expected == signature.spec_ratio()
                },
            },
    {
        let sum = sum_measures(&note_groups);
        let expected = signature.ratio();
        if sum == expected {
            Ok(Compass { signature, note_groups })
        } else {
            Err(InvalidCompass { expected, found: sum })
        }
    }

    pub fn signature(&self) -> (r: TimeSignature)
        ensures
            r == self@.signature,
    {
        self.signature
    }

    /// The groups of the bar, which fill it exactly.
    pub fn note_groups(&self) -> (r: &Vec<NoteGroup>)
        ensures
            groups_view(r@) == self@.note_groups,
            self@.wf(),
    {
        proof {
            use_type_invariant(self);
        }
        &self.note_groups
    }

    /// Whether the time of every group of the bar is defined.
    pub fn is_timed(&self) -> (r: bool)
        ensures
            r == self@.timed(),
    {
        let ghost view = groups_view(self.note_groups@);
        let mut i: usize = 0;
        while i < self.note_groups.len()
            invariant
                i <= self.note_groups.len(),
                view == groups_view(self.note_groups@),
                forall|j: int| 0 <= j < i ==> (#[trigger] view[j]).tempo.timed(),
            decreases self.note_groups.len() - i,
        {
            assert(view[i as int] == self.note_groups@[i as int]@);
            if !self.note_groups[i].tempo.is_timed() {
                return false;
            }
            i += 1;
        }
        true
    }

    /// The time the bar takes, in nanoseconds.
    pub fn nanos(&self) -> (r: NaturalRatio)
        requires
            self@.timed(),
        ensures
            r@ == self@.nanos(),
    {
        sum_nanos(&self.note_groups)
    }

    /// The time the bar takes, cut to whole nanoseconds.
    pub fn duration(&self) -> (r: Duration)
        requires
            self@.timed(),
            self@.nanos().floor() / (NANOS_PER_SEC as int) <= u64::MAX,
        ensures
            r == Duration::spec_from_raw_nanos(self@.nanos().floor() as Natural),
    {
        match self.nanos().to_integer() {
            Some(nanos) => Duration::from_raw_nanos(nanos),
            None => unreached(),
        }
    }
}

/// Copies the groups one by one.
pub(crate) fn clone_groups(groups: &Vec<NoteGroup>) -> (r: Vec<NoteGroup>)
    ensures
        groups_view(r@) == groups_view(groups@),
{
    let mut copy: Vec<NoteGroup> = Vec::new();
    let mut i: usize = 0;
    while i < groups.len()
        invariant
            i <= groups.len(),
            copy@.len() == i,
            forall|j: int| 0 <= j < i ==> copy@[j]@ == groups@[j]@,
        decreases groups.len() - i,
    {
        copy.push(groups[i].clone());
        i += 1;
    }
    assert(groups_view(copy@) =~= groups_view(groups@));
    copy
}

impl Clone for Compass {
    fn clone(&self) -> (r: Self)
        ensures
            r@ == self@,
    {
        proof {
            use_type_invariant(self);
        }
        Compass { signature: self.signature, note_groups: clone_groups(&self.note_groups) }
    }
}

impl PartialEq for Compass {
    fn eq(&self, other: &Self) -> (r: bool) {
        if self.signature != other.signature {
            return false;
        }
        if self.note_groups.len() != other.note_groups.len() {
            assert(groups_view(self.note_groups@).len() != groups_view(other.note_groups@).len());
            return false;
        }
        let mut i: usize = 0;
        while i < self.note_groups.len()
            invariant
                i <= self.note_groups.len(),
                self.note_groups.len() == other.note_groups.len(),
                forall|j: int| 0 <= j < i ==> self.note_groups@[j]@ == other.note_groups@[j]@,
            decreases self.note_groups.len() - i,
        {
            if self.note_groups[i] != other.note_groups[i] {
                assert(groups_view(self.note_groups@)[i as int] != groups_view(
                    other.note_groups@,
                )[i as int]);
                return false;
            }
            i += 1;
        }
        assert(groups_view(self.note_groups@) =~= groups_view(other.note_groups@));
        true
    }
}

impl vstd::std_specs::cmp::PartialEqSpecImpl for Compass {
    open spec fn obeys_eq_spec() -> bool {
        true
    }

    open spec fn eq_spec(&self, other: &Self) -> bool {
        self@ == other@
    }
}

impl Clone for InvalidCompass {
    fn clone(&self) -> (r: Self)
        ensures
            r@ == self@,
    {
        InvalidCompass { found: self.found.clone(), expected: self.expected.clone() }
    }
}

impl PartialEq for InvalidCompass {
    fn eq(&self, other: &Self) -> (r: bool) {
        self.found == other.found && self.expected == other.expected
    }
}

impl vstd::std_specs::cmp::PartialEqSpecImpl for InvalidCompass {
    open spec fn obeys_eq_spec() -> bool {
        true
    }

    open spec fn eq_spec(&self, other: &Self) -> bool {
        self@ == other@
    }
}

} // verus!
