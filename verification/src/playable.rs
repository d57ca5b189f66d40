//! Playing a song: group after group, each with the pitch that sounds and
//! the whole nanoseconds and samples that it takes.

use vstd::prelude::*;
use crate::compass::{all_timed, nanos_sum, Compass, CompassView};
use crate::manner::Manner;
use crate::note::{Note, NoteGroupView, NoteKind};
use crate::number::{DurationExt, Natural, NaturalRatio, NANOS_PER_SEC};
use crate::pitch::Pitch;
use crate::song::{
    compasses_view, lemma_song_nanos_is_slot_nanos, lemma_song_slots_timed, song_nanos,
    song_slots, song_timed, Song,
};
use crate::source::{lemma_samples_monotonic, samples_in, spec_samples_in};
use crate::tempo::NoteTimeView;
use std::time::Duration;

verus! {

/// The pitch that sounded last when the slots are over: that of the last
/// slot with a plain manner, or `before` where there is none.
pub open spec fn last_pitch(slots: Seq<NoteGroupView>, before: Option<Pitch>) -> Option<Pitch>
    decreases slots.len(),
{
    if slots.len() == 0 {
        before
    } else {
        match slots.last().manner() {
            Manner::Plain(pitch) => Some(pitch),
            _ => last_pitch(slots.drop_last(), before),
        }
    }
}

/// Whether the first slot that does not rest is a tie: a tie that has
/// nothing to hold on to.
pub open spec fn opens_with_tie(slots: Seq<NoteGroupView>) -> bool
    decreases slots.len(),
{
    if slots.len() == 0 {
        false
    } else {
        match slots.first().manner() {
            Manner::Plain(_) => false,
            Manner::Ligature => true,
            Manner::Rest => opens_with_tie(slots.drop_first()),
        }
    }
}

/// What sounds in slot `i`: the pitch of a plain slot, for a tie the pitch
/// that sounded last, for a rest nothing.
pub open spec fn slot_sound(slots: Seq<NoteGroupView>, i: int) -> Option<Pitch> {
    match slots[i].manner() {
        Manner::Plain(pitch) => Some(pitch),
        Manner::Ligature => last_pitch(slots.take(i), None),
        Manner::Rest => None,
    }
}

/// The exact time of the first `k` slots, in nanoseconds.
pub open spec fn elapsed(slots: Seq<NoteGroupView>, k: int) -> real {
    nanos_sum(slots.take(k))
}

/// The whole nanoseconds that slot `i` is given: those that the song has
/// taken when the slot ends, less those that it had taken when the slot
/// began.
pub open spec fn slot_nanos(slots: Seq<NoteGroupView>, i: int) -> int {
    elapsed(slots, i + 1).floor() - elapsed(slots, i).floor()
}

/// The part of a nanosecond that the first `k` slots have been given too
/// little.
pub open spec fn correction(slots: Seq<NoteGroupView>, k: int) -> real {
    elapsed(slots, k) - elapsed(slots, k).floor() as real
}

/// The whole nanoseconds given to the first `k` slots, added up.
pub open spec fn rendered_nanos(slots: Seq<NoteGroupView>, k: int) -> int
    decreases k,
{
    if k <= 0 {
        0
    } else {
        rendered_nanos(slots, k - 1) + slot_nanos(slots, k - 1)
    }
}

/// A note that has a time takes more than no time.
pub proof fn lemma_nanos_positive(time: NoteTimeView)
    requires
        time.timed(),
    ensures
        time.nanos() > 0real,
{
    let dot = time.dot.spec_numeric();
    let divisor = time.divisor();
    let value = time.note_value.spec_numeric() * 2;
    assert(dot >= 1real);
    assert(divisor > 0real) by (nonlinear_arith)
        requires
            divisor == value as real / time.tuplet as real,
            value >= 2,
            time.tuplet > 0,
    ;
    assert(60real / time.whole_bpm * dot / divisor * (NANOS_PER_SEC as real) > 0real)
        by (nonlinear_arith)
        requires
            time.whole_bpm > 0real,
            dot > 0real,
            divisor > 0real,
            NANOS_PER_SEC == 1_000_000_000,
    ;
}

/// Time does not run backwards: what has passed after more slots is no
/// less than what had passed after fewer.
pub proof fn lemma_elapsed_monotonic(slots: Seq<NoteGroupView>, i: int, j: int)
    requires
        all_timed(slots),
        0 <= i <= j <= slots.len(),
    ensures
        0real <= elapsed(slots, i) <= elapsed(slots, j),
    decreases j,
{
    if j == 0 {
        assert(slots.take(0).len() == 0);
    } else {
        let below = if i == j {
            0
        } else {
            i
        };
        lemma_elapsed_monotonic(slots, below, j - 1);
        lemma_elapsed_step(slots, j - 1);
        lemma_nanos_positive(slots[j - 1].tempo);
    }
}

/// A slot adds its exact time to the time that has passed.
pub proof fn lemma_elapsed_step(slots: Seq<NoteGroupView>, k: int)
    requires
        0 <= k < slots.len(),
    ensures
        elapsed(slots, k + 1) == elapsed(slots, k) + slots[k].tempo.nanos(),
        last_pitch(slots.take(k + 1), None) == match slots[k].manner() {
            Manner::Plain(pitch) => Some(pitch),
            _ => last_pitch(slots.take(k), None),
        },
{
    assert(slots.take(k + 1).drop_last() =~= slots.take(k));
    assert(slots.take(k + 1).last() == slots[k]);
}

/// The whole nanoseconds given to the slots so far are the whole part of
/// the exact time that has passed: what a slot loses to rounding is made
/// up as soon as it adds up to a nanosecond, and never more than one
/// nanosecond is owed.
pub proof fn lemma_rendered_is_floor_of_elapsed(slots: Seq<NoteGroupView>, k: int)
    requires
        0 <= k <= slots.len(),
    ensures
        rendered_nanos(slots, k) == elapsed(slots, k).floor(),
        rendered_nanos(slots, k) as real <= elapsed(slots, k),
        elapsed(slots, k) < (rendered_nanos(slots, k) + 1) as real,
    decreases k,
{
    if k == 0 {
        assert(slots.take(0).len() == 0);
    } else {
        lemma_rendered_is_floor_of_elapsed(slots, k - 1);
    }
}

/// A slot is given the whole part of its own exact time, and one
/// nanosecond more exactly when the parts of a nanosecond that were lost
/// before, with the part that it loses itself, reach a whole nanosecond.
pub proof fn lemma_slot_nanos_carries(slots: Seq<NoteGroupView>, k: int)
    requires
        all_timed(slots),
        0 <= k < slots.len(),
    ensures
        ({
            let exact = slots[k].tempo.nanos();
            let lost = correction(slots, k) + (exact - exact.floor() as real);
            &&& 0real <= correction(slots, k) < 1real
            &&& slot_nanos(slots, k) == exact.floor() + if lost >= 1real {
                1int
            } else {
                0int
            }
            &&& correction(slots, k + 1) == if lost >= 1real {
                lost - 1real
            } else {
                lost
            }
        }),
{
    lemma_elapsed_step(slots, k);
    lemma_elapsed_monotonic(slots, k, k + 1);
}

/// A tie sounds the pitch of the plain slot before it, however many ties
/// and rests lie between the two.
pub proof fn lemma_tie_holds_pitch(slots: Seq<NoteGroupView>, plain: int, tie: int, pitch: Pitch)
    requires
        0 <= plain < tie < slots.len(),
        slots[plain].manner() == Manner::Plain(pitch),
        forall|k: int| plain < k < tie ==> !(#[trigger] slots[k].manner() is Plain),
        slots[tie].manner() is Ligature,
    ensures
        slot_sound(slots, tie) == Some(pitch),
        last_pitch(slots.take(tie), None) == Some(pitch),
{
    lemma_no_plain_keeps_pitch(slots, plain, tie, pitch);
}

/// The pitch of a plain slot is the one that sounded last until the next
/// plain slot.
pub proof fn lemma_no_plain_keeps_pitch(
    slots: Seq<NoteGroupView>,
    plain: int,
    upto: int,
    pitch: Pitch,
)
    requires
        0 <= plain < upto <= slots.len(),
        slots[plain].manner() == Manner::Plain(pitch),
        forall|k: int| plain < k < upto ==> !(#[trigger] slots[k].manner() is Plain),
    ensures
        last_pitch(slots.take(upto), None) == Some(pitch),
    decreases upto - plain,
{
    let before = slots.take(upto);
    assert(before.last() == slots[upto - 1]);
    assert(before.drop_last() =~= slots.take(upto - 1));
    if upto - 1 > plain {
        lemma_no_plain_keeps_pitch(slots, plain, upto - 1, pitch);
    }
}

/// The groups of two runs of bars, one after the other.
pub proof fn lemma_song_slots_concat(a: Seq<CompassView>, b: Seq<CompassView>)
    ensures
        song_slots(a + b) == song_slots(a) + song_slots(b),
    decreases b.len(),
{
    if b.len() == 0 {
        assert(a + b =~= a);
        assert(song_slots(a) + song_slots(b) =~= song_slots(a));
    } else {
        assert((a + b).drop_last() =~= a + b.drop_last());
        lemma_song_slots_concat(a, b.drop_last());
        assert(song_slots(a + b) =~= song_slots(a) + song_slots(b));
    }
}

/// The index of the first bar that is played: `start`, or the end of the
/// song where `start` lies beyond it.
pub open spec fn first_bar(compasses: Seq<CompassView>, start: int) -> int {
    if start < compasses.len() {
        start
    } else {
        compasses.len() as int
    }
}

/// The groups that are played, in the order in which they sound: those of
/// bar `start` and of the bars after it.
pub open spec fn playing_slots(compasses: Seq<CompassView>, start: int) -> Seq<NoteGroupView> {
    song_slots(compasses.subrange(first_bar(compasses, start), compasses.len() as int))
}

/// How many groups are played before group `group` of bar `compass`.
pub open spec fn slots_before(
    compasses: Seq<CompassView>,
    start: int,
    compass: int,
    group: int,
) -> int {
    song_slots(compasses.subrange(first_bar(compasses, start), compass)).len() + group
}

/// The groups of a bar stand in the row of the groups that are played, one
/// after the other, and the next bar begins where they end.
pub proof fn lemma_bar_slots(compasses: Seq<CompassView>, start: int, compass: int)
    requires
        0 <= start,
        first_bar(compasses, start) <= compass < compasses.len(),
    ensures
        slots_before(compasses, start, compass + 1, 0) == slots_before(
            compasses,
            start,
            compass,
            compasses[compass].note_groups.len() as int,
        ),
        0 <= slots_before(compasses, start, compass, 0),
        slots_before(compasses, start, compass + 1, 0) <= playing_slots(compasses, start).len(),
        forall|group: int|
            0 <= group < compasses[compass].note_groups.len() ==> playing_slots(
                compasses,
                start,
            )[#[trigger] slots_before(compasses, start, compass, group)]
                == compasses[compass].note_groups[group],
{
    let first = first_bar(compasses, start);
    let len = compasses.len() as int;
    let upto = compasses.subrange(first, compass);
    let with = compasses.subrange(first, compass + 1);
    let rest = compasses.subrange(compass + 1, len);
    assert(with.drop_last() =~= upto);
    assert(with.last() == compasses[compass]);
    assert(compasses.subrange(first, len) =~= with + rest);
    lemma_song_slots_concat(with, rest);
    let playing = playing_slots(compasses, start);
    assert(playing == song_slots(with) + song_slots(rest));
    assert forall|group: int| 0 <= group < compasses[compass].note_groups.len() implies playing[
        #[trigger] slots_before(compasses, start, compass, group)
    ] == compasses[compass].note_groups[group] by {
        let at = song_slots(upto).len() + group;
        assert(song_slots(with)[at] == compasses[compass].note_groups[group]);
    }
}

/// What is played takes no longer than the whole song.
pub proof fn lemma_playing_within_song(compasses: Seq<CompassView>, start: int)
    requires
        0 <= start,
        song_timed(compasses),
    ensures
        all_timed(playing_slots(compasses, start)),
        0real <= nanos_sum(playing_slots(compasses, start)) <= song_nanos(compasses),
{
    let first = first_bar(compasses, start);
    let len = compasses.len() as int;
    let front = compasses.subrange(0, first);
    let back = compasses.subrange(first, len);
    assert(compasses =~= front + back);
    assert forall|i: int| 0 <= i < front.len() implies (#[trigger] front[i]).timed() by {
        assert(front[i] == compasses[i]);
    }
    assert forall|i: int| 0 <= i < back.len() implies (#[trigger] back[i]).timed() by {
        assert(back[i] == compasses[first + i]);
    }
    lemma_song_slots_timed(front);
    lemma_song_slots_timed(back);
    lemma_song_slots_concat(front, back);
    crate::compass::lemma_nanos_sum_concat(song_slots(front), song_slots(back));
    lemma_song_nanos_is_slot_nanos(compasses);
    let a = song_slots(front);
    let b = song_slots(back);
    lemma_elapsed_monotonic(a, 0, a.len() as int);
    lemma_elapsed_monotonic(b, 0, b.len() as int);
    assert(a.take(a.len() as int) =~= a);
    assert(b.take(b.len() as int) =~= b);
}

/// Why a song cannot be played.
#[derive(Debug, Clone, Copy, PartialEq, Eq, Structural)]
pub enum PlayError {
    /// The sample rate is zero.
    NoSampleRate,
    /// A group has a tempo or a tuplet size of zero, so it has no time.
    Untimed,
    /// A tie comes before any note that it could hold on to.
    LeadingTie,
    /// The whole nanoseconds of the song need more than 128 bits, or its
    /// samples cannot be counted.
    TooLong,
}

/// Why the bars cannot be played from bar `start` at the sample rate, or
/// `None` where they can.
pub open spec fn play_error(compasses: Seq<CompassView>, start: int, sample_rate: u32) -> Option<
    PlayError,
> {
    if sample_rate == 0 {
        Some(PlayError::NoSampleRate)
    } else if !song_timed(compasses) {
        Some(PlayError::Untimed)
    } else if opens_with_tie(playing_slots(compasses, start)) {
        Some(PlayError::LeadingTie)
    } else if song_nanos(compasses).floor() > Natural::MAX || spec_samples_in(
        song_nanos(compasses).floor() as nat,
        sample_rate as nat,
    ) > usize::MAX {
        Some(PlayError::TooLong)
    } else {
        None
    }
}

/// A stretch of sound or silence: one group of the song.
#[derive(Debug, Clone, Copy, PartialEq, Eq, Structural)]
pub struct Segment {
    /// The pitch that sounds, or `None` for silence.
    pub sound: Option<Pitch>,
    /// How long it lasts, in whole nanoseconds.
    pub nanos: Natural,
    /// How long it lasts, in samples.
    pub samples: usize,
}

/// Moves on from a bar whose groups are all played to the next bar that
/// has a group left, or to the end of the song.
fn settle(compasses: &Vec<Compass>, start: Ghost<int>, compass: usize, group: usize) -> (r: (
    usize,
    usize,
))
    requires
        0 <= start@,
        first_bar(compasses_view(compasses@), start@) <= compass <= compasses.len(),
        compass < compasses.len() ==> group <= compasses_view(
            compasses@,
        )[compass as int].note_groups.len(),
        compass == compasses.len() ==> group == 0,
    ensures
        first_bar(compasses_view(compasses@), start@) <= r.0 <= compasses.len(),
        r.0 < compasses.len() ==> r.1 < compasses_view(compasses@)[r.0 as int].note_groups.len(),
        r.0 == compasses.len() ==> r.1 == 0,
        slots_before(compasses_view(compasses@), start@, r.0 as int, r.1 as int) == slots_before(
            compasses_view(compasses@),
            start@,
            compass as int,
            group as int,
        ),
        r.0 == compasses.len() ==> slots_before(
            compasses_view(compasses@),
            start@,
            r.0 as int,
            r.1 as int,
        ) == playing_slots(compasses_view(compasses@), start@).len(),
{
    let ghost view = compasses_view(compasses@);
    let ghost before = slots_before(view, start@, compass as int, group as int);
    let mut compass = compass;
    let mut group = group;
    while compass < compasses.len() && group >= compasses[compass].note_groups().len()
        invariant
            view == compasses_view(compasses@),
            0 <= start@,
            first_bar(view, start@) <= compass <= compasses.len(),
            compass < compasses.len() ==> group <= view[compass as int].note_groups.len(),
            compass == compasses.len() ==> group == 0,
            slots_before(view, start@, compass as int, group as int) == before,
        decreases compasses.len() - compass,
    {
        proof {
            assert(view[compass as int] == compasses@[compass as int]@);
            lemma_bar_slots(view, start@, compass as int);
        }
        compass += 1;
        group = 0;
    }
    proof {
        if compass < compasses.len() {
            assert(view[compass as int] == compasses@[compass as int]@);
        }
    }
    (compass, group)
}

/// Whether the first group that does not rest, from bar `start` on, is a
/// tie.
fn tie_opens(compasses: &Vec<Compass>, start: usize) -> (r: bool)
    ensures
        r == opens_with_tie(playing_slots(compasses_view(compasses@), start as int)),
{
    let ghost view = compasses_view(compasses@);
    let ghost slots = playing_slots(view, start as int);
    let first = if start < compasses.len() {
        start
    } else {
        compasses.len()
    };
    assert(view.subrange(first as int, first as int) =~= Seq::empty());
    let (mut compass, mut group) = settle(compasses, Ghost(start as int), first, 0);
    assert(slots.skip(0) =~= slots);
    while compass < compasses.len()
        invariant
            view == compasses_view(compasses@),
            slots == playing_slots(view, start as int),
            first_bar(view, start as int) <= compass <= compasses.len(),
            compass < compasses.len() ==> group < view[compass as int].note_groups.len(),
            compass == compasses.len() ==> group == 0,
            0 <= slots_before(view, start as int, compass as int, group as int) <= slots.len(),
            compass == compasses.len() ==> slots_before(
                view,
                start as int,
                compass as int,
                group as int,
            ) == slots.len(),
            opens_with_tie(slots) == opens_with_tie(
                slots.skip(slots_before(view, start as int, compass as int, group as int)),
            ),
        decreases
                slots.len() - slots_before(view, start as int, compass as int, group as int),
    {
        let ghost at = slots_before(view, start as int, compass as int, group as int);
        proof {
            assert(view[compass as int] == compasses@[compass as int]@);
            lemma_bar_slots(view, start as int, compass as int);
            assert(slots[at] == view[compass as int].note_groups[group as int]);
            assert(slots.skip(at).first() == slots[at]);
            assert(slots.skip(at).drop_first() =~= slots.skip(at + 1));
        }
        let groups = compasses[compass].note_groups();
        assert(groups@[group as int]@ == slots[at]);
        assert(group < groups.len());
        match groups[group].manner() {
            Manner::Plain(_) => {
                return false;
            },
            Manner::Ligature => {
                return true;
            },
            Manner::Rest => {},
        }
        let next = settle(compasses, Ghost(start as int), compass, group + 1);
        compass = next.0;
        group = next.1;
    }
    proof {
        assert(slots.skip(slots.len() as int).len() == 0);
    }
    false
}

/// Sets up the playing of a song.
#[derive(Debug, Clone, Copy)]
pub struct PlayableSongBuilder {
    start_compass: usize,
}

impl Default for PlayableSongBuilder {
    /// Playing starts at the first bar.
    fn default() -> (r: Self)
        ensures
            r.spec_start_compass() == 0,
    {
        PlayableSongBuilder { start_compass: 0 }
    }
}

impl PlayableSongBuilder {
    /// The index of the bar at which playing starts.
    pub closed spec fn spec_start_compass(&self) -> usize {
        self.start_compass
    }

    /// Sets the index of the bar at which playing starts.
    pub fn start_compass(&mut self, start_compass: usize) -> (ret: &mut Self)
        ensures
            ret.spec_start_compass() == start_compass,
            *final(self) == *final(ret),
    {
        self.start_compass = start_compass;
        self
    }

    pub fn get_start_compass(&self) -> (r: usize)
        ensures
            r == self.spec_start_compass(),
    {
        self.start_compass
    }

    /// Whether the song can be played at the sample rate, and why not.
    pub fn check(&self, song: &Song, sample_rate: u32) -> (r: Result<(), PlayError>)
        ensures
            r == match play_error(song@, self.spec_start_compass() as int, sample_rate) {
                Some(error) => Err::<(), PlayError>(error),
                None => Ok(()),
            },
    {
        if sample_rate == 0 {
            return Err(PlayError::NoSampleRate);
        }
        if !song.is_timed() {
            return Err(PlayError::Untimed);
        }
        if tie_opens(song.compasses(), self.start_compass) {
            return Err(PlayError::LeadingTie);
        }
        match song.nanos().to_integer() {
            None => Err(PlayError::TooLong),
            Some(nanos) => match samples_in(nanos, sample_rate) {
                None => Err(PlayError::TooLong),
                Some(_) => Ok(()),
            },
        }
    }

    /// The song, ready to be played from the starting bar on, in samples at
    /// the given rate for the given number of channels.
    pub fn finish(&self, song: Song, sample_rate: u32, channels: u16) -> (r: PlayableSong)
        requires
            play_error(song@, self.spec_start_compass() as int, sample_rate) is None,
        ensures
            r@ == (PlayableSongView {
                slots: playing_slots(song@, self.spec_start_compass() as int),
                position: 0,
                total: song_nanos(song@),
                sample_rate,
                channels,
            }),
            r@.wf(),
    {
        let total = song.nanos();
        let first = if self.start_compass < song.compasses().len() {
            self.start_compass
        } else {
            song.compasses().len()
        };
        let ghost slots = playing_slots(song@, self.start_compass as int);
        proof {
            assert(song@.subrange(first as int, first as int) =~= Seq::empty());
            assert(slots.take(0) =~= Seq::empty());
            assert(slots.skip(0) =~= slots);
            lemma_playing_within_song(song@, self.start_compass as int);
        }
        PlayableSong {
            song,
            start: self.start_compass,
            sample_rate,
            channels,
            total,
            cursor: Cursor {
                compass: first,
                group: 0,
                last: None,
                correction: NaturalRatio::from_integer(0),
                position: Ghost(0),
            },
        }
    }
}

/// Where the playing of a song stands.
struct Cursor {
    /// The index of the bar of the next group.
    compass: usize,
    /// The index of the next group in its bar.
    group: usize,
    /// The pitch that sounded last.
    last: Option<Pitch>,
    /// The part of a nanosecond that the groups so far were given too
    /// little.
    correction: NaturalRatio,
    /// How many groups were played.
    position: Ghost<nat>,
}

/// A song that is being played.
pub struct PlayableSong {
    song: Song,
    start: usize,
    sample_rate: u32,
    channels: u16,
    total: NaturalRatio,
    cursor: Cursor,
}

/// A `PlayableSong` as the contracts see it.
pub struct PlayableSongView {
    /// The groups that are played, in the order in which they sound.
    pub slots: Seq<NoteGroupView>,
    /// How many of them were played.
    pub position: nat,
    /// The exact time of the whole song, in nanoseconds.
    pub total: real,
    pub sample_rate: u32,
    pub channels: u16,
}

impl PlayableSongView {
    /// What always holds of a song that is being played.
    pub open spec fn wf(self) -> bool {
        &&& self.position <= self.slots.len()
        &&& all_timed(self.slots)
        &&& !opens_with_tie(self.slots)
        &&& self.sample_rate > 0
        &&& 0real <= nanos_sum(self.slots) <= self.total
        &&& self.total.floor() <= Natural::MAX
        &&& spec_samples_in(self.total.floor() as nat, self.sample_rate as nat) <= usize::MAX
    }
}

impl View for PlayableSong {
    type V = PlayableSongView;

    closed spec fn view(&self) -> PlayableSongView {
        PlayableSongView {
            slots: playing_slots(self.song@, self.start as int),
            position: self.cursor.position@,
            total: self.total@,
            sample_rate: self.sample_rate,
            channels: self.channels,
        }
    }
}

impl PlayableSong {
    #[verifier::type_invariant]
    spec fn sound(&self) -> bool {
        let slots = playing_slots(self.song@, self.start as int);
        let position = self.cursor.position@ as int;
        &&& self@.wf()
        &&& song_timed(self.song@)
        &&& self.total@ == song_nanos(self.song@)
        &&& first_bar(self.song@, self.start as int) <= self.cursor.compass <= self.song@.len()
        &&& self.cursor.compass < self.song@.len() ==> self.cursor.group
            <= self.song@[self.cursor.compass as int].note_groups.len()
        &&& self.cursor.compass == self.song@.len() ==> self.cursor.group == 0
        &&& position == slots_before(
            self.song@,
            self.start as int,
            self.cursor.compass as int,
            self.cursor.group as int,
        )
        &&& self.cursor.last == last_pitch(slots.take(position), None)
        &&& self.cursor.last is Some || !opens_with_tie(slots.skip(position))
        &&& self.cursor.correction@ == correction(slots, position)
    }
}

/// A time has no more whole seconds than it has samples, at one sample per
/// second or more.
pub proof fn lemma_seconds_within_samples(nanos: nat, sample_rate: nat)
    requires
        sample_rate > 0,
    ensures
        nanos / (NANOS_PER_SEC as nat) <= spec_samples_in(nanos, sample_rate),
{
    let scaled = nanos * sample_rate;
    assert(scaled >= nanos) by (nonlinear_arith)
        requires
            scaled == nanos * sample_rate,
            sample_rate >= 1,
    ;
    let seconds = nanos / (NANOS_PER_SEC as nat);
    assert(seconds as real <= scaled as real / (NANOS_PER_SEC as real)) by (nonlinear_arith)
        requires
            seconds == nanos / (NANOS_PER_SEC as nat),
            scaled >= nanos,
            NANOS_PER_SEC == 1_000_000_000,
    ;
}

/// The exact time for which a note is held on by ties: the time of the
/// first slots, as long as each of them holds the tie.
pub open spec fn tied_nanos(slots: Seq<NoteGroupView>, tie: Note) -> real
    decreases slots.len(),
{
    if slots.len() == 0 || !slots.first().notes.contains(tie) {
        0real
    } else {
        slots.first().tempo.nanos() + tied_nanos(slots.drop_first(), tie)
    }
}

impl PlayableSong {
    /// The next group of the song: what sounds, and for how long. `None`
    /// when the song is over.
    ///
    /// A group is given the whole part of its exact time. The part of a
    /// nanosecond that it loses is kept, and as soon as what is kept
    /// reaches a whole nanosecond, the group at hand is given that
    /// nanosecond too.
    pub fn next_segment(&mut self) -> (r: Option<Segment>)
        ensures
            old(self)@.wf(),
            final(self)@.wf(),
            match r {
                None => old(self)@.position == old(self)@.slots.len() && final(self)@ == old(
                    self,
                )@,
                Some(segment) => {
                    let slots = old(self)@.slots;
                    let position = old(self)@.position as int;
                    &&& position < slots.len()
                    &&& final(self)@ == (PlayableSongView {
                        position: (position + 1) as nat,
                        ..old(self)@
                    })
                    &&& segment.sound == slot_sound(slots, position)
                    &&& slots[position].manner() is Ligature ==> segment.sound is Some
                    &&& segment.nanos == slot_nanos(slots, position)
                    &&& segment.samples == spec_samples_in(
                        segment.nanos as nat,
                        old(self)@.sample_rate as nat,
                    )
                },
            },
    {
        proof {
            use_type_invariant(&*self);
        }
        let ghost slots = playing_slots(self.song@, self.start as int);
        let ghost position = self.cursor.position@ as int;
        let compasses = self.song.compasses();
        let (compass, group) = settle(
            compasses,
            Ghost(self.start as int),
            self.cursor.compass,
            self.cursor.group,
        );
        if compass >= compasses.len() {
            return None;
        }
        let groups = compasses[compass].note_groups();
        proof {
            assert(self.song@[compass as int] == compasses@[compass as int]@);
            lemma_bar_slots(self.song@, self.start as int, compass as int);
            assert(slots[position] == self.song@[compass as int].note_groups[group as int]);
            assert(groups@[group as int]@ == slots[position]);
            assert(group < groups.len());
            lemma_elapsed_step(slots, position);
            lemma_slot_nanos_carries(slots, position);
            lemma_elapsed_monotonic(slots, 0, position);
            lemma_elapsed_monotonic(slots, position + 1, slots.len() as int);
            assert(slots.take(slots.len() as int) =~= slots);
            assert(slots.skip(position).first() == slots[position]);
            assert(slots.skip(position).drop_first() =~= slots.skip(position + 1));
        }
        let slot = &groups[group];
        let exact = slot.tempo.nanos();
        let whole: Natural = match exact.to_integer() {
            Some(whole) => whole,
            None => unreached(),
        };
        let lost = self.cursor.correction.plus(&exact.fract());
        let carry = NaturalRatio::from_integer(1).le(&lost);
        let nanos: Natural = if carry {
            whole + 1
        } else {
            whole
        };
        let correction = lost.fract();
        let manner = slot.manner();
        let sound = match manner {
            Manner::Plain(pitch) => Some(pitch),
            Manner::Ligature => self.cursor.last,
            Manner::Rest => None,
        };
        let last = match manner {
            Manner::Plain(pitch) => Some(pitch),
            _ => self.cursor.last,
        };
        proof {
            lemma_samples_monotonic(
                nanos as nat,
                self.total@.floor() as nat,
                self.sample_rate as nat,
            );
        }
        let samples: usize = match samples_in(nanos, self.sample_rate) {
            Some(samples) => samples,
            None => unreached(),
        };
        self.cursor = Cursor {
            compass,
            group: group + 1,
            last,
            correction,
            position: Ghost((position + 1) as nat),
        };
        Some(Segment { sound, nanos, samples })
    }

    /// All the groups that are left, in the order in which they sound.
    pub fn segments(&mut self) -> (r: Vec<Segment>)
        ensures
            final(self)@ == (PlayableSongView {
                position: old(self)@.slots.len(),
                ..old(self)@
            }),
            r@.len() == old(self)@.slots.len() - old(self)@.position,
            forall|i: int|
                0 <= i < r@.len() ==> {
                    let at = old(self)@.position + i;
                    &&& (#[trigger] r@[i]).sound == slot_sound(old(self)@.slots, at)
                    &&& r@[i].nanos == slot_nanos(old(self)@.slots, at)
                    &&& r@[i].samples == spec_samples_in(
                        r@[i].nanos as nat,
                        old(self)@.sample_rate as nat,
                    )
                },
    {
        let ghost slots = self@.slots;
        let ghost from = self@.position;
        let mut all: Vec<Segment> = Vec::new();
        proof {
            use_type_invariant(&*self);
        }
        loop
            invariant
                self@ == (PlayableSongView { position: (from + all@.len()) as nat, ..old(self)@ }),
                slots == old(self)@.slots,
                from == old(self)@.position,
                from + all@.len() <= slots.len(),
                forall|i: int|
                    0 <= i < all@.len() ==> {
                        &&& (#[trigger] all@[i]).sound == slot_sound(slots, from + i)
                        &&& all@[i].nanos == slot_nanos(slots, from + i)
                        &&& all@[i].samples == spec_samples_in(
                            all@[i].nanos as nat,
                            old(self)@.sample_rate as nat,
                        )
                    },
            ensures
                self@ == (PlayableSongView { position: slots.len(), ..old(self)@ }),
                all@.len() == slots.len() - from,
            decreases slots.len() - from - all@.len(),
        {
            match self.next_segment() {
                Some(segment) => {
                    all.push(segment);
                },
                None => {
                    break;
                },
            }
        }
        all
    }

    /// The exact time, in nanoseconds, for which the note is held on by ties
    /// in the groups that come next.
    pub fn note_nanos(&self, note: Note) -> (r: NaturalRatio)
        ensures
            r@ == tied_nanos(
                self@.slots.skip(self@.position as int),
                Note { kind: NoteKind::Ligature, pitch: note.pitch },
            ),
    {
        proof {
            use_type_invariant(self);
        }
        let ghost slots = playing_slots(self.song@, self.start as int);
        let ghost from = self.cursor.position@ as int;
        let ligature = Note { kind: NoteKind::Ligature, pitch: note.pitch };
        let compasses = self.song.compasses();
        let mut nanos = NaturalRatio::from_integer(0);
        let (mut compass, mut group) = settle(
            compasses,
            Ghost(self.start as int),
            self.cursor.compass,
            self.cursor.group,
        );
        while compass < compasses.len()
            invariant
                compasses_view(compasses@) == self.song@,
                slots == playing_slots(self.song@, self.start as int),
                slots == self@.slots,
                from == self@.position,
                ligature == (Note { kind: NoteKind::Ligature, pitch: note.pitch }),
                all_timed(slots),
                first_bar(self.song@, self.start as int) <= compass <= compasses.len(),
                compass < compasses.len() ==> group < self.song@[compass as int].note_groups.len(),
                compass == compasses.len() ==> group == 0,
                0 <= slots_before(self.song@, self.start as int, compass as int, group as int)
                    <= slots.len(),
                compass == compasses.len() ==> slots_before(
                    self.song@,
                    self.start as int,
                    compass as int,
                    group as int,
                ) == slots.len(),
                nanos@ + tied_nanos(
                    slots.skip(
                        slots_before(self.song@, self.start as int, compass as int, group as int),
                    ),
                    ligature,
                ) == tied_nanos(slots.skip(from), ligature),
            decreases
                    slots.len() - slots_before(
                        self.song@,
                        self.start as int,
                        compass as int,
                        group as int,
                    ),
        {
            let ghost at = slots_before(
                self.song@,
                self.start as int,
                compass as int,
                group as int,
            );
            proof {
                assert(self.song@[compass as int] == compasses@[compass as int]@);
                lemma_bar_slots(self.song@, self.start as int, compass as int);
                assert(slots[at] == self.song@[compass as int].note_groups[group as int]);
                assert(slots.skip(at).first() == slots[at]);
                assert(slots.skip(at).drop_first() =~= slots.skip(at + 1));
            }
            let groups = compasses[compass].note_groups();
            assert(groups@[group as int]@ == slots[at]);
            assert(group < groups.len());
            if !groups[group].notes.contains(&ligature) {
                proof {
                    assert(groups@[group as int]@.notes == groups@[group as int].notes@);
                    assert(!slots.skip(at).first().notes.contains(ligature));
                    assert(tied_nanos(slots.skip(at), ligature) == 0real);
                }
                return nanos;
            }
            nanos = nanos.plus(&groups[group].tempo.nanos());
            let next = settle(compasses, Ghost(self.start as int), compass, group + 1);
            compass = next.0;
            group = next.1;
        }
        proof {
            assert(slots.skip(slots.len() as int).len() == 0);
        }
        nanos
    }

    /// How many samples the whole song takes, from its first bar to its
    /// last, wherever playing started and however far it has come.
    pub fn len(&self) -> (r: Option<usize>)
        ensures
            self@.wf(),
            r == Some(
                spec_samples_in(self@.total.floor() as nat, self@.sample_rate as nat) as usize,
            ),
    {
        proof {
            use_type_invariant(self);
        }
        match self.total.to_integer() {
            Some(nanos) => samples_in(nanos, self.sample_rate),
            None => unreached(),
        }
    }

    /// The time the whole song takes, from its first bar to its last, cut
    /// to whole nanoseconds.
    pub fn duration(&self) -> (r: Option<Duration>)
        ensures
            self@.wf(),
            r == Some(Duration::spec_from_raw_nanos(self@.total.floor() as Natural)),
    {
        proof {
            use_type_invariant(self);
            lemma_seconds_within_samples(self.total@.floor() as nat, self.sample_rate as nat);
        }
        match self.total.to_integer() {
            Some(nanos) => Some(Duration::from_raw_nanos(nanos)),
            None => unreached(),
        }
    }

    pub fn sample_rate(&self) -> (r: u32)
        ensures
            r == self@.sample_rate,
            r > 0,
    {
        proof {
            use_type_invariant(self);
        }
        self.sample_rate
    }

    pub fn channels(&self) -> (r: u16)
        ensures
            r == self@.channels,
    {
        self.channels
    }
}

} // verus!
