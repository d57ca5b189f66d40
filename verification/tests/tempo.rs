use mursic::number::NaturalRatio;
use mursic::tempo::{Dot, NoteTime, NoteValue, TimeSignature};
use std::time::Duration;

fn time(note_value: NoteValue, dot: Dot, tuplet: u32, whole_bpm: NaturalRatio) -> NoteTime {
    NoteTime { note_value, dot, tuplet, whole_bpm }
}

#[test]
fn note_values_are_powers_of_two() {
    assert_eq!(NoteValue::Whole.numeric(), 1);
    assert_eq!(NoteValue::Half.numeric(), 2);
    assert_eq!(NoteValue::Quarter.numeric(), 4);
    assert_eq!(NoteValue::Eighth.numeric(), 8);
    assert_eq!(NoteValue::Sixteenth.numeric(), 16);
    assert_eq!(NoteValue::ThirtySecond.numeric(), 32);
    assert_eq!(NoteValue::SixtyForth.numeric(), 64);
}

#[test]
fn dots_lengthen_by_halves() {
    assert_eq!(Dot::Undotted.numeric(), NaturalRatio::new(1, 1));
    assert_eq!(Dot::Single.numeric(), NaturalRatio::new(3, 2));
    assert_eq!(Dot::Double.numeric(), NaturalRatio::new(7, 4));
}

#[test]
fn signature_ratio_is_numerator_over_note_value() {
    let common = TimeSignature { numer: 4, denom: NoteValue::Quarter };
    assert_eq!(common.ratio(), NaturalRatio::from_integer(1));
    let waltz = TimeSignature { numer: 3, denom: NoteValue::Quarter };
    assert_eq!(waltz.ratio(), NaturalRatio::new(3, 4));
    let compound = TimeSignature { numer: 6, denom: NoteValue::Eighth };
    assert_eq!(compound.ratio(), NaturalRatio::new(3, 4));
}

#[test]
fn quarter_note_measures_a_quarter() {
    let quarter = time(NoteValue::Quarter, Dot::Undotted, 2, NaturalRatio::from_integer(30));
    assert_eq!(quarter.measure(), NaturalRatio::new(1, 4));
}

#[test]
fn measure_follows_dots_and_tuplets() {
    let bpm = NaturalRatio::from_integer(30);
    assert_eq!(
        time(NoteValue::Whole, Dot::Undotted, 2, bpm.clone()).measure(),
        NaturalRatio::from_integer(1)
    );
    assert_eq!(
        time(NoteValue::Quarter, Dot::Single, 2, bpm.clone()).measure(),
        NaturalRatio::new(3, 8)
    );
    assert_eq!(
        time(NoteValue::Half, Dot::Double, 2, bpm.clone()).measure(),
        NaturalRatio::new(7, 8)
    );
    assert_eq!(
        time(NoteValue::Eighth, Dot::Undotted, 3, bpm.clone()).measure(),
        NaturalRatio::new(3, 16)
    );
    assert_eq!(
        time(NoteValue::SixtyForth, Dot::Undotted, 1, bpm).measure(),
        NaturalRatio::new(1, 128)
    );
}

#[test]
fn measure_does_not_depend_on_tempo() {
    let slow = time(NoteValue::Quarter, Dot::Undotted, 2, NaturalRatio::new(1, 7));
    let fast = time(NoteValue::Quarter, Dot::Undotted, 2, NaturalRatio::from_integer(9000));
    assert_eq!(slow.measure(), fast.measure());
}

#[test]
fn whole_note_at_thirty_takes_two_seconds() {
    let whole = time(NoteValue::Whole, Dot::Undotted, 2, NaturalRatio::from_integer(30));
    assert_eq!(whole.nanos(), NaturalRatio::from_integer(2_000_000_000));
    assert_eq!(whole.duration(), Duration::new(2, 0));
}

#[test]
fn nanos_keeps_fractions_of_a_nanosecond() {
    let third = time(NoteValue::Whole, Dot::Undotted, 2, NaturalRatio::from_integer(180_000_000));
    assert_eq!(third.nanos(), NaturalRatio::new(1000, 3));
    assert_eq!(third.duration(), Duration::new(0, 333));
}

#[test]
fn nanos_follows_dots_and_tuplets() {
    let bpm = NaturalRatio::from_integer(30);
    assert_eq!(
        time(NoteValue::Quarter, Dot::Undotted, 2, bpm.clone()).nanos(),
        NaturalRatio::from_integer(500_000_000)
    );
    assert_eq!(
        time(NoteValue::Quarter, Dot::Single, 2, bpm.clone()).nanos(),
        NaturalRatio::from_integer(750_000_000)
    );
    assert_eq!(
        time(NoteValue::Quarter, Dot::Undotted, 3, bpm).nanos(),
        NaturalRatio::from_integer(750_000_000)
    );
}

#[test]
fn is_timed_wants_tuplet_and_tempo_above_zero() {
    assert!(time(NoteValue::Quarter, Dot::Undotted, 2, NaturalRatio::from_integer(30)).is_timed());
    assert!(!time(NoteValue::Quarter, Dot::Undotted, 0, NaturalRatio::from_integer(30)).is_timed());
    assert!(!time(NoteValue::Quarter, Dot::Undotted, 2, NaturalRatio::from_integer(0)).is_timed());
}

#[test]
fn note_time_clone_keeps_every_field() {
    let first = time(NoteValue::Eighth, Dot::Double, 5, NaturalRatio::new(77, 3));
    let copy = first.clone();
    assert_eq!(copy.note_value, NoteValue::Eighth);
    assert_eq!(copy.dot, Dot::Double);
    assert_eq!(copy.tuplet, 5);
    assert_eq!(copy.whole_bpm, NaturalRatio::new(77, 3));
}

#[test]
fn note_times_are_equal_when_every_field_is() {
    let first = time(NoteValue::Eighth, Dot::Double, 5, NaturalRatio::new(77, 3));
    assert!(first == time(NoteValue::Eighth, Dot::Double, 5, NaturalRatio::new(154, 6)));
    assert!(first != time(NoteValue::Quarter, Dot::Double, 5, NaturalRatio::new(77, 3)));
    assert!(first != time(NoteValue::Eighth, Dot::Single, 5, NaturalRatio::new(77, 3)));
    assert!(first != time(NoteValue::Eighth, Dot::Double, 4, NaturalRatio::new(77, 3)));
    assert!(first != time(NoteValue::Eighth, Dot::Double, 5, NaturalRatio::new(77, 4)));
}
