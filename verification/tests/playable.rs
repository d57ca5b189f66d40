use mursic::compass::Compass;
use mursic::note::{Note, NoteGroup, NoteKind, NoteSet};
use mursic::number::NaturalRatio;
use mursic::pitch::{Key, Pitch};
use mursic::playable::{PlayError, PlayableSong, PlayableSongBuilder, Segment};
use mursic::song::{Song, SongBuilder};
use mursic::tempo::{Dot, NoteTime, NoteValue, TimeSignature};
use std::time::Duration;

const A5: Pitch = Pitch { key: Key::A, octave: 5 };
const C5: Pitch = Pitch { key: Key::C, octave: 5 };

fn play(song: Song, start: usize, sample_rate: u32) -> PlayableSong {
    let mut builder = PlayableSongBuilder::default();
    builder.start_compass(start);
    assert_eq!(builder.check(&song, sample_rate), Ok(()));
    builder.finish(song, sample_rate, 1)
}

fn segments(playable: &mut PlayableSong) -> Vec<Segment> {
    playable.segments()
}

/// One bar of three whole notes, each a third of a microsecond long.
fn thirds() -> Song {
    let mut builder = SongBuilder::default();
    builder
        .signature(TimeSignature { numer: 3, denom: NoteValue::Whole })
        .bpm(NoteValue::Whole, NaturalRatio::from_integer(180_000_000))
        .note_value(NoteValue::Whole)
        .note()
        .note_group()
        .note()
        .note_group()
        .note()
        .note_group()
        .compass();
    builder.finish()
}

#[test]
fn playing_starts_at_the_first_bar_by_default() {
    let mut builder = PlayableSongBuilder::default();
    assert_eq!(builder.get_start_compass(), 0);
    builder.start_compass(3);
    assert_eq!(builder.get_start_compass(), 3);
}

#[test]
fn whole_note_at_120_plays_two_seconds_of_a() {
    let mut builder = SongBuilder::default();
    builder
        .signature(TimeSignature { numer: 4, denom: NoteValue::Quarter })
        .bpm(NoteValue::Quarter, NaturalRatio::from_integer(120))
        .note_value(NoteValue::Whole)
        .pitch(A5)
        .note()
        .note_group()
        .compass();
    let song = builder.finish();
    let group = &song.compasses()[0].note_groups()[0];
    assert_eq!(group.tempo.measure(), NaturalRatio::from_integer(1));
    assert_eq!(group.tempo.measure(), song.compasses()[0].signature().ratio());
    assert_eq!(group.tempo.nanos(), NaturalRatio::from_integer(2_000_000_000));
    let mut playable = play(song, 0, 48000);
    assert_eq!(playable.len(), Some(96000));
    assert_eq!(playable.duration(), Some(Duration::new(2, 0)));
    assert_eq!(playable.sample_rate(), 48000);
    assert_eq!(playable.channels(), 1);
    assert_eq!(
        playable.next_segment(),
        Some(Segment { sound: Some(A5), nanos: 2_000_000_000, samples: 96000 })
    );
    assert_eq!(playable.next_segment(), None);
    assert_eq!(playable.next_segment(), None);
    assert_eq!(playable.len(), Some(96000));
}

#[test]
fn ties_hold_on_to_the_pitch_that_sounded_last() {
    let mut builder = SongBuilder::default();
    builder
        .signature(TimeSignature { numer: 3, denom: NoteValue::Quarter })
        .pitch(A5)
        .note()
        .note_group()
        .note_kind(NoteKind::Ligature)
        .note()
        .note_group()
        .pitch(C5)
        .note()
        .note_group()
        .compass();
    let mut playable = play(builder.finish(), 0, 48000);
    let sounds: Vec<Option<Pitch>> =
        segments(&mut playable).iter().map(|segment| segment.sound).collect();
    assert_eq!(sounds, vec![Some(A5), Some(A5), Some(A5)]);
}

#[test]
fn ties_reach_across_bars_and_rests() {
    let mut builder = SongBuilder::default();
    builder
        .signature(TimeSignature { numer: 2, denom: NoteValue::Quarter })
        .pitch(C5)
        .note()
        .note_group()
        .note_group()
        .compass()
        .note_kind(NoteKind::Ligature)
        .note()
        .note_group()
        .note_kind(NoteKind::Plain)
        .pitch(A5)
        .note()
        .note_group()
        .compass();
    let mut playable = play(builder.finish(), 0, 48000);
    let sounds: Vec<Option<Pitch>> =
        segments(&mut playable).iter().map(|segment| segment.sound).collect();
    assert_eq!(sounds, vec![Some(C5), None, Some(C5), Some(A5)]);
}

#[test]
fn leading_tie_is_refused() {
    let mut builder = SongBuilder::default();
    builder
        .signature(TimeSignature { numer: 2, denom: NoteValue::Quarter })
        .note_kind(NoteKind::Ligature)
        .note()
        .note_group()
        .note_kind(NoteKind::Plain)
        .note()
        .note_group()
        .compass();
    let song = builder.finish();
    assert_eq!(PlayableSongBuilder::default().check(&song, 48000), Err(PlayError::LeadingTie));
}

#[test]
fn tie_after_rests_alone_is_refused() {
    let mut builder = SongBuilder::default();
    builder
        .signature(TimeSignature { numer: 1, denom: NoteValue::Quarter })
        .note_group()
        .compass()
        .note_kind(NoteKind::Ligature)
        .note()
        .note_group()
        .compass();
    let song = builder.finish();
    assert_eq!(PlayableSongBuilder::default().check(&song, 48000), Err(PlayError::LeadingTie));
}

#[test]
fn tie_that_leads_from_the_starting_bar_is_refused() {
    let mut builder = SongBuilder::default();
    builder
        .signature(TimeSignature { numer: 1, denom: NoteValue::Quarter })
        .note()
        .note_group()
        .compass()
        .note_kind(NoteKind::Ligature)
        .note()
        .note_group()
        .compass();
    let song = builder.finish();
    let mut from_second = PlayableSongBuilder::default();
    from_second.start_compass(1);
    assert_eq!(PlayableSongBuilder::default().check(&song, 48000), Ok(()));
    assert_eq!(from_second.check(&song, 48000), Err(PlayError::LeadingTie));
}

#[test]
fn sample_rate_of_zero_is_refused() {
    let song = thirds();
    assert_eq!(PlayableSongBuilder::default().check(&song, 0), Err(PlayError::NoSampleRate));
}

#[test]
fn group_without_a_tempo_is_refused() {
    let group = NoteGroup {
        tempo: NoteTime {
            note_value: NoteValue::Whole,
            dot: Dot::Undotted,
            tuplet: 2,
            whole_bpm: NaturalRatio::from_integer(0),
        },
        notes: NoteSet::new(),
    };
    let signature = TimeSignature { numer: 4, denom: NoteValue::Quarter };
    let song = Song::new(vec![Compass::new(signature, vec![group]).unwrap()]);
    assert!(!song.is_timed());
    assert_eq!(PlayableSongBuilder::default().check(&song, 48000), Err(PlayError::Untimed));
}

#[test]
fn song_beyond_128_bits_of_nanoseconds_is_refused() {
    let mut builder = SongBuilder::default();
    builder
        .bpm(NoteValue::Whole, NaturalRatio::new(1, u128::MAX))
        .note_value(NoteValue::Whole)
        .note()
        .note_group()
        .compass();
    let song = builder.finish();
    assert_eq!(PlayableSongBuilder::default().check(&song, 48000), Err(PlayError::TooLong));
}

#[test]
fn song_beyond_countable_samples_is_refused() {
    let mut builder = SongBuilder::default();
    builder
        .bpm(NoteValue::Whole, NaturalRatio::new(1, 1_000_000_000_000))
        .note_value(NoteValue::Whole)
        .note()
        .note_group()
        .compass();
    let song = builder.finish();
    assert_eq!(song.nanos().to_integer(), Some(60_000_000_000_000_000_000_000));
    assert_eq!(
        PlayableSongBuilder::default().check(&song, 4_000_000_000),
        Err(PlayError::TooLong)
    );
    assert_eq!(PlayableSongBuilder::default().check(&song, 1), Ok(()));
}

#[test]
fn lost_parts_of_a_nanosecond_are_made_up() {
    let song = thirds();
    for compass in song.compasses().iter() {
        for group in compass.note_groups().iter() {
            assert_eq!(group.tempo.nanos(), NaturalRatio::new(1000, 3));
        }
    }
    let mut playable = play(song, 0, 48000);
    let nanos: Vec<u128> = segments(&mut playable).iter().map(|segment| segment.nanos).collect();
    assert_eq!(nanos, vec![333, 333, 334]);
    assert_eq!(nanos.iter().sum::<u128>(), 1000);
}

#[test]
fn whole_nanoseconds_follow_the_exact_time() {
    let mut builder = SongBuilder::default();
    builder
        .signature(TimeSignature { numer: 7, denom: NoteValue::Whole })
        .bpm(NoteValue::Whole, NaturalRatio::from_integer(140_000_000_000))
        .note_value(NoteValue::Whole);
    for _ in 0..7 {
        builder.note().note_group();
    }
    builder.compass();
    let song = builder.finish();
    assert_eq!(song.nanos(), NaturalRatio::from_integer(3));
    let mut playable = play(song, 0, 48000);
    let nanos: Vec<u128> = segments(&mut playable).iter().map(|segment| segment.nanos).collect();
    assert_eq!(nanos, vec![0, 0, 1, 0, 1, 0, 1]);
}

#[test]
fn samples_follow_the_whole_nanoseconds() {
    let mut builder = SongBuilder::default();
    builder.note().note_group().note_value(NoteValue::Half).dot(Dot::Single).note_group().compass();
    let mut playable = play(builder.finish(), 0, 44100);
    assert_eq!(
        segments(&mut playable),
        vec![
            Segment { sound: Some(A5), nanos: 500_000_000, samples: 22050 },
            Segment { sound: None, nanos: 1_500_000_000, samples: 66150 },
        ]
    );
}

#[test]
fn playing_from_a_later_bar_skips_the_bars_before() {
    let mut builder = SongBuilder::default();
    builder
        .signature(TimeSignature { numer: 1, denom: NoteValue::Quarter })
        .pitch(C5)
        .note()
        .note_group()
        .compass()
        .pitch(A5)
        .note()
        .note_group()
        .compass();
    let song = builder.finish();
    let mut playable = play(song.clone(), 1, 48000);
    assert_eq!(
        segments(&mut playable),
        vec![Segment { sound: Some(A5), nanos: 500_000_000, samples: 24000 }]
    );
    assert_eq!(playable.len(), Some(48000));
    assert_eq!(playable.duration(), Some(Duration::new(1, 0)));
    let mut beyond = play(song, 9, 48000);
    assert_eq!(beyond.next_segment(), None);
}

#[test]
fn empty_bars_are_passed_over() {
    let nothing = TimeSignature { numer: 0, denom: NoteValue::Quarter };
    let mut builder = SongBuilder::default();
    builder
        .signature(nothing)
        .compass()
        .signature(TimeSignature { numer: 1, denom: NoteValue::Quarter })
        .note()
        .note_group()
        .compass()
        .signature(nothing)
        .compass()
        .compass();
    let mut playable = play(builder.finish(), 0, 48000);
    assert_eq!(segments(&mut playable).len(), 1);
}

#[test]
fn length_and_duration_of_a_long_song_are_known() {
    let mut builder = SongBuilder::default();
    builder
        .bpm(NoteValue::Whole, NaturalRatio::new(1, 100_000_000_000_000_000))
        .note_value(NoteValue::Whole)
        .note()
        .note_group()
        .compass();
    let playable = play(builder.finish(), 0, 1);
    assert_eq!(playable.duration(), Some(Duration::new(6_000_000_000_000_000_000, 0)));
    assert_eq!(playable.len(), Some(6_000_000_000_000_000_000));
}

#[test]
fn note_nanos_adds_the_ties_that_follow() {
    let mut builder = SongBuilder::default();
    builder
        .signature(TimeSignature { numer: 2, denom: NoteValue::Quarter })
        .pitch(A5)
        .note()
        .note_group()
        .note_kind(NoteKind::Ligature)
        .note()
        .note_group()
        .compass()
        .note()
        .note_value(NoteValue::Eighth)
        .note_group()
        .note_kind(NoteKind::Plain)
        .note()
        .note_group()
        .note_value(NoteValue::Quarter)
        .note_group()
        .compass();
    let mut playable = play(builder.finish(), 0, 48000);
    let a = Note { kind: NoteKind::Plain, pitch: A5 };
    let c = Note { kind: NoteKind::Plain, pitch: C5 };
    assert_eq!(playable.note_nanos(a), NaturalRatio::from_integer(0));
    assert!(playable.next_segment().is_some());
    assert_eq!(playable.note_nanos(a), NaturalRatio::from_integer(750_000_000));
    assert_eq!(playable.note_nanos(c), NaturalRatio::from_integer(0));
    assert!(playable.next_segment().is_some());
    assert_eq!(playable.note_nanos(a), NaturalRatio::from_integer(250_000_000));
    while playable.next_segment().is_some() {}
    assert_eq!(playable.note_nanos(a), NaturalRatio::from_integer(0));
}

#[test]
fn segments_gives_all_that_is_left() {
    let mut stepped = play(thirds(), 0, 48000);
    let mut first = Vec::new();
    while let Some(segment) = stepped.next_segment() {
        first.push(segment);
    }
    let mut whole = play(thirds(), 0, 48000);
    assert_eq!(whole.segments(), first);
    assert_eq!(whole.segments(), Vec::new());
    assert_eq!(whole.next_segment(), None);
    let mut partly = play(thirds(), 0, 48000);
    assert_eq!(partly.next_segment(), Some(first[0]));
    assert_eq!(partly.segments(), first[1..].to_vec());
}

#[test]
fn whole_nanoseconds_add_up_to_the_whole_part_of_the_exact_time() {
    let mut builder = SongBuilder::default();
    builder
        .bpm(NoteValue::Quarter, NaturalRatio::from_integer(7))
        .note_value(NoteValue::Half)
        .note()
        .note_group()
        .note_value(NoteValue::Quarter)
        .note_group()
        .note_value(NoteValue::Eighth)
        .tuplet(3)
        .note_group()
        .tuplet(1)
        .note_group()
        .compass()
        .tuplet(2)
        .bpm(NoteValue::Quarter, NaturalRatio::new(113, 10))
        .note_value(NoteValue::Whole)
        .note_group()
        .compass();
    let song = builder.finish();
    let exact = song.nanos();
    let mut playable = play(song.clone(), 0, 44100);
    let mut given: u128 = 0;
    let mut count = 0;
    while let Some(segment) = playable.next_segment() {
        count += 1;
        given += segment.nanos;
        assert!(segment.nanos > 0);
    }
    assert_eq!(count, 5);
    assert_eq!(Some(given), exact.to_integer());
    let mut elapsed = NaturalRatio::from_integer(0);
    let mut again = play(song.clone(), 0, 44100);
    for (index, segment) in again.segments().iter().enumerate() {
        let group = &song.compasses()[index / 4].note_groups()[index % 4];
        let before = elapsed.to_integer().unwrap();
        elapsed = elapsed.plus(&group.tempo.nanos());
        assert_eq!(segment.nanos, elapsed.to_integer().unwrap() - before);
    }
    assert_eq!(elapsed, exact);
}
