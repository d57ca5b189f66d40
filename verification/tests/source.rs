use mursic::effects::Take;
use mursic::source::{option_min, samples_in, SilenceBuilder};
use std::time::Duration;

#[test]
fn samples_in_counts_samples_of_a_time() {
    assert_eq!(samples_in(2_000_000_000, 48000), Some(96000));
    assert_eq!(samples_in(1_000_000_000, 44100), Some(44100));
    assert_eq!(samples_in(0, 48000), Some(0));
}

#[test]
fn samples_in_rounds_to_the_nearest_sample() {
    assert_eq!(samples_in(499_999_999, 1), Some(0));
    assert_eq!(samples_in(500_000_000, 1), Some(1));
    assert_eq!(samples_in(1_499_999_999, 1), Some(1));
    assert_eq!(samples_in(1_500_000_000, 1), Some(2));
    assert_eq!(samples_in(10_416, 48000), Some(0));
    assert_eq!(samples_in(10_417, 48000), Some(1));
}

#[test]
fn samples_in_is_none_where_the_count_does_not_fit() {
    assert_eq!(samples_in(u128::MAX, 4_000_000_000), None);
    assert_eq!(samples_in(u128::MAX, 1), None);
    assert_eq!(
        samples_in(usize::MAX as u128 * 1_000_000_000, 1),
        Some(usize::MAX)
    );
    assert_eq!(samples_in(usize::MAX as u128 * 1_000_000_000 + 500_000_000, 1), None);
}

#[test]
fn option_min_is_the_least_known_length() {
    assert_eq!(option_min(Some(5), &vec![Some(7), None, Some(3), Some(4)]), Some(3));
    assert_eq!(option_min(None, &vec![None, Some(9), Some(12)]), Some(9));
    assert_eq!(option_min(Some(2), &vec![None, None]), Some(2));
    assert_eq!(option_min(Some(2), &Vec::new()), Some(2));
    assert_eq!(option_min(None, &vec![None, None]), None);
    assert_eq!(option_min(None, &Vec::new()), None);
}

#[test]
fn silence_takes_its_settings_from_the_builder() {
    let mut builder = SilenceBuilder::default();
    assert_eq!(builder.get_sample_rate(), 48000);
    assert_eq!(builder.get_channels(), 1);
    builder.sample_rate(44100).channels(2);
    assert_eq!(builder.get_sample_rate(), 44100);
    assert_eq!(builder.get_channels(), 2);
    let silence = builder.finish();
    assert_eq!(silence.sample_rate(), 44100);
    assert_eq!(silence.channels(), 2);
    assert_eq!(silence.len(), None);
}

fn count(take: &mut Take) -> usize {
    let mut given = 0;
    while take.advance() {
        given += 1;
    }
    given
}

#[test]
fn take_gives_every_sample_of_one_channel() {
    let mut take = Take::new(1, 96000);
    assert_eq!(take.max_len(), 96000);
    assert_eq!(count(&mut take), 96000);
    assert_eq!(take.max_len(), 0);
    assert!(!take.advance());
}

#[test]
fn take_gives_a_value_for_every_channel_of_every_sample() {
    let mut take = Take::new(2, 3);
    assert!(take.advance());
    assert_eq!(take.max_len(), 3);
    assert!(take.advance());
    assert_eq!(take.max_len(), 2);
    assert_eq!(count(&mut take), 4);
    assert_eq!(take.max_len(), 0);
}

#[test]
fn take_of_nothing_gives_nothing() {
    let mut take = Take::new(2, 0);
    assert_eq!(take.max_len(), 0);
    assert!(!take.advance());
    let mut no_channel = Take::new(0, 4);
    assert_eq!(count(&mut no_channel), 4);
}

#[test]
fn take_knows_the_time_that_is_left() {
    let mut take = Take::new(1, 96000);
    assert_eq!(take.max_duration(48000), Duration::new(2, 0));
    assert!(take.advance());
    assert_eq!(take.max_duration(48000), Duration::new(1, 999_979_167));
    assert!(take.advance());
    assert_eq!(take.max_duration(48000), Duration::new(1, 999_958_333));
    assert_eq!(Take::new(1, 1).max_duration(3), Duration::new(0, 333_333_333));
    assert_eq!(Take::new(1, 2).max_duration(3), Duration::new(0, 666_666_667));
    assert_eq!(Take::new(1, usize::MAX).max_duration(1), Duration::new(usize::MAX as u64, 0));
}
