use mursic::number::{DurationExt, NaturalRatio};
use std::time::Duration;

#[test]
fn new_reduces_to_lowest_terms() {
    let ratio = NaturalRatio::new(6, 8);
    assert_eq!(ratio, NaturalRatio::new(3, 4));
    assert_eq!(ratio.inner().numer().to_string(), "3");
    assert_eq!(ratio.inner().denom().to_string(), "4");
}

#[test]
fn from_integer_has_denominator_one() {
    let ratio = NaturalRatio::from_integer(7);
    assert_eq!(ratio, NaturalRatio::new(14, 2));
    assert_eq!(ratio.inner().denom().to_string(), "1");
}

#[test]
fn plus_adds_exactly() {
    let sum = NaturalRatio::new(1, 3).plus(&NaturalRatio::new(1, 6));
    assert_eq!(sum, NaturalRatio::new(1, 2));
    assert_ne!(sum, NaturalRatio::new(1, 3));
}

#[test]
fn times_multiplies_exactly() {
    let product = NaturalRatio::new(2, 3).times(&NaturalRatio::new(9, 4));
    assert_eq!(product, NaturalRatio::new(3, 2));
    assert_ne!(product, NaturalRatio::new(2, 3));
}

#[test]
fn over_divides_exactly() {
    let quotient = NaturalRatio::new(3, 4).over(&NaturalRatio::new(3, 8));
    assert_eq!(quotient, NaturalRatio::from_integer(2));
    assert_ne!(quotient, NaturalRatio::new(3, 4));
}

#[test]
fn le_orders_by_value() {
    assert!(NaturalRatio::new(1, 3).le(&NaturalRatio::new(1, 2)));
    assert!(NaturalRatio::new(2, 4).le(&NaturalRatio::new(1, 2)));
    assert!(!NaturalRatio::new(2, 3).le(&NaturalRatio::new(1, 2)));
}

#[test]
fn eq_compares_values() {
    assert!(NaturalRatio::new(2, 4) == NaturalRatio::new(1, 2));
    assert!(NaturalRatio::new(2, 4) != NaturalRatio::new(1, 3));
}

#[test]
fn to_integer_rounds_towards_zero() {
    assert_eq!(NaturalRatio::new(7, 2).to_integer(), Some(3));
    assert_eq!(NaturalRatio::new(1, 2).to_integer(), Some(0));
    assert_eq!(NaturalRatio::from_integer(u128::MAX).to_integer(), Some(u128::MAX));
}

#[test]
fn to_integer_is_none_beyond_128_bits() {
    let big = NaturalRatio::from_integer(u128::MAX).times(&NaturalRatio::from_integer(2));
    assert_eq!(big.to_integer(), None);
    let just_over = NaturalRatio::from_integer(u128::MAX).plus(&NaturalRatio::from_integer(1));
    assert_eq!(just_over.to_integer(), None);
}

#[test]
fn arithmetic_does_not_wrap() {
    let big = NaturalRatio::from_integer(u128::MAX);
    let square = big.times(&big);
    assert_eq!(square.over(&big), NaturalRatio::from_integer(u128::MAX));
}

#[test]
fn fract_keeps_what_is_below_one() {
    assert_eq!(NaturalRatio::new(7, 2).fract(), NaturalRatio::new(1, 2));
    assert_eq!(NaturalRatio::new(1000, 3).fract(), NaturalRatio::new(1, 3));
    assert_eq!(NaturalRatio::from_integer(5).fract(), NaturalRatio::from_integer(0));
}

#[test]
fn round_rounds_half_up() {
    assert_eq!(NaturalRatio::new(5, 2).round(), NaturalRatio::from_integer(3));
    assert_eq!(NaturalRatio::new(7, 3).round(), NaturalRatio::from_integer(2));
    assert_eq!(NaturalRatio::new(8, 3).round(), NaturalRatio::from_integer(3));
    assert_eq!(NaturalRatio::new(1, 2).round(), NaturalRatio::from_integer(1));
    assert_eq!(NaturalRatio::new(1, 3).round(), NaturalRatio::from_integer(0));
}

#[test]
fn clone_keeps_the_value() {
    let ratio = NaturalRatio::new(22, 7);
    assert_eq!(ratio.clone(), ratio);
}

#[test]
fn from_raw_nanos_splits_seconds_and_nanoseconds() {
    assert_eq!(Duration::from_raw_nanos(2_000_000_000), Duration::new(2, 0));
    assert_eq!(Duration::from_raw_nanos(1_500_000_001), Duration::new(1, 500_000_001));
    assert_eq!(Duration::from_raw_nanos(999_999_999), Duration::new(0, 999_999_999));
    assert_eq!(Duration::from_raw_nanos(0), Duration::new(0, 0));
}

#[test]
fn from_raw_nanos_reaches_the_last_second() {
    let nanos = u64::MAX as u128 * 1_000_000_000 + 999_999_999;
    assert_eq!(Duration::from_raw_nanos(nanos), Duration::new(u64::MAX, 999_999_999));
}
