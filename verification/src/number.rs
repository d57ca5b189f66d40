//! Exact rational numbers of arbitrary size.
//!
//! The arithmetic itself is done by the `num` crate on `Ratio<BigUint>`; this
//! module states what each operation returns over the mathematical value of
//! a ratio, a `real`. None of these statements is proved here: they are
//! taken from what `num` documents and does. Each of them is about ratios
//! with a denominator other than zero, the only ones that this module makes.

use vstd::prelude::*;
use num::rational::Ratio;
use num::BigUint;
use num::ToPrimitive;
use std::time::Duration;

verus! {

/// `num::BigUint`, an unsigned integer of arbitrary size. Opaque to the
/// verifier.
#[verifier::external_type_specification]
#[verifier::external_body]
pub struct ExBigUint(BigUint);

/// `num::rational::Ratio`, a numerator over a denominator. Opaque to the
/// verifier.
#[verifier::external_type_specification]
#[verifier::external_body]
#[verifier::reject_recursive_types(T)]
pub struct ExRatio<T>(Ratio<T>);

/// The whole numbers that go into and come out of a ratio.
pub type Natural = u128;

/// The rational number that a ratio with a non-zero denominator stands for:
/// its numerator divided by its denominator.
pub uninterp spec fn ratio_value(r: Ratio<BigUint>) -> real;

/// Nanoseconds in one second.
pub const NANOS_PER_SEC: Natural = 1_000_000_000;

/// An exact, non-negative rational number.
///
/// The field is private and every constructor yields a ratio whose
/// denominator is not zero, so every value of this type stands for a number.
#[derive(Debug)]
pub struct NaturalRatio {
    inner: Ratio<BigUint>,
}

impl View for NaturalRatio {
    type V = real;

    closed spec fn view(&self) -> real {
        ratio_value(self.inner)
    }
}

/// `Ratio::new` on `BigUint::from(numer)` and `BigUint::from(denom)`:
/// the ratio `numer / denom`, reduced. It panics on a zero denominator,
/// which `requires` leaves out.
#[verifier::external_body]
fn ratio_new(numer: Natural, denom: Natural) -> (r: NaturalRatio)
    requires
        denom != 0,
    ensures
        ratio_value(r.inner) == numer as real / denom as real,
{
    NaturalRatio { inner: Ratio::new(BigUint::from(numer), BigUint::from(denom)) }
}

/// `Add` for `&Ratio<BigUint>`: the exact sum.
#[verifier::external_body]
fn ratio_add(a: &NaturalRatio, b: &NaturalRatio) -> (r: NaturalRatio)
    ensures
        ratio_value(r.inner) == ratio_value(a.inner) + ratio_value(b.inner),
{
    NaturalRatio { inner: &a.inner + &b.inner }
}

/// `Mul` for `&Ratio<BigUint>`: the exact product.
#[verifier::external_body]
fn ratio_mul(a: &NaturalRatio, b: &NaturalRatio) -> (r: NaturalRatio)
    ensures
        ratio_value(r.inner) == ratio_value(a.inner) * ratio_value(b.inner),
{
    NaturalRatio { inner: &a.inner * &b.inner }
}

/// `Div` for `&Ratio<BigUint>`: the exact quotient. It panics when the
/// divisor is zero, which `requires` leaves out.
#[verifier::external_body]
fn ratio_div(a: &NaturalRatio, b: &NaturalRatio) -> (r: NaturalRatio)
    requires
        ratio_value(b.inner) != 0real,
    ensures
        ratio_value(r.inner) == ratio_value(a.inner) / ratio_value(b.inner),
{
    NaturalRatio { inner: &a.inner / &b.inner }
}

/// `PartialEq::eq` for `Ratio<BigUint>`, which compares the numbers the two
/// ratios stand for, reduced or not.
#[verifier::external_body]
fn ratio_eq(a: &NaturalRatio, b: &NaturalRatio) -> (r: bool)
    ensures
        r == (ratio_value(a.inner) == ratio_value(b.inner)),
{
    a.inner == b.inner
}

/// `PartialOrd::le` for `Ratio<BigUint>`, which orders ratios by the numbers
/// they stand for.
#[verifier::external_body]
fn ratio_le(a: &NaturalRatio, b: &NaturalRatio) -> (r: bool)
    ensures
        r == (ratio_value(a.inner) <= ratio_value(b.inner)),
{
    a.inner <= b.inner
}

/// `ToPrimitive::to_u128` for `Ratio<BigUint>`: the ratio rounded towards
/// zero, or `None` when that whole number needs more than 128 bits.
#[verifier::external_body]
fn ratio_floor(a: &NaturalRatio) -> (r: Option<u128>)
    ensures
        match r {
            Some(n) => n == ratio_value(a.inner).floor(),
            None => ratio_value(a.inner).floor() > u128::MAX,
        },
{
    a.inner.to_u128()
}

/// `Ratio::fract`: what is left of the number once its whole part is taken
/// away.
#[verifier::external_body]
fn ratio_fract(a: &NaturalRatio) -> (r: NaturalRatio)
    ensures
        ratio_value(r.inner) == ratio_value(a.inner) - ratio_value(a.inner).floor() as real,
{
    NaturalRatio { inner: a.inner.fract() }
}

/// `Ratio::round`, which rounds to the nearest whole number and, of a ratio
/// that is not negative, rounds a half up.
#[verifier::external_body]
fn ratio_round(a: &NaturalRatio) -> (r: NaturalRatio)
    ensures
        ratio_value(r.inner) == (ratio_value(a.inner) + 1real / 2real).floor() as real,
{
    NaturalRatio { inner: a.inner.round() }
}

/// `Clone::clone` for `Ratio<BigUint>`: a ratio that stands for the same
/// number.
#[verifier::external_body]
fn ratio_clone(a: &NaturalRatio) -> (r: NaturalRatio)
    ensures
        ratio_value(r.inner) == ratio_value(a.inner),
{
    NaturalRatio { inner: a.inner.clone() }
}

impl NaturalRatio {
    /// The ratio `numer / denom`.
    pub fn new(numer: Natural, denom: Natural) -> (r: Self)
        requires
            denom != 0,
        ensures
            r@ == numer as real / denom as real,
    {
        ratio_new(numer, denom)
    }

    /// The whole number `n` as a ratio.
    pub fn from_integer(n: Natural) -> (r: Self)
        ensures
            r@ == n as real,
    {
        ratio_new(n, 1)
    }

    /// The exact sum of two ratios.
    pub fn plus(&self, other: &Self) -> (r: Self)
        ensures
            r@ == self@ + other@,
    {
        ratio_add(self, other)
    }

    /// The exact product of two ratios.
    pub fn times(&self, other: &Self) -> (r: Self)
        ensures
            r@ == self@ * other@,
    {
        ratio_mul(self, other)
    }

    /// The exact quotient of two ratios.
    pub fn over(&self, other: &Self) -> (r: Self)
        requires
            other@ != 0real,
        ensures
            r@ == self@ / other@,
    {
        ratio_div(self, other)
    }

    /// Whether this ratio is no greater than `other`.
    pub fn le(&self, other: &Self) -> (r: bool)
        ensures
            r == (self@ <= other@),
    {
        ratio_le(self, other)
    }

    /// The whole part of the ratio, or `None` where it needs more than 128
    /// bits.
    pub fn to_integer(&self) -> (r: Option<Natural>)
        ensures
            match r {
                Some(n) => n == self@.floor(),
                None => self@.floor() > Natural::MAX,
            },
    {
        ratio_floor(self)
    }

    /// What is left of the ratio once its whole part is taken away.
    pub fn fract(&self) -> (r: Self)
        ensures
            r@ == self@ - self@.floor() as real,
    {
        ratio_fract(self)
    }

    /// The nearest whole number, half-way cases rounded up.
    pub fn round(&self) -> (r: Self)
        ensures
            r@ == (self@ + 1real / 2real).floor() as real,
    {
        ratio_round(self)
    }

    /// The ratio as the `num` crate holds it.
    pub fn inner(&self) -> (r: &Ratio<BigUint>)
        ensures
            ratio_value(*r) == self@,
    {
        &self.inner
    }
}

impl Clone for NaturalRatio {
    fn clone(&self) -> (r: Self)
        ensures
            r@ == self@,
    {
        ratio_clone(self)
    }
}

impl PartialEq for NaturalRatio {
    fn eq(&self, other: &Self) -> (r: bool) {
        ratio_eq(self, other)
    }
}

impl vstd::std_specs::cmp::PartialEqSpecImpl for NaturalRatio {
    open spec fn obeys_eq_spec() -> bool {
        true
    }

    open spec fn eq_spec(&self, other: &Self) -> bool {
        self@ == other@
    }
}

/// What `Duration::new` returns for a number of whole seconds and a number
/// of nanoseconds below one second.
pub uninterp spec fn duration_of(secs: u64, subsec_nanos: u32) -> Duration;

/// `Duration::new` builds the duration from whole seconds and further
/// nanoseconds. With a second or more of nanoseconds it carries into the
/// seconds and may panic, which `requires` leaves out.
pub assume_specification[ Duration::new ](secs: u64, nanos: u32) -> (d: Duration)
    requires
        nanos < 1_000_000_000,
    ensures
        d == duration_of(secs, nanos),
;

/// Durations from a count of nanoseconds of any size.
pub trait DurationExt: Sized {
    /// The duration that lasts `nanos` nanoseconds.
    spec fn spec_from_raw_nanos(nanos: Natural) -> Self;

    fn from_raw_nanos(nanos: Natural) -> (d: Self)
        requires
            nanos / NANOS_PER_SEC <= u64::MAX,
        ensures
            d == Self::spec_from_raw_nanos(nanos),
    ;
}

impl DurationExt for Duration {
    open spec fn spec_from_raw_nanos(nanos: Natural) -> Duration {
        duration_of((nanos / NANOS_PER_SEC) as u64, (nanos % NANOS_PER_SEC) as u32)
    }

    fn from_raw_nanos(nanos: Natural) -> (d: Duration) {
        let secs: u64 = (nanos / NANOS_PER_SEC) as u64;
        let subsec_nanos: u32 = (nanos % NANOS_PER_SEC) as u32;
        Duration::new(secs, subsec_nanos)
    }
}

/// A quotient of two positive whole numbers is positive.
pub proof fn lemma_quotient_positive(numer: nat, denom: nat)
    requires
        numer > 0,
        denom > 0,
    ensures
        numer as real / denom as real > 0real,
{
    assert(numer as real / denom as real > 0real) by (nonlinear_arith)
        requires
            numer > 0,
            denom > 0,
    ;
}

} // verus!
