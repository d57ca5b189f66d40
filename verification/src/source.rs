//! Sample counts, and the source of silence.

use vstd::prelude::*;
use crate::number::{Natural, NaturalRatio, NANOS_PER_SEC};

verus! {

/// How many samples a time takes at a sample rate: the time in
/// nanoseconds, over the time of one sample, rounded to the nearest whole
/// number, a half rounded up.
pub open spec fn spec_samples_in(nanos: nat, sample_rate: nat) -> int {
    ((nanos * sample_rate) as real / (NANOS_PER_SEC as real) + 1real / 2real).floor()
}

/// More time takes no fewer samples.
pub proof fn lemma_samples_monotonic(shorter: nat, longer: nat, sample_rate: nat)
    requires
        shorter <= longer,
    ensures
        0 <= spec_samples_in(shorter, sample_rate) <= spec_samples_in(longer, sample_rate),
{
    let low = shorter * sample_rate;
    let high = longer * sample_rate;
    assert(0 <= low <= high) by (nonlinear_arith)
        requires
            low == shorter * sample_rate,
            high == longer * sample_rate,
            shorter <= longer,
    ;
    let low_samples = low as real / (NANOS_PER_SEC as real) + 1real / 2real;
    let high_samples = high as real / (NANOS_PER_SEC as real) + 1real / 2real;
    assert(0real <= low as real / (NANOS_PER_SEC as real) <= high as real / (NANOS_PER_SEC as real))
        by (nonlinear_arith)
        requires
            0 <= low <= high,
            NANOS_PER_SEC == 1_000_000_000,
    ;
    assert(0 <= low_samples.floor() <= high_samples.floor());
}

/// How many samples a time takes at a sample rate, or `None` where the
/// count does not fit.
pub fn samples_in(nanos: Natural, sample_rate: u32) -> (r: Option<usize>)
    requires
        sample_rate > 0,
    ensures
        match r {
            Some(samples) => samples == spec_samples_in(nanos as nat, sample_rate as nat),
            None => spec_samples_in(nanos as nat, sample_rate as nat) > usize::MAX,
        },
{
    let sample_time = NaturalRatio::new(NANOS_PER_SEC, sample_rate as Natural);
    assert(sample_time@ != 0real) by (nonlinear_arith)
        requires
            sample_time@ == NANOS_PER_SEC as real / (sample_rate as Natural) as real,
            sample_rate > 0,
            NANOS_PER_SEC == 1_000_000_000,
    ;
    let time = NaturalRatio::from_integer(nanos);
    let samples = time.over(&sample_time);
    assert(samples@ == (nanos * sample_rate) as real / (NANOS_PER_SEC as real))
        by (nonlinear_arith)
        requires
            samples@ == (nanos as real) / (NANOS_PER_SEC as real / (
            sample_rate as Natural) as real),
            sample_rate > 0,
            NANOS_PER_SEC == 1_000_000_000,
    ;
    match samples.round().to_integer() {
        Some(count) => if count <= usize::MAX as Natural {
            Some(count as usize)
        } else {
            None
        },
        None => None,
    }
}

/// The least of the lengths that are known, starting from `init`; `None`
/// stands for a length that is not known, and is the result only where
/// none is known.
pub fn option_min(init: Option<usize>, lengths: &Vec<Option<usize>>) -> (r: Option<usize>)
    ensures
        r is None <==> init is None && forall|i: int|
            0 <= i < lengths.len() ==> lengths[i] is None,
        r matches Some(least) ==> {
            &&& init matches Some(length) ==> least <= length
            &&& forall|i: int|
                0 <= i < lengths.len() ==> (#[trigger] lengths[i] matches Some(length) ==> least
                    <= length)
            &&& init == Some(least) || exists|i: int|
                0 <= i < lengths.len() && lengths[i] == Some(least)
        },
{
    let mut ret = init;
    let mut i: usize = 0;
    while i < lengths.len()
        invariant
            i <= lengths.len(),
            ret is None <==> init is None && forall|j: int| 0 <= j < i ==> lengths[j] is None,
            ret matches Some(least) ==> {
                &&& init matches Some(length) ==> least <= length
                &&& forall|j: int|
                    0 <= j < i ==> (#[trigger] lengths[j] matches Some(length) ==> least <= length)
                &&& init == Some(least) || exists|j: int| 0 <= j < i && lengths[j] == Some(least)
            },
        decreases lengths.len() - i,
    {
        let elem = lengths[i];
        match ret {
            Some(curr) => {
                match elem {
                    Some(val) => {
                        if val < curr {
                            ret = Some(val);
                        }
                    },
                    None => {},
                }
            },
            None => {
                ret = elem;
            },
        }
        i += 1;
    }
    ret
}

/// A source of silence that never ends.
#[derive(Debug, Clone, Copy, PartialEq, Eq, Structural)]
pub struct Silence {
    sample_rate: u32,
    channels: u16,
}

impl Silence {
    pub closed spec fn spec_sample_rate(&self) -> u32 {
        self.sample_rate
    }

    pub closed spec fn spec_channels(&self) -> u16 {
        self.channels
    }

    /// Silence has no end, so it has no length.
    pub fn len(&self) -> (r: Option<usize>)
        ensures
            r is None,
    {
        None
    }

    pub fn channels(&self) -> (r: u16)
        ensures
            r == self.spec_channels(),
    {
        self.channels
    }

    pub fn sample_rate(&self) -> (r: u32)
        ensures
            r == self.spec_sample_rate(),
    {
        self.sample_rate
    }
}

/// Sets up a source of silence.
#[derive(Debug, Clone, Copy, PartialEq, Eq, Structural)]
pub struct SilenceBuilder {
    sample_rate: u32,
    channels: u16,
}

impl Default for SilenceBuilder {
    /// One channel at 48000 samples per second.
    fn default() -> (r: Self)
        ensures
            r.spec_sample_rate() == 48000,
            r.spec_channels() == 1,
    {
        SilenceBuilder { sample_rate: 48000, channels: 1 }
    }
}

impl SilenceBuilder {
    pub closed spec fn spec_sample_rate(&self) -> u32 {
        self.sample_rate
    }

    pub closed spec fn spec_channels(&self) -> u16 {
        self.channels
    }

    pub fn sample_rate(&mut self, sample_rate: u32) -> (ret: &mut Self)
        ensures
            ret.spec_sample_rate() == sample_rate,
            ret.spec_channels() == old(self).spec_channels(),
            *final(self) == *final(ret),
    {
        self.sample_rate = sample_rate;
        self
    }

    pub fn channels(&mut self, channels: u16) -> (ret: &mut Self)
        ensures
            ret.spec_channels() == channels,
            ret.spec_sample_rate() == old(self).spec_sample_rate(),
            *final(self) == *final(ret),
    {
        self.channels = channels;
        self
    }

    pub fn get_sample_rate(&self) -> (r: u32)
        ensures
            r == self.spec_sample_rate(),
    {
        self.sample_rate
    }

    pub fn get_channels(&self) -> (r: u16)
        ensures
            r == self.spec_channels(),
    {
        self.channels
    }

    pub fn finish(&self) -> (r: Silence)
        ensures
            r.spec_sample_rate() == self.spec_sample_rate(),
            r.spec_channels() == self.spec_channels(),
    {
        Silence { sample_rate: self.sample_rate, channels: self.channels }
    }
}

} // verus!
