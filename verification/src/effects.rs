//! Cutting a source to a number of samples.

use vstd::prelude::*;
use crate::number::{DurationExt, Natural, NaturalRatio, NANOS_PER_SEC};
use std::time::Duration;

verus! {

/// The whole nanoseconds that a number of samples takes at a sample rate:
/// the samples times the time of one sample, rounded to the nearest whole
/// number, a half rounded up.
pub open spec fn spec_nanos_of(samples: nat, sample_rate: nat) -> int {
    ((samples * NANOS_PER_SEC) as real / sample_rate as real + 1real / 2real).floor()
}

/// Samples at one sample per second or more take no more than a second
/// each.
pub proof fn lemma_nanos_of_bounded(samples: nat, sample_rate: nat)
    requires
        sample_rate > 0,
    ensures
        0 <= spec_nanos_of(samples, sample_rate) <= samples * NANOS_PER_SEC,
{
    let all = samples * NANOS_PER_SEC;
    assert(0real <= all as real / sample_rate as real <= all as real) by (nonlinear_arith)
        requires
            all >= 0,
            sample_rate >= 1,
    ;
}

/// Counts down the values that a source cut to a number of samples may
/// still give: as many values to each sample as there are channels, and
/// one where there is no channel.
#[derive(Debug, Clone, Copy)]
pub struct Take {
    /// The values of a sample.
    width: u16,
    /// The values that the sample at hand may still give.
    channel: u16,
    /// The samples after the one at hand.
    rem_samples: usize,
}

impl View for Take {
    type V = nat;

    /// How many values may still be given.
    closed spec fn view(&self) -> nat {
        (self.rem_samples * self.width + self.channel) as nat
    }
}

impl Take {
    #[verifier::type_invariant]
    spec fn counting(&self) -> bool {
        &&& self.width >= 1
        &&& self.channel <= self.width
        &&& self.channel == 0 ==> self.rem_samples == 0
        &&& self.rem_samples < usize::MAX
    }

    /// The values of one sample.
    pub closed spec fn spec_width(&self) -> nat {
        self.width as nat
    }

    /// The values of one sample for a number of channels.
    pub open spec fn width_of(channels: u16) -> nat {
        if channels == 0 {
            1
        } else {
            channels as nat
        }
    }

    /// How many samples are left, the one at hand too.
    pub closed spec fn spec_max_len(&self) -> nat {
        if self.channel == 0 {
            0
        } else {
            (self.rem_samples + 1) as nat
        }
    }

    /// A count of `samples` samples of `channels` channels.
    pub fn new(channels: u16, samples: usize) -> (r: Self)
        ensures
            r@ == samples * Self::width_of(channels),
            r.spec_width() == Self::width_of(channels),
            r.spec_max_len() == samples,
    {
        let width = if channels == 0 {
            1
        } else {
            channels
        };
        if samples == 0 {
            Take { width, channel: 0, rem_samples: 0 }
        } else {
            assert(samples * (width as nat) == (samples - 1) * width + width) by (nonlinear_arith);
            Take { width, channel: width, rem_samples: samples - 1 }
        }
    }

    /// How many samples are left, the one at hand too.
    pub fn max_len(&self) -> (r: usize)
        ensures
            r == self.spec_max_len(),
            self@ == 0 <==> r == 0,
            self@ <= r * self.spec_width(),
    {
        proof {
            use_type_invariant(self);
            assert(self.rem_samples * self.width >= 0) by (nonlinear_arith);
            assert(self.rem_samples * self.width + self.channel <= (self.rem_samples + 1)
                * self.width) by (nonlinear_arith)
                requires
                    self.channel <= self.width,
            ;
        }
        if self.channel == 0 {
            0
        } else {
            self.rem_samples + 1
        }
    }

    /// The time that the samples that are left take at the sample rate.
    pub fn max_duration(&self, sample_rate: u32) -> (r: Duration)
        requires
            sample_rate > 0,
        ensures
            r == Duration::spec_from_raw_nanos(
                spec_nanos_of(self.spec_max_len(), sample_rate as nat) as Natural,
            ),
    {
        let samples = self.max_len();
        let sample_time = NaturalRatio::new(NANOS_PER_SEC, sample_rate as Natural);
        let len = NaturalRatio::from_integer(samples as Natural);
        let time = len.times(&sample_time);
        proof {
            assert(time@ == (samples * NANOS_PER_SEC) as real / sample_rate as real)
                by (nonlinear_arith)
                requires
                    time@ == (samples as Natural) as real * (NANOS_PER_SEC as real / (
                    sample_rate as Natural) as real),
                    sample_rate > 0,
            ;
            lemma_nanos_of_bounded(samples as nat, sample_rate as nat);
        }
        let rounded = time.round();
        assert(rounded@ == spec_nanos_of(samples as nat, sample_rate as nat) as real);
        match rounded.to_integer() {
            Some(nanos) => {
                assert(nanos == spec_nanos_of(samples as nat, sample_rate as nat));
                Duration::from_raw_nanos(nanos)
            },
            None => unreached(),
        }
    }

    /// Whether one more value may be given; if so, it is counted.
    pub fn advance(&mut self) -> (r: bool)
        ensures
            r == (old(self)@ > 0),
            final(self)@ == if r {
                (old(self)@ - 1) as nat
            } else {
                old(self)@
            },
            final(self).spec_width() == old(self).spec_width(),
    {
        proof {
            use_type_invariant(&*self);
            assert(self.rem_samples * self.width >= 0) by (nonlinear_arith);
        }
        if self.channel == 0 {
            assert(self.rem_samples * self.width == 0) by (nonlinear_arith)
                requires
                    self.rem_samples == 0,
            ;
            return false;
        }
        if self.channel == 1 && self.rem_samples > 0 {
            assert((self.rem_samples - 1) * self.width + self.width == self.rem_samples
                * self.width) by (nonlinear_arith);
            *self = Take {
                width: self.width,
                channel: self.width,
                rem_samples: self.rem_samples - 1,
            };
        } else {
            *self = Take {
                width: self.width,
                channel: self.channel - 1,
                rem_samples: self.rem_samples,
            };
        }
        true
    }
}

} // verus!
