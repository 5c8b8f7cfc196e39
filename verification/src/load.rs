//! Averages of measurements: what the display shows of a channel, and what a
//! waveform draws.

use crate::app::{invalid_measurement, LoadMeasurement, Measurement};
use vstd::prelude::*;

verus! {

/// The sum of voltages.
pub open spec fn volt_sum(samples: Seq<Measurement>) -> nat
    decreases samples.len(),
{
    if samples.len() == 0 {
        0
    } else {
        volt_sum(samples.drop_last()) + samples.last().millivolts as nat
    }
}

/// The sum of currents.
pub open spec fn amp_sum(samples: Seq<Measurement>) -> nat
    decreases samples.len(),
{
    if samples.len() == 0 {
        0
    } else {
        amp_sum(samples.drop_last()) + samples.last().milliamps as nat
    }
}

/// The sum of squared currents.
pub open spec fn square_sum(samples: Seq<Measurement>) -> nat
    decreases samples.len(),
{
    if samples.len() == 0 {
        0
    } else {
        square_sum(samples.drop_last()) + samples.last().milliamps as nat
            * samples.last().milliamps as nat
    }
}

/// The sum of powers, in microwatts.
pub open spec fn power_sum(samples: Seq<Measurement>) -> nat
    decreases samples.len(),
{
    if samples.len() == 0 {
        0
    } else {
        power_sum(samples.drop_last()) + samples.last().millivolts as nat
            * samples.last().milliamps as nat
    }
}

/// The most samples that are averaged.
pub const MAX_SAMPLES: u32 = 0xffff;

/// Averages the measurements between two updates of the display.
#[derive(Clone, Copy, Debug, PartialEq, Eq, Structural)]
pub struct MeasurementAccumulator {
    pub millivolts: u32,
    pub milliamps: u32,
    pub count: u32,
}

impl MeasurementAccumulator {
    /// The accumulator holds these samples.
    pub open spec fn holds(self, samples: Seq<Measurement>) -> bool {
        &&& samples.len() <= MAX_SAMPLES
        &&& self.count == samples.len()
        &&& self.millivolts == volt_sum(samples)
        &&& self.milliamps == amp_sum(samples)
    }

    pub fn new() -> (accumulator: Self)
        ensures
            accumulator.holds(Seq::empty()),
    {
        MeasurementAccumulator { millivolts: 0, milliamps: 0, count: 0 }
    }

    /// Takes in a valid measurement, as long as there is room.
    pub fn push(&mut self, measurement: Measurement)
        ensures
            forall|samples: Seq<Measurement>| #[trigger]
                old(self).holds(samples) ==> final(self).holds(
                    if measurement.valid && samples.len() < MAX_SAMPLES {
                        samples.push(measurement)
                    } else {
                        samples
                    },
                ),
    {
        proof {
            assert forall|samples: Seq<Measurement>| #[trigger] old(self).holds(samples) implies {
                &&& self.millivolts <= samples.len() * 0xffff
                &&& self.milliamps <= samples.len() * 0xffff
                &&& samples.push(measurement).drop_last() == samples
            } by {
                lemma_sums(samples);
                assert(samples.push(measurement).drop_last() =~= samples);
            }
        }
        if measurement.valid && self.count < MAX_SAMPLES {
            self.millivolts = self.millivolts.saturating_add(measurement.millivolts as u32);
            self.milliamps = self.milliamps.saturating_add(measurement.milliamps as u32);
            self.count = self.count + 1;
        }
    }

    /// The average of the samples, which are then forgotten; without a sample
    /// the measurement is invalid.
    pub fn take(&mut self) -> (average: Measurement)
        ensures
            forall|samples: Seq<Measurement>| #[trigger]
                old(self).holds(samples) ==> average == average_of(samples),
            final(self).holds(Seq::empty()),
    {
        proof {
            assert forall|samples: Seq<Measurement>| #[trigger] old(self).holds(samples) implies {
                &&& self.millivolts <= samples.len() * 0xffff
                &&& self.milliamps <= samples.len() * 0xffff
            } by {
                lemma_sums(samples);
            }
        }
        let average = if self.count == 0 {
            Measurement::invalid()
        } else {
            Measurement {
                millivolts: (self.millivolts / self.count) as u16,
                milliamps: (self.milliamps / self.count) as u16,
                valid: true,
            }
        };
        self.millivolts = 0;
        self.milliamps = 0;
        self.count = 0;
        average
    }
}

/// The average of some samples.
pub open spec fn average_of(samples: Seq<Measurement>) -> Measurement {
    if samples.len() == 0 {
        invalid_measurement()
    } else {
        Measurement {
            millivolts: (volt_sum(samples) / samples.len()) as u16,
            milliamps: (amp_sum(samples) / samples.len()) as u16,
            valid: true,
        }
    }
}

proof fn lemma_sums(samples: Seq<Measurement>)
    ensures
        volt_sum(samples) <= samples.len() * 0xffff,
        amp_sum(samples) <= samples.len() * 0xffff,
        square_sum(samples) <= samples.len() * 0xfffe_0001,
        power_sum(samples) <= samples.len() * 0xfffe_0001,
    decreases samples.len(),
{
    if samples.len() > 0 {
        lemma_sums(samples.drop_last());
        let last = samples.last();
        assert(last.milliamps * last.milliamps <= 0xfffe_0001) by (nonlinear_arith)
            requires
                last.milliamps <= 0xffff,
        ;
        assert(last.millivolts * last.milliamps <= 0xfffe_0001) by (nonlinear_arith)
            requires
                last.milliamps <= 0xffff,
                last.millivolts <= 0xffff,
        ;
    }
}

/// The largest number whose square is not above `value`.
pub open spec fn is_root(root: int, value: int) -> bool {
    root * root <= value && value < (root + 1) * (root + 1)
}

/// The integer square root.
pub fn square_root(value: u32) -> (root: u16)
    ensures
        is_root(root as int, value as int),
{
    let mut low: u32 = 0;
    let mut high: u32 = 0x1_0000;
    assert(0x1_0000 * 0x1_0000 > value) by (nonlinear_arith)
        requires
            value <= 0xffff_ffff,
    ;
    while high - low > 1
        invariant
            low < high <= 0x1_0000,
            low * low <= value,
            value < high * high,
        decreases high - low,
    {
        let middle: u32 = low + (high - low) / 2;
        assert(middle * middle <= 0xfffe_0001) by (nonlinear_arith)
            requires
                middle <= 0xffff,
        ;
        if middle * middle <= value {
            low = middle;
        } else {
            high = middle;
        }
    }
    low as u16
}

/// Measures what a waveform draws: effective current and average power.
#[derive(Clone, Copy, Debug, PartialEq, Eq, Structural)]
pub struct LoadAccumulator {
    pub squares: u64,
    pub microwatts: u64,
    pub count: u32,
}

/// What `measurement` says of the load that the samples show.
pub open spec fn measures(samples: Seq<Measurement>, measurement: LoadMeasurement) -> bool {
    if samples.len() == 0 {
        measurement == (LoadMeasurement { milliamps_rms: 0, milliwatts_average: 0, valid: false })
    } else {
        &&& measurement.valid
        &&& is_root(
            measurement.milliamps_rms as int,
            (square_sum(samples) / samples.len()) as int,
        )
        &&& measurement.milliwatts_average == power_sum(samples) / samples.len() / 1_000
    }
}

impl LoadAccumulator {
    /// The accumulator holds these samples.
    pub open spec fn holds(self, samples: Seq<Measurement>) -> bool {
        &&& samples.len() <= MAX_SAMPLES
        &&& self.count == samples.len()
        &&& self.squares == square_sum(samples)
        &&& self.microwatts == power_sum(samples)
    }

    pub fn new() -> (accumulator: Self)
        ensures
            accumulator.holds(Seq::empty()),
    {
        LoadAccumulator { squares: 0, microwatts: 0, count: 0 }
    }

    /// Forgets everything.
    pub fn reset(&mut self)
        ensures
            final(self).holds(Seq::empty()),
    {
        self.squares = 0;
        self.microwatts = 0;
        self.count = 0;
    }

    /// Takes in a valid measurement, as long as there is room.
    pub fn push(&mut self, measurement: Measurement)
        ensures
            forall|samples: Seq<Measurement>| #[trigger]
                old(self).holds(samples) ==> final(self).holds(
                    if measurement.valid && samples.len() < MAX_SAMPLES {
                        samples.push(measurement)
                    } else {
                        samples
                    },
                ),
    {
        proof {
            assert forall|samples: Seq<Measurement>| #[trigger] old(self).holds(samples) implies {
                &&& self.squares <= samples.len() * 0xfffe_0001
                &&& self.microwatts <= samples.len() * 0xfffe_0001
                &&& samples.push(measurement).drop_last() == samples
            } by {
                lemma_sums(samples);
                assert(samples.push(measurement).drop_last() =~= samples);
            }
        }
        if measurement.valid && self.count < MAX_SAMPLES {
            let millivolts: u64 = measurement.millivolts as u64;
            let milliamps: u64 = measurement.milliamps as u64;
            assert(milliamps * milliamps <= 0xfffe_0001 && millivolts * milliamps <= 0xfffe_0001)
                by (nonlinear_arith)
                requires
                    milliamps <= 0xffff,
                    millivolts <= 0xffff,
            ;
            self.squares = self.squares.saturating_add(milliamps * milliamps);
            self.microwatts = self.microwatts.saturating_add(millivolts * milliamps);
            self.count = self.count + 1;
        }
    }

    /// What the samples show, which are then forgotten.
    pub fn take(&mut self) -> (load: LoadMeasurement)
        ensures
            forall|samples: Seq<Measurement>| #[trigger]
                old(self).holds(samples) ==> measures(samples, load),
            final(self).holds(Seq::empty()),
    {
        proof {
            assert forall|samples: Seq<Measurement>| #[trigger] old(self).holds(samples) implies {
                &&& self.count > 0 ==> self.squares / self.count as u64 <= 0xfffe_0001
                &&& self.count > 0 ==> self.microwatts / self.count as u64 <= 0xfffe_0001
            } by {
                lemma_sums(samples);
                if self.count > 0 {
                    lemma_quotient(self.squares as int, self.count as int);
                    lemma_quotient(self.microwatts as int, self.count as int);
                }
            }
        }
        let load = if self.count == 0 {
            LoadMeasurement { milliamps_rms: 0, milliwatts_average: 0, valid: false }
        } else {
            let squares: u64 = self.squares / self.count as u64;
            let microwatts: u64 = self.microwatts / self.count as u64;
            LoadMeasurement {
                milliamps_rms: square_root(squares as u32),
                milliwatts_average: (microwatts / 1_000) as u32,
                valid: true,
            }
        };
        self.squares = 0;
        self.microwatts = 0;
        self.count = 0;
        load
    }
}

proof fn lemma_quotient(sum: int, count: int)
    requires
        0 <= sum <= count * 0xfffe_0001,
        count > 0,
    ensures
        sum / count <= 0xfffe_0001,
{
    assert(sum / count <= 0xfffe_0001) by (nonlinear_arith)
        requires
            0 <= sum <= count * 0xfffe_0001,
            count > 0,
    ;
}

/// The same sample, `count` times.
pub open spec fn repeated(sample: Measurement, count: nat) -> Seq<Measurement> {
    Seq::new(count, |i: int| sample)
}

/// The average of equal samples is the sample.
pub proof fn average_of_equal_samples(sample: Measurement, count: nat)
    requires
        sample.valid,
        count > 0,
    ensures
        average_of(repeated(sample, count)) == sample,
{
    lemma_equal_sums(sample, count);
    assert(count * sample.millivolts / count as int == sample.millivolts) by (nonlinear_arith)
        requires
            count > 0,
    ;
    assert(count * sample.milliamps / count as int == sample.milliamps) by (nonlinear_arith)
        requires
            count > 0,
    ;
}

proof fn lemma_equal_sums(sample: Measurement, count: nat)
    ensures
        volt_sum(repeated(sample, count)) == count * sample.millivolts,
        amp_sum(repeated(sample, count)) == count * sample.milliamps,
    decreases count,
{
    if count == 0 {
        assert(count * sample.millivolts == 0 && count * sample.milliamps == 0) by (nonlinear_arith)
            requires
                count == 0,
        ;
    } else {
        lemma_equal_sums(sample, (count - 1) as nat);
        let all = repeated(sample, count);
        assert(all.drop_last() =~= repeated(sample, (count - 1) as nat));
        assert(all.last() == sample);
        assert(count * sample.millivolts == (count - 1) * sample.millivolts + sample.millivolts)
            by (nonlinear_arith);
        assert(count * sample.milliamps == (count - 1) * sample.milliamps + sample.milliamps)
            by (nonlinear_arith);
    }
}

} // verus!
