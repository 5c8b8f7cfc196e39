//! Conversion of ADC samples into measurements.

use crate::app::Measurement;
use vstd::prelude::*;

verus! {

/// Samples that are averaged into one reading.
pub const SAMPLE_COUNT: u32 = 4;

/// Polls of one hardware transition before the ADC counts as failed. At 48 MHz
/// this permits roughly 500 us, far more than a conversion takes.
pub const ADC_READY_SPINS: u32 = 24_000;

/// The input voltage of four samples that add up to `sum`, rounded, with full
/// scale at 3.3 V.
pub open spec fn input_millivolts(sum: int) -> int {
    (sum * 3_300 / 4 + 2_047) / 4_095
}

/// The input voltage from five conversions, of which the first is discarded:
/// the sample capacitor still holds the previous channel. A conversion that
/// failed leaves no reading.
pub open spec fn reading(conversions: [Option<u16>; 5]) -> Option<u16> {
    match (conversions[0], conversions[1], conversions[2], conversions[3], conversions[4]) {
        (Some(_), Some(first), Some(second), Some(third), Some(fourth)) => Some(
            input_millivolts(first + second + third + fourth) as u16,
        ),
        _ => None,
    }
}

pub fn read_adc_mv(conversions: &[Option<u16>; 5]) -> (millivolts: Option<u16>)
    ensures
        millivolts == reading(*conversions),
        millivolts matches Some(found) ==> found == input_millivolts(
            conversions[1]->Some_0 + conversions[2]->Some_0 + conversions[3]->Some_0
                + conversions[4]->Some_0,
        ),
{
    if conversions[0].is_none() {
        return None;
    }
    match (conversions[1], conversions[2], conversions[3], conversions[4]) {
        (Some(first), Some(second), Some(third), Some(fourth)) => {
            let sum: u32 = first as u32 + second as u32 + third as u32 + fourth as u32;
            Some(((sum * 3_300 / SAMPLE_COUNT + 2_047) / 4_095) as u16)
        },
        _ => None,
    }
}

/// What a channel measures: its voltage behind a divider, its current at 2 mA
/// per millivolt. Both saturate; a failed reading makes the measurement
/// invalid.
pub open spec fn channel_measurement(
    voltage: Option<u16>,
    current: Option<u16>,
    numerator: u16,
    denominator: u16,
) -> Measurement {
    match (voltage, current) {
        (Some(input_mv), Some(current_mv)) => Measurement {
            millivolts: capped(input_mv * numerator / denominator as int),
            milliamps: capped(current_mv * 2),
            valid: true,
        },
        _ => Measurement { millivolts: 0, milliamps: 0, valid: false },
    }
}

/// A number as the closest 16-bit value that is not above it.
pub open spec fn capped(value: int) -> u16 {
    if value > 65_535 {
        65_535
    } else {
        value as u16
    }
}

pub fn read_channel_measurement(
    voltage: Option<u16>,
    current: Option<u16>,
    voltage_scale_numerator: u16,
    voltage_scale_denominator: u16,
) -> (measurement: Measurement)
    requires
        voltage_scale_denominator != 0,
    ensures
        measurement == channel_measurement(
            voltage,
            current,
            voltage_scale_numerator,
            voltage_scale_denominator,
        ),
{
    match (voltage, current) {
        (Some(input_mv), Some(current_mv)) => {
            assert(input_mv * voltage_scale_numerator <= 0xfffe_0001) by (nonlinear_arith)
                requires
                    input_mv <= 0xffff,
                    voltage_scale_numerator <= 0xffff,
            ;
            let millivolts: u32 = input_mv as u32 * voltage_scale_numerator as u32
                / voltage_scale_denominator as u32;
            let milliamps: u32 = current_mv as u32 * 2;
            Measurement {
                millivolts: if millivolts > 65_535 {
                    65_535
                } else {
                    millivolts as u16
                },
                milliamps: if milliamps > 65_535 {
                    65_535
                } else {
                    milliamps as u16
                },
                valid: true,
            }
        },
        _ => Measurement { millivolts: 0, milliamps: 0, valid: false },
    }
}

/// Full scale reads as 3.3 V, and nothing as nothing.
pub proof fn full_scale_is_the_supply()
    ensures
        input_millivolts(16_380) == 3_300,
        input_millivolts(0) == 0,
{
}

/// A higher sum of samples never gives a lower voltage.
pub proof fn readings_are_monotone(low: int, high: int)
    requires
        0 <= low <= high,
    ensures
        input_millivolts(low) <= input_millivolts(high),
{
}

} // verus!
