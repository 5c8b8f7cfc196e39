//! Electrical limits of the adjustable channels and of the input.

use vstd::prelude::*;

verus! {

/// Lowest programmable voltage of channel 4.
pub const CH4_MIN_VOLTAGE_MV: u16 = 500;

/// Highest programmable voltage of channel 4.
pub const CH4_MAX_VOLTAGE_MV: u16 = 5_000;

/// Lowest programmable voltage of channel 5.
pub const CH5_MIN_VOLTAGE_MV: u16 = 800;

/// Highest programmable voltage of channel 5.
pub const CH5_MAX_VOLTAGE_MV: u16 = 22_000;

/// Highest current limit of any output channel.
pub const CHANNEL_MAX_CURRENT_MA: u16 = 3_000;

/// Highest current limit of the USB PD input.
pub const SINK_MAX_CURRENT_MA: u16 = 5_000;

/// Lowest frequency of a built-in waveform.
pub const AWG_MIN_FREQUENCY_MILLIHZ: u32 = 100;

/// `value` moved to the nearest end of `low..=high` when it lies outside.
pub open spec fn clamped(value: int, low: int, high: int) -> int {
    if value < low {
        low
    } else if value > high {
        high
    } else {
        value
    }
}

/// Clamps to `low..=high`.
pub fn clamp_u16(value: u16, low: u16, high: u16) -> (result: u16)
    ensures
        result as int == clamped(value as int, low as int, high as int),
{
    if value < low {
        low
    } else if value > high {
        high
    } else {
        value
    }
}

/// Clamps to `low..=high`.
pub fn clamp_u32(value: u32, low: u32, high: u32) -> (result: u32)
    ensures
        result as int == clamped(value as int, low as int, high as int),
{
    if value < low {
        low
    } else if value > high {
        high
    } else {
        value
    }
}

/// Moves `value` by `delta * step` and clamps the sum to `low..=high`.
pub fn stepped_u16(value: u16, delta: i8, step: u16, low: u16, high: u16) -> (result: u16)
    ensures
        result as int == clamped(
            value as int + delta as int * step as int,
            low as int,
            high as int,
        ),
{
    assert(-128 * 65_535 <= delta as int * step as int <= 127 * 65_535) by (nonlinear_arith)
        requires
            -128 <= delta as int <= 127,
            0 <= step as int <= 65_535,
    ;
    let moved: i32 = value as i32 + (delta as i32) * (step as i32);
    if moved < low as i32 {
        low
    } else if moved > high as i32 {
        high
    } else {
        moved as u16
    }
}

/// Lowest voltage an adjustable channel accepts.
pub open spec fn min_voltage(channel: int) -> u16 {
    if channel == 3 {
        CH4_MIN_VOLTAGE_MV
    } else {
        CH5_MIN_VOLTAGE_MV
    }
}

/// Highest voltage an adjustable channel accepts.
pub open spec fn max_voltage(channel: int) -> u16 {
    if channel == 3 {
        CH4_MAX_VOLTAGE_MV
    } else {
        CH5_MAX_VOLTAGE_MV
    }
}

/// The voltage range of an adjustable channel, as `(lowest, highest)`.
pub fn voltage_range(channel: u8) -> (range: (u16, u16))
    ensures
        range.0 == min_voltage(channel as int),
        range.1 == max_voltage(channel as int),
        range.0 <= range.1,
{
    if channel == 3 {
        (CH4_MIN_VOLTAGE_MV, CH4_MAX_VOLTAGE_MV)
    } else {
        (CH5_MIN_VOLTAGE_MV, CH5_MAX_VOLTAGE_MV)
    }
}

} // verus!
