//! What the screens tell of the state.

use crate::app::{AppState, ChannelSnapshot, ControlFocus, Fault, OutputTransition, RegulationMode,
    TemperatureUnit};
use crate::view_projection::{
    channel_shown, contract_text, detail_shown, framed_damage, load_channel, row_damaged, segments,
    sink_shown, temperature_shown, value_damaged, FramedValueDamage, SinkPdStatus,
    StatusProjection, TemperatureProjection,
};
use crate::pd::Contract;
use crate::text::{ascii, decimal};
use vstd::prelude::*;

verus! {

/// True when `shown`, in hundredths, is what is left of `milli` thousandths
/// once the last digit is dropped.
pub open spec fn hundredths_of(shown: int, milli: int) -> bool {
    shown * 10 <= milli < shown * 10 + 10
}

/// A channel shows its setting, its limit and, where they are known, its
/// measured voltage and current in hundredths.
pub proof fn channels_show_hundredths(channel: ChannelSnapshot, focus: ControlFocus)
    ensures
        ({
            let row = channel_shown(channel);
            let detail = detail_shown(channel, focus);
            let measurement = channel.measurement;
            let power = measurement.millivolts * measurement.milliamps;
            &&& hundredths_of(row.setpoint_centivolts as int, channel.setpoint_mv as int)
            &&& hundredths_of(row.limit_centiamps as int, channel.current_limit_ma as int)
            &&& row.measured_centivolts is Some <==> measurement.valid
            &&& row.measured_centiamps is Some <==> measurement.valid
            &&& measurement.valid ==> {
                &&& hundredths_of(
                    row.measured_centivolts->Some_0 as int,
                    measurement.millivolts as int,
                )
                &&& hundredths_of(
                    row.measured_centiamps->Some_0 as int,
                    measurement.milliamps as int,
                )
            }
            &&& row.regulation_mode == channel.regulation_mode
            &&& row.regulating_current <==> channel.regulation_mode == RegulationMode::Cc
                && channel.physical_enabled && channel.drive_mv < channel.setpoint_mv
            &&& detail.voltage_centivolts == row.measured_centivolts
            &&& detail.current_centiamps == row.measured_centiamps
            &&& detail.setpoint_centivolts == row.setpoint_centivolts
            &&& detail.limit_centiamps == row.limit_centiamps
            &&& detail.status == row.status
            &&& detail.focus == focus
            &&& detail.regulation_mode == channel.regulation_mode
            &&& detail.regulating_current == row.regulating_current
            &&& detail.power_centiwatts is Some <==> measurement.valid
            &&& measurement.valid ==> detail.power_centiwatts->Some_0 * 10_000 <= power
                < detail.power_centiwatts->Some_0 * 10_000 + 10_000
        }),
{
    let measurement = channel.measurement;
    assert(0 <= measurement.millivolts * measurement.milliamps <= 0xffff * 0xffff)
        by (nonlinear_arith)
        requires
            0 <= measurement.millivolts <= 0xffff,
            0 <= measurement.milliamps <= 0xffff,
    ;
}

/// A fault hides everything else of a channel's status; a channel that is being
/// switched, or waits to be, says so; a channel at rest is on or off.
pub proof fn channels_show_their_status(channel: ChannelSnapshot)
    ensures
        ({
            let status = channel_shown(channel).status;
            let resting = channel.transition == OutputTransition::Stable;
            &&& channel.fault != Fault::Clear <==> status == StatusProjection::Fault
            &&& status == StatusProjection::On ==> channel.physical_enabled && resting
            &&& status == StatusProjection::Off ==> !channel.physical_enabled
                && !channel.requested_enabled && resting
            &&& channel.fault == Fault::Clear && !resting ==> status == StatusProjection::Wait
            &&& channel.fault == Fault::Clear && resting && channel.physical_enabled ==> status
                == StatusProjection::On
            &&& channel.fault == Fault::Clear && resting && !channel.physical_enabled
                && channel.requested_enabled ==> status == StatusProjection::Wait
        }),
{
}

/// The input shows its measurements and its limit in hundredths, and warns of a
/// fault or of a current above the limit.
pub proof fn the_input_shows_hundredths(state: AppState)
    ensures
        ({
            let shown = sink_shown(state);
            let power = state.sink.millivolts * state.sink.milliamps;
            &&& shown.voltage_centivolts is Some <==> state.sink.valid
            &&& shown.current_centiamps is Some <==> state.sink.valid
            &&& shown.power_centiwatts is Some <==> state.sink.valid
            &&& state.sink.valid ==> {
                &&& hundredths_of(
                    shown.voltage_centivolts->Some_0 as int,
                    state.sink.millivolts as int,
                )
                &&& hundredths_of(
                    shown.current_centiamps->Some_0 as int,
                    state.sink.milliamps as int,
                )
                &&& shown.power_centiwatts->Some_0 * 10_000 <= power
                    < shown.power_centiwatts->Some_0 * 10_000 + 10_000
            }
            &&& hundredths_of(shown.limit_centiamps as int, state.sink_current_limit_ma as int)
            &&& shown.focused <==> state.focus == ControlFocus::CurrentLimit
            &&& state.sink_fault != Fault::Clear ==> shown.over_limit
            &&& state.sink.valid && state.sink.milliamps > state.sink_current_limit_ma
                ==> shown.over_limit
            &&& shown.over_limit && state.sink_fault == Fault::Clear ==> state.sink.valid
                && state.sink.milliamps > state.sink_current_limit_ma
        }),
{
    assert(0 <= state.sink.millivolts * state.sink.milliamps <= 0xffff * 0xffff)
        by (nonlinear_arith)
        requires
            0 <= state.sink.millivolts <= 0xffff,
            0 <= state.sink.milliamps <= 0xffff,
    ;
}

/// The input shows a fault before a contract, a contract before an error, and an
/// error before a negotiation under way.
pub proof fn the_input_shows_its_status(state: AppState)
    ensures
        ({
            let status = sink_shown(state).pd_status;
            let clear = state.sink_fault == Fault::Clear;
            let open = clear && state.pd_contract is None;
            &&& !clear ==> status == SinkPdStatus::Fault(state.sink_fault)
            &&& clear && state.pd_contract is Some ==> status == SinkPdStatus::Ready(
                state.pd_contract->Some_0,
            )
            &&& open && state.pd_error is Some ==> status == SinkPdStatus::Error(
                state.pd_error->Some_0,
            )
            &&& open && state.pd_error is None && state.pd_negotiating ==> status
                == SinkPdStatus::Negotiating
            &&& open && state.pd_error is None && !state.pd_negotiating ==> status
                == SinkPdStatus::Idle
        }),
{
}

/// The temperature is shown in tenths of its unit, rounded towards zero; no
/// temperature is shown where none is known.
pub proof fn the_temperature_shows_tenths(state: AppState)
    ensures
        !state.temp_valid <==> temperature_shown(state) == TemperatureProjection::Invalid,
        state.temp_valid && state.temperature_unit == TemperatureUnit::Celsius
            && state.temp_sixteenths_c >= 0 ==> (temperature_shown(state)
            matches TemperatureProjection::Tenths(tenths, unit) && {
            &&& unit == TemperatureUnit::Celsius
            &&& tenths * 16 <= state.temp_sixteenths_c * 10 < tenths * 16 + 16
        }),
        state.temp_valid && state.temperature_unit == TemperatureUnit::Celsius
            && state.temp_sixteenths_c < 0 ==> (temperature_shown(state)
            matches TemperatureProjection::Tenths(tenths, unit) && {
            &&& unit == TemperatureUnit::Celsius
            &&& tenths * 16 - 16 < state.temp_sixteenths_c * 10 <= tenths * 16
        }),
        state.temp_valid && state.temperature_unit == TemperatureUnit::Fahrenheit ==> (
        temperature_shown(state) matches TemperatureProjection::Tenths(tenths, unit) && {
            &&& unit == TemperatureUnit::Fahrenheit
            &&& -230 < (tenths - 320) * 80 - state.temp_sixteenths_c * 90 < 230
        }),
{
}

/// A contract is named by its object, its whole volts and its amperes with one
/// digit.
pub proof fn contracts_are_named(contract: Contract, volts: nat, amperes: nat, tenths: nat)
    requires
        volts * 1_000 <= contract.millivolts < volts * 1_000 + 1_000,
        tenths < 10,
        amperes * 1_000 + tenths * 100 <= contract.operating_milliamps < amperes * 1_000 + tenths
            * 100 + 100,
    ensures
        contract_text(contract) == ascii("P"@) + decimal(contract.source_position as nat) + ascii(
            " "@,
        ) + decimal(volts) + ascii("V "@) + decimal(amperes) + ascii("."@) + decimal(tenths)
            + ascii("A"@),
{
}

/// A framed value is redrawn as a whole where its focus changes, else where it
/// changed itself.
pub proof fn framed_values_are_redrawn(old_value: u16, new_value: u16, was: bool, is_now: bool)
    ensures
        was != is_now <==> framed_damage(old_value, new_value, was, is_now)
            == FramedValueDamage::Frame,
        was == is_now && old_value == new_value <==> framed_damage(
            old_value,
            new_value,
            was,
            is_now,
        ) == FramedValueDamage::Unchanged,
{
}

/// On the waveform screen the rows that gained or lost the selection are
/// redrawn, and of the others those whose value changed.
pub proof fn changed_rows_are_redrawn(before: AppState, after: AppState, row: u8)
    ensures
        before.menu_selection != after.menu_selection && row == before.menu_selection
            ==> row_damaged(before, after, row),
        before.menu_selection != after.menu_selection && row == after.menu_selection
            ==> row_damaged(before, after, row),
        before.awg_editing != after.awg_editing && row == after.menu_selection ==> row_damaged(
            before,
            after,
            row,
        ),
        before.menu_selection == after.menu_selection && before.awg_editing == after.awg_editing
            ==> !row_damaged(before, after, row),
        row != before.menu_selection && row != after.menu_selection ==> !row_damaged(
            before,
            after,
            row,
        ),
        before.awg.channel != after.awg.channel ==> value_damaged(before, after, 0),
        before.awg.waveform != after.awg.waveform ==> value_damaged(before, after, 1)
            && value_damaged(before, after, 3),
        before.awg.frequency_millihz != after.awg.frequency_millihz ==> value_damaged(
            before,
            after,
            2,
        ),
        before.awg.duty_percent != after.awg.duty_percent ==> value_damaged(before, after, 3),
        before.awg.low_mv != after.awg.low_mv ==> value_damaged(before, after, 4),
        before.awg.high_mv != after.awg.high_mv ==> value_damaged(before, after, 5),
        before.awg_status != after.awg_status ==> value_damaged(before, after, 6),
        before.awg == after.awg && before.awg_status == after.awg_status ==> !value_damaged(
            before,
            after,
            row,
        ),
{
}

/// The load belongs to the channel that a running waveform drives, else to the
/// channel that is set for the next one.
pub proof fn loads_belong_to_the_driven_channel(state: AppState)
    ensures
        state.awg_status is Running ==> load_channel(state) == state.awg_channel(),
        !(state.awg_status is Running) ==> load_channel(state) == state.awg.channel,
{
}

/// What a segment display lights for a digit: counted from the top, bit 0 is the
/// top bar, 1 and 2 the upper left and right ones, 3 the middle, 4 and 5 the
/// lower left and right ones, 6 the bottom. Each digit lights the bars that its
/// shape has.
pub proof fn digits_light_their_bars(digit: char, bar: u8)
    requires
        '0' <= digit <= '9',
        bar < 7,
    ensures
        ({
            let value = (digit as u32 - 48) as u32;
            let dark = match value {
                0 => bar == 3,
                1 => bar != 2 && bar != 5,
                2 => bar == 1 || bar == 5,
                3 => bar == 1 || bar == 4,
                4 => bar == 0 || bar == 4 || bar == 6,
                5 => bar == 2 || bar == 4,
                6 => bar == 2,
                7 => bar != 0 && bar != 2 && bar != 5,
                8 => false,
                _ => bar == 4,
            };
            segments(digit) matches Some(mask) && (mask & (1u8 << bar) != 0 <==> !dark)
        }),
{
    let bars = seq![0b111_0111u8, 0b010_0100, 0b101_1101, 0b110_1101, 0b010_1110, 0b110_1011,
        0b111_1011, 0b010_0101, 0b111_1111, 0b110_1111];
    let value = (digit as u32 - 48) as int;
    assert(segments(digit) == Some(bars[value]));
    assert((0b111_0111u8 & (1u8 << bar) != 0 <==> bar != 3) && (0b010_0100u8 & (1u8 << bar) != 0
        <==> bar == 2 || bar == 5) && (0b101_1101u8 & (1u8 << bar) != 0 <==> bar != 1 && bar != 5)
        && (0b110_1101u8 & (1u8 << bar) != 0 <==> bar != 1 && bar != 4) && (0b010_1110u8 & (1u8
        << bar) != 0 <==> bar != 0 && bar != 4 && bar != 6) && (0b110_1011u8 & (1u8 << bar) != 0
        <==> bar != 2 && bar != 4) && (0b111_1011u8 & (1u8 << bar) != 0 <==> bar != 2) && (
    0b010_0101u8 & (1u8 << bar) != 0 <==> bar == 0 || bar == 2 || bar == 5) && (0b111_1111u8 & (1u8
        << bar) != 0) && (0b110_1111u8 & (1u8 << bar) != 0 <==> bar != 4)) by (bit_vector)
        requires
            bar < 7,
    ;
}

} // verus!
