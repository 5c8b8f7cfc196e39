//! What the screens show, computed from the application state.

use crate::app::{
    AppState, AwgStatus, ChannelSnapshot, ControlFocus, Fault, OutputTransition, RegulationMode,
    TemperatureUnit,
};
use crate::pd::{Contract, PdError};
use crate::text::{
    append, append_decimal, ascii, decimal, decimal_length,
};
use vstd::prelude::*;

verus! {

/// Places an item in the middle of a container.
pub fn centered_origin(container_origin: i32, container_size: u32, item_size: u32) -> (origin: i32)
    requires
        item_size <= container_size,
        container_origin + (container_size - item_size) / 2 <= i32::MAX,
    ensures
        origin == container_origin + (container_size - item_size) / 2,
{
    container_origin + ((container_size - item_size) / 2) as i32
}

/// The segments of each digit: top, upper left, upper right, middle, lower
/// left, lower right, bottom, from the lowest bit up.
pub const DIGIT_SEGMENTS: [u8; 10] = [
    0b111_0111, 0b010_0100, 0b101_1101, 0b110_1101, 0b010_1110, 0b110_1011, 0b111_1011, 0b010_0101,
    0b111_1111, 0b110_1111,
];

/// The segments that show a character.
pub open spec fn segments(character: char) -> Option<u8> {
    if '0' <= character <= '9' {
        Some(DIGIT_SEGMENTS[character as u32 - 48])
    } else if character == '-' {
        Some(8)
    } else {
        None
    }
}

/// The segments that show a character, if a seven-segment display can.
pub fn seven_segment_mask(character: char) -> (mask: Option<u8>)
    ensures
        mask == segments(character),
{
    if character >= '0' && character <= '9' {
        Some(DIGIT_SEGMENTS[(character as u32 - 48) as usize])
    } else if character == '-' {
        Some(8)
    } else {
        None
    }
}

/// No two of the shown characters look the same.
pub proof fn segments_tell_characters_apart(left: char, right: char)
    requires
        segments(left) is Some,
        segments(right) is Some,
        segments(left) == segments(right),
    ensures
        left == right,
{
}

/// How much of a framed value must be painted again.
#[derive(Clone, Copy, Debug, PartialEq, Eq, Structural)]
pub enum FramedValueDamage {
    Unchanged,
    Value,
    Frame,
}

/// A change of focus repaints the frame; a change of value its interior only.
pub open spec fn framed_damage(
    old_value: u16,
    new_value: u16,
    old_focused: bool,
    new_focused: bool,
) -> FramedValueDamage {
    if old_focused != new_focused {
        FramedValueDamage::Frame
    } else if old_value != new_value {
        FramedValueDamage::Value
    } else {
        FramedValueDamage::Unchanged
    }
}

pub fn framed_value_damage(
    old_value: u16,
    new_value: u16,
    old_focused: bool,
    new_focused: bool,
) -> (damage: FramedValueDamage)
    ensures
        damage == framed_damage(old_value, new_value, old_focused, new_focused),
{
    if old_focused != new_focused {
        FramedValueDamage::Frame
    } else if old_value != new_value {
        FramedValueDamage::Value
    } else {
        FramedValueDamage::Unchanged
    }
}

#[derive(Clone, Copy, Debug, PartialEq, Eq, Structural)]
pub enum SinkPdStatus {
    Idle,
    Negotiating,
    Ready(Contract),
    Error(PdError),
    Fault(Fault),
}

/// `heapless::String`, the fixed-capacity string.
#[verifier::external_type_specification]
#[verifier::external_body]
pub struct ExString<const N: usize>(heapless::String<N>);

/// The bytes of a label.
pub uninterp spec fn label_bytes(label: heapless::String<16>) -> Seq<u8>;

/// `heapless::String::new`: a new label is empty.
#[verifier::external_body]
fn label_new() -> (label: heapless::String<16>)
    ensures
        label_bytes(label) == Seq::<u8>::empty(),
{
    heapless::String::new()
}

/// `heapless::String::push`: appends a character unless the label is full. The
/// byte of an ASCII character is the character's own number.
#[verifier::external_body]
fn label_push(label: &mut heapless::String<16>, byte: u8) -> (pushed: bool)
    requires
        byte < 128,
    ensures
        pushed == (label_bytes(*old(label)).len() < 16),
        label_bytes(*final(label)) == (if pushed {
            label_bytes(*old(label)).push(byte)
        } else {
            label_bytes(*old(label))
        }),
{
    label.push(char::from(byte)).is_ok()
}

/// The compact text of a contract: source position, volts, and amps with one
/// decimal.
pub open spec fn contract_text(contract: Contract) -> Seq<u8> {
    ascii("P"@) + decimal(contract.source_position as nat) + ascii(" "@) + decimal(
        (contract.millivolts / 1_000) as nat,
    ) + ascii("V "@) + decimal((contract.operating_milliamps / 1_000) as nat) + ascii("."@)
        + decimal((contract.operating_milliamps % 1_000 / 100) as nat) + ascii("A"@)
}

/// A contract's text always fits its label, and is ASCII.
pub proof fn contract_text_fits(contract: Contract)
    ensures
        contract_text(contract).len() <= 16,
        forall|i: int|
            0 <= i < contract_text(contract).len() ==> #[trigger] contract_text(contract)[i] < 128,
{
    reveal_strlit("P");
    reveal_strlit(" ");
    reveal_strlit("V ");
    reveal_strlit(".");
    reveal_strlit("A");
    reveal_with_fuel(vstd::arithmetic::power::pow, 4);
    decimal_length(contract.source_position as nat, 3, 1_000);
    decimal_length((contract.millivolts / 1_000) as nat, 2, 100);
    decimal_length((contract.operating_milliamps / 1_000) as nat, 2, 100);
    decimal_length((contract.operating_milliamps % 1_000 / 100) as nat, 1, 10);
    crate::text::decimal_reads_back(contract.source_position as nat);
    crate::text::decimal_reads_back((contract.millivolts / 1_000) as nat);
    crate::text::decimal_reads_back((contract.operating_milliamps / 1_000) as nat);
    crate::text::decimal_reads_back((contract.operating_milliamps % 1_000 / 100) as nat);
}

/// The compact label of a contract.
pub fn pd_contract_label(contract: Contract) -> (label: heapless::String<16>)
    ensures
        label_bytes(label) == contract_text(contract),
{
    let mut text: Vec<u8> = Vec::new();
    append(&mut text, "P");
    assert(text@ =~= ascii("P"@));
    append_decimal(&mut text, contract.source_position as u32);
    append(&mut text, " ");
    append_decimal(&mut text, (contract.millivolts / 1_000) as u32);
    append(&mut text, "V ");
    append_decimal(&mut text, (contract.operating_milliamps / 1_000) as u32);
    append(&mut text, ".");
    append_decimal(&mut text, (contract.operating_milliamps % 1_000 / 100) as u32);
    append(&mut text, "A");
    proof {
        contract_text_fits(contract);
    }
    let mut label = label_new();
    let mut index: usize = 0;
    assert(text@.take(0) =~= Seq::<u8>::empty());
    while index < text.len()
        invariant
            index <= text@.len() <= 16,
            forall|i: int| 0 <= i < text@.len() ==> #[trigger] text@[i] < 128,
            label_bytes(label) == text@.take(index as int),
        decreases text@.len() - index,
    {
        let _ = label_push(&mut label, text[index]);
        assert(text@.take(index as int).push(text@[index as int]) =~= text@.take(index + 1));
        index = index + 1;
    }
    assert(text@.take(index as int) =~= text@);
    label
}

#[derive(Clone, Copy, Debug, PartialEq, Eq, Structural)]
pub struct SinkProjection {
    pub voltage_centivolts: Option<u16>,
    pub current_centiamps: Option<u16>,
    pub power_centiwatts: Option<u32>,
    pub limit_centiamps: u16,
    pub focused: bool,
    pub over_limit: bool,
    pub pd_status: SinkPdStatus,
}

/// `value`, where it was measured.
pub open spec fn measured<T>(valid: bool, value: T) -> Option<T> {
    if valid {
        Some(value)
    } else {
        None
    }
}

/// Power in hundredths of a watt.
pub open spec fn centiwatts(millivolts: u16, milliamps: u16) -> u32 {
    (millivolts * milliamps / 10_000) as u32
}

fn power_of(millivolts: u16, milliamps: u16) -> (power: u32)
    ensures
        power == centiwatts(millivolts, milliamps),
{
    assert(0 <= millivolts * milliamps <= 0xffff * 0xffff) by (nonlinear_arith)
        requires
            0 <= millivolts <= 0xffff,
            0 <= milliamps <= 0xffff,
    ;
    millivolts as u32 * milliamps as u32 / 10_000
}

/// The input's status: a latched fault hides a contract, a contract hides an
/// error, an error hides a negotiation.
pub open spec fn sink_status(state: AppState) -> SinkPdStatus {
    if state.sink_fault != Fault::Clear {
        SinkPdStatus::Fault(state.sink_fault)
    } else if let Some(contract) = state.pd_contract {
        SinkPdStatus::Ready(contract)
    } else if let Some(error) = state.pd_error {
        SinkPdStatus::Error(error)
    } else if state.pd_negotiating {
        SinkPdStatus::Negotiating
    } else {
        SinkPdStatus::Idle
    }
}

/// What the input screen shows.
pub open spec fn sink_shown(state: AppState) -> SinkProjection {
    SinkProjection {
        voltage_centivolts: measured(state.sink.valid, (state.sink.millivolts / 10) as u16),
        current_centiamps: measured(state.sink.valid, (state.sink.milliamps / 10) as u16),
        power_centiwatts: measured(
            state.sink.valid,
            centiwatts(state.sink.millivolts, state.sink.milliamps),
        ),
        limit_centiamps: (state.sink_current_limit_ma / 10) as u16,
        focused: state.focus == ControlFocus::CurrentLimit,
        over_limit: state.sink_fault != Fault::Clear || (state.sink.valid && state.sink.milliamps
            > state.sink_current_limit_ma),
        pd_status: sink_status(state),
    }
}

fn sink_status_of(state: &AppState) -> (status: SinkPdStatus)
    ensures
        status == sink_status(*state),
{
    if state.sink_fault != Fault::Clear {
        return SinkPdStatus::Fault(state.sink_fault);
    }
    if let Some(contract) = state.pd_contract {
        return SinkPdStatus::Ready(contract);
    }
    if let Some(error) = state.pd_error {
        return SinkPdStatus::Error(error);
    }
    if state.pd_negotiating {
        SinkPdStatus::Negotiating
    } else {
        SinkPdStatus::Idle
    }
}

pub fn sink_projection(state: &AppState) -> (projection: SinkProjection)
    ensures
        projection == sink_shown(*state),
{
    let sink = state.sink;
    SinkProjection {
        voltage_centivolts: if sink.valid {
            Some(sink.millivolts / 10)
        } else {
            None
        },
        current_centiamps: if sink.valid {
            Some(sink.milliamps / 10)
        } else {
            None
        },
        power_centiwatts: if sink.valid {
            Some(power_of(sink.millivolts, sink.milliamps))
        } else {
            None
        },
        limit_centiamps: state.sink_current_limit_ma / 10,
        focused: state.focus == ControlFocus::CurrentLimit,
        over_limit: state.sink_fault != Fault::Clear || (sink.valid && sink.milliamps
            > state.sink_current_limit_ma),
        pd_status: sink_status_of(state),
    }
}

/// What must be painted again on the waveform screen: rows and values as bit
/// masks, and the parts of the load panel.
#[derive(Clone, Copy, Debug, PartialEq, Eq, Structural)]
pub struct AwgDamage {
    pub rows: u8,
    pub values: u8,
    pub load_heading: bool,
    pub load_current: bool,
    pub load_power: bool,
}

impl Default for AwgDamage {
    fn default() -> (damage: Self)
        ensures
            damage == (AwgDamage {
                rows: 0,
                values: 0,
                load_heading: false,
                load_current: false,
                load_power: false,
            }),
    {
        AwgDamage {
            rows: 0,
            values: 0,
            load_heading: false,
            load_current: false,
            load_power: false,
        }
    }
}

/// The channel whose load is shown.
pub open spec fn load_channel(state: AppState) -> u8 {
    if state.awg_status is Running {
        state.awg_channel()
    } else {
        state.awg.channel
    }
}

fn load_channel_projection(state: &AppState) -> (channel: u8)
    ensures
        channel == load_channel(*state),
{
    if state.awg_status == AwgStatus::Running {
        state.active_awg_channel()
    } else {
        state.awg.channel
    }
}

/// One-based channel number shown in the AWG "CHn LOAD" heading. Shared by
/// the damage computation and the painter so they cannot drift.
pub fn load_channel_number(state: &AppState) -> (number: u8)
    requires
        load_channel(*state) < 255,
    ensures
        number == load_channel(*state) + 1,
{
    load_channel_projection(state) + 1
}

/// True when bit `bit` of a mask is set.
pub open spec fn marked(mask: u8, bit: u8) -> bool {
    mask & (1u8 << bit) != 0
}

/// True when row `row` must be painted again: its selection changed, or its
/// edit mode did.
pub open spec fn row_damaged(old: AppState, new: AppState, row: u8) -> bool {
    ||| old.menu_selection != new.menu_selection && (row == old.menu_selection || row
        == new.menu_selection)
    ||| old.awg_editing != new.awg_editing && row == new.menu_selection
}

/// True when the value in row `row` changed. Whether a duty share applies
/// depends on the waveform.
pub open spec fn value_damaged(old: AppState, new: AppState, row: u8) -> bool {
    match row {
        0 => old.awg.channel != new.awg.channel,
        1 => old.awg.waveform != new.awg.waveform,
        2 => old.awg.frequency_millihz != new.awg.frequency_millihz,
        3 => old.awg.waveform != new.awg.waveform || old.awg.duty_percent != new.awg.duty_percent,
        4 => old.awg.low_mv != new.awg.low_mv,
        5 => old.awg.high_mv != new.awg.high_mv,
        6 => old.awg_status != new.awg_status,
        _ => false,
    }
}

fn mark(mask: u8, bit: u8) -> (next: u8)
    requires
        bit < 8,
    ensures
        forall|other: u8|
            other < 8 ==> (#[trigger] marked(next, other) == (marked(mask, other) || other == bit)),
{
    let next: u8 = mask | (1u8 << bit);
    assert forall|other: u8| other < 8 implies (#[trigger] marked(next, other) == (marked(
        mask,
        other,
    ) || other == bit)) by {
        assert(((mask | (1u8 << bit)) & (1u8 << other) != 0) == (mask & (1u8 << other) != 0
            || other == bit)) by (bit_vector)
            requires
                bit < 8,
                other < 8,
        ;
    }
    next
}

fn mark_if(mask: u8, bit: u8, damaged: bool) -> (next: u8)
    requires
        bit < 8,
    ensures
        forall|other: u8|
            other < 8 ==> (#[trigger] marked(next, other) == (marked(mask, other) || (damaged
                && other == bit))),
{
    if damaged {
        mark(mask, bit)
    } else {
        mask
    }
}

/// Damage of the waveform screen. Every damaged region has a single owner: a
/// value inside a damaged row is painted with the row.
pub fn awg_damage(old: &AppState, new: &AppState) -> (damage: AwgDamage)
    requires
        old.menu_selection < 8,
        new.menu_selection < 8,
    ensures
        forall|row: u8| row < 8 ==> (#[trigger] marked(damage.rows, row)) == row_damaged(
            *old,
            *new,
            row,
        ),
        forall|row: u8|
            row < 8 ==> (#[trigger] marked(damage.values, row)) == (value_damaged(*old, *new, row)
                && !row_damaged(*old, *new, row)),
        damage.load_heading == (load_channel(*old) != load_channel(*new)),
        damage.load_current == (old.awg_load.valid != new.awg_load.valid
            || old.awg_load.milliamps_rms != new.awg_load.milliamps_rms),
        damage.load_power == (old.awg_load.valid != new.awg_load.valid
            || old.awg_load.milliwatts_average / 10 != new.awg_load.milliwatts_average / 10),
{
    let mut rows: u8 = 0;
    assert forall|row: u8| row < 8 implies !(#[trigger] marked(0, row)) by {
        assert(0u8 & (1u8 << row) == 0) by (bit_vector);
    }
    if old.menu_selection != new.menu_selection {
        rows = mark(rows, old.menu_selection);
        rows = mark(rows, new.menu_selection);
    }
    rows = mark_if(rows, new.menu_selection, old.awg_editing != new.awg_editing);
    let waveform: bool = old.awg.waveform != new.awg.waveform;
    let mut values: u8 = mark_if(0, 0, old.awg.channel != new.awg.channel);
    values = mark_if(values, 1, waveform);
    values = mark_if(values, 2, old.awg.frequency_millihz != new.awg.frequency_millihz);
    values = mark_if(values, 3, waveform || old.awg.duty_percent != new.awg.duty_percent);
    values = mark_if(values, 4, old.awg.low_mv != new.awg.low_mv);
    values = mark_if(values, 5, old.awg.high_mv != new.awg.high_mv);
    values = mark_if(values, 6, old.awg_status != new.awg_status);
    let alone: u8 = values & !rows;
    assert forall|row: u8| row < 8 implies (#[trigger] marked(alone, row)) == (marked(values, row)
        && !marked(rows, row)) by {
        assert(((values & !rows) & (1u8 << row) != 0) == (values & (1u8 << row) != 0 && rows & (
        1u8 << row) == 0)) by (bit_vector)
            requires
                row < 8,
        ;
    }
    AwgDamage {
        rows,
        values: alone,
        load_heading: load_channel_projection(old) != load_channel_projection(new),
        load_current: old.awg_load.valid != new.awg_load.valid || old.awg_load.milliamps_rms
            != new.awg_load.milliamps_rms,
        load_power: old.awg_load.valid != new.awg_load.valid || old.awg_load.milliwatts_average / 10
            != new.awg_load.milliwatts_average / 10,
    }
}

#[derive(Clone, Copy, Debug, PartialEq, Eq, Structural)]
pub enum TemperatureProjection {
    Invalid,
    Tenths(i32, TemperatureUnit),
}

/// Division that rounds toward zero.
pub open spec fn divided(value: int, by: int) -> int {
    if value < 0 {
        -((-value) / by)
    } else {
        value / by
    }
}

/// The temperature as it is shown.
pub open spec fn temperature_shown(state: AppState) -> TemperatureProjection {
    let tenths = divided(state.temp_sixteenths_c * 10, 16);
    if !state.temp_valid {
        TemperatureProjection::Invalid
    } else {
        match state.temperature_unit {
            TemperatureUnit::Celsius => TemperatureProjection::Tenths(
                tenths as i32,
                TemperatureUnit::Celsius,
            ),
            TemperatureUnit::Fahrenheit => TemperatureProjection::Tenths(
                (divided(tenths * 9, 5) + 320) as i32,
                TemperatureUnit::Fahrenheit,
            ),
        }
    }
}

fn divide(value: i32, by: u32) -> (quotient: i32)
    requires
        by > 0,
        -1_000_000 <= value <= 1_000_000,
    ensures
        quotient == divided(value as int, by as int),
        -1_000_000 <= quotient <= 1_000_000,
{
    let magnitude: u32 = if value < 0 {
        (-value) as u32
    } else {
        value as u32
    };
    let quotient: u32 = magnitude / by;
    assert(quotient <= magnitude) by (nonlinear_arith)
        requires
            quotient == magnitude / by,
            by > 0,
    ;
    if value < 0 {
        -(quotient as i32)
    } else {
        quotient as i32
    }
}

pub fn temperature_projection(state: &AppState) -> (projection: TemperatureProjection)
    ensures
        projection == temperature_shown(*state),
{
    if !state.temp_valid {
        return TemperatureProjection::Invalid;
    }
    let tenths: i32 = divide(state.temp_sixteenths_c as i32 * 10, 16);
    match state.temperature_unit {
        TemperatureUnit::Celsius => TemperatureProjection::Tenths(
            tenths,
            TemperatureUnit::Celsius,
        ),
        TemperatureUnit::Fahrenheit => TemperatureProjection::Tenths(
            divide(tenths * 9, 5) + 320,
            TemperatureUnit::Fahrenheit,
        ),
    }
}

#[derive(Clone, Copy, Debug, PartialEq, Eq, Structural)]
pub enum StatusProjection {
    Fault,
    On,
    Wait,
    Off,
}

#[derive(Clone, Copy, Debug, PartialEq, Eq, Structural)]
pub struct ChannelProjection {
    pub setpoint_centivolts: u16,
    pub limit_centiamps: u16,
    pub measured_centivolts: Option<u16>,
    pub measured_centiamps: Option<u16>,
    pub status: StatusProjection,
    pub regulation_mode: RegulationMode,
    pub regulating_current: bool,
}

/// The status of a channel: a fault hides a wait, a wait hides on and off.
pub open spec fn channel_status(channel: ChannelSnapshot) -> StatusProjection {
    if channel.fault != Fault::Clear {
        StatusProjection::Fault
    } else if channel.transition != OutputTransition::Stable {
        StatusProjection::Wait
    } else if channel.physical_enabled {
        StatusProjection::On
    } else if channel.requested_enabled {
        StatusProjection::Wait
    } else {
        StatusProjection::Off
    }
}

/// What the overview shows of a channel.
pub open spec fn channel_shown(channel: ChannelSnapshot) -> ChannelProjection {
    ChannelProjection {
        setpoint_centivolts: (channel.setpoint_mv / 10) as u16,
        limit_centiamps: (channel.current_limit_ma / 10) as u16,
        measured_centivolts: measured(
            channel.measurement.valid,
            (channel.measurement.millivolts / 10) as u16,
        ),
        measured_centiamps: measured(
            channel.measurement.valid,
            (channel.measurement.milliamps / 10) as u16,
        ),
        status: channel_status(channel),
        regulation_mode: channel.regulation_mode,
        regulating_current: channel.regulation_mode == RegulationMode::Cc
            && channel.physical_enabled && channel.drive_mv < channel.setpoint_mv,
    }
}

pub fn channel_projection(channel: &ChannelSnapshot) -> (projection: ChannelProjection)
    ensures
        projection == channel_shown(*channel),
{
    let status = if channel.fault != Fault::Clear {
        StatusProjection::Fault
    } else if channel.transition != OutputTransition::Stable {
        StatusProjection::Wait
    } else if channel.physical_enabled {
        StatusProjection::On
    } else if channel.requested_enabled {
        StatusProjection::Wait
    } else {
        StatusProjection::Off
    };
    ChannelProjection {
        setpoint_centivolts: channel.setpoint_mv / 10,
        limit_centiamps: channel.current_limit_ma / 10,
        measured_centivolts: if channel.measurement.valid {
            Some(channel.measurement.millivolts / 10)
        } else {
            None
        },
        measured_centiamps: if channel.measurement.valid {
            Some(channel.measurement.milliamps / 10)
        } else {
            None
        },
        status,
        regulation_mode: channel.regulation_mode,
        regulating_current: channel.regulation_mode == RegulationMode::Cc
            && channel.physical_enabled && channel.drive_mv < channel.setpoint_mv,
    }
}

#[derive(Clone, Copy, Debug, PartialEq, Eq, Structural)]
pub struct DetailProjection {
    pub voltage_centivolts: Option<u16>,
    pub current_centiamps: Option<u16>,
    pub power_centiwatts: Option<u32>,
    pub setpoint_centivolts: u16,
    pub limit_centiamps: u16,
    pub status: StatusProjection,
    pub focus: ControlFocus,
    pub regulation_mode: RegulationMode,
    pub regulating_current: bool,
}

/// What the detail screen shows of a channel.
pub open spec fn detail_shown(channel: ChannelSnapshot, focus: ControlFocus) -> DetailProjection {
    let row = channel_shown(channel);
    DetailProjection {
        voltage_centivolts: row.measured_centivolts,
        current_centiamps: row.measured_centiamps,
        power_centiwatts: measured(
            channel.measurement.valid,
            centiwatts(channel.measurement.millivolts, channel.measurement.milliamps),
        ),
        setpoint_centivolts: row.setpoint_centivolts,
        limit_centiamps: row.limit_centiamps,
        status: row.status,
        focus,
        regulation_mode: channel.regulation_mode,
        regulating_current: row.regulating_current,
    }
}

pub fn detail_projection(channel: &ChannelSnapshot, focus: ControlFocus) -> (projection:
    DetailProjection)
    ensures
        projection == detail_shown(*channel, focus),
{
    let row = channel_projection(channel);
    DetailProjection {
        voltage_centivolts: row.measured_centivolts,
        current_centiamps: row.measured_centiamps,
        power_centiwatts: if channel.measurement.valid {
            Some(power_of(channel.measurement.millivolts, channel.measurement.milliamps))
        } else {
            None
        },
        setpoint_centivolts: row.setpoint_centivolts,
        limit_centiamps: row.limit_centiamps,
        status: row.status,
        focus,
        regulation_mode: channel.regulation_mode,
        regulating_current: row.regulating_current,
    }
}

} // verus!
