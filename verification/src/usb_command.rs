//! Compatibility queries and mutations of the USB command set.

use crate::app::{AppState, AwgSource, AwgStatus, Measurement, RegulationMode};
use crate::arb::{DataChunk as ArbDataChunk, Start as ArbStart};
use crate::limits::{max_voltage, min_voltage, voltage_range};
use crate::protocol::{milliunits, parse_milliunits};
use crate::text::{
    after_text, append, append_fixed1, append_fixed2, append_fixed3, ascii, begins, decimal_length,
    fixed1, fixed2, fixed3, is_text, padded_length, rest,
};
use vstd::prelude::*;

verus! {

pub const RESPONSE_CAPACITY: usize = 192;

/// A reply of bounded length.
#[derive(Clone, Copy, Debug, PartialEq, Eq)]
pub struct Response {
    pub bytes: [u8; RESPONSE_CAPACITY],
    pub len: u16,
}

/// What a command asks the application to do.
#[derive(Clone, Copy, Debug, PartialEq, Eq)]
pub enum UsbIntent {
    NoAction,
    JumpToBootloader,
    Reboot,
    SetOutput { channel: u8, enabled: bool },
    SetVoltage { channel: u8, millivolts: u16 },
    SetCurrentLimit { channel: u8, milliamps: u16 },
    SetRegulationMode { channel: u8, mode: RegulationMode },
    SetSinkCurrentLimit(u16),
    ArbData(ArbDataChunk),
    ArbStart(ArbStart),
    ArbStop(u8),
}

#[derive(Clone, Copy, Debug, PartialEq, Eq, Structural)]
pub enum CommandError {
    Syntax,
    Range,
}

impl Response {
    pub open spec fn wf(self) -> bool {
        self.len <= RESPONSE_CAPACITY
    }

    /// The text of the reply.
    pub open spec fn text(self) -> Seq<u8> {
        self.bytes@.take(self.len as int)
    }

    pub fn as_bytes(&self) -> (bytes: &[u8])
        requires
            self.wf(),
        ensures
            bytes@ == self.text(),
    {
        vstd::slice::slice_subrange(self.bytes.as_slice(), 0, self.len as usize)
    }

    /// The reply that holds `text`, where it fits.
    pub fn holding(text: &Vec<u8>) -> (response: Option<Response>)
        ensures
            response is Some <==> text@.len() <= RESPONSE_CAPACITY,
            response matches Some(found) ==> found.wf() && found.text() == text@,
    {
        if text.len() > RESPONSE_CAPACITY {
            return None;
        }
        let mut bytes: [u8; RESPONSE_CAPACITY] = [0;RESPONSE_CAPACITY];
        let mut index: usize = 0;
        while index < text.len()
            invariant
                index <= text@.len() <= RESPONSE_CAPACITY,
                forall|i: int| 0 <= i < index ==> #[trigger] bytes@[i] == text@[i],
            decreases text@.len() - index,
        {
            bytes[index] = text[index];
            index = index + 1;
        }
        let response = Response { bytes, len: text.len() as u16 };
        assert(response.text() =~= text@);
        Some(response)
    }
}

/// A voltage in hundredths of a volt, rounded, or `nan`.
pub open spec fn voltage_text(measurement: Measurement) -> Seq<u8> {
    if measurement.valid {
        fixed2(((measurement.millivolts + 5) / 10) as nat)
    } else {
        ascii("nan"@)
    }
}

/// A current in milliamps, or `nan`.
pub open spec fn current_text(measurement: Measurement) -> Seq<u8> {
    if measurement.valid {
        fixed3(measurement.milliamps as nat)
    } else {
        ascii("nan"@)
    }
}

/// The magnitude of a temperature in tenths of a degree, rounded toward zero.
pub open spec fn temperature_tenths(sixteenths: i16) -> nat {
    if sixteenths < 0 {
        (-sixteenths * 10 / 16) as nat
    } else {
        (sixteenths * 10 / 16) as nat
    }
}

/// The temperature in tenths of a degree, or `nan`.
pub open spec fn temperature_text(state: AppState) -> Seq<u8> {
    let tenths = temperature_tenths(state.temp_sixteenths_c);
    if !state.temp_valid {
        ascii("nan"@)
    } else if state.temp_sixteenths_c < 0 && tenths > 0 {
        ascii("-"@) + fixed1(tenths)
    } else {
        fixed1(tenths)
    }
}

/// True when an uploaded waveform is in progress on `channel`.
pub open spec fn arbitrary_active(state: AppState, channel: u8) -> bool {
    state.awg_source == AwgSource::Arbitrary && state.awg_channel() == channel && !(
    state.awg_status is Stopped || state.awg_status is Fault)
}

/// `1` or `0`.
pub open spec fn flag_text(flag: bool) -> Seq<u8> {
    if flag {
        ascii("1"@)
    } else {
        ascii("0"@)
    }
}

/// Hundredths of a unit, rounded from thousandths.
pub open spec fn rounded(thousandths: u16) -> nat {
    ((thousandths + 5) / 10) as nat
}

/// Voltage and current of the first `count` channels, each with a comma after
/// it.
pub open spec fn measured_fields(state: AppState, count: nat) -> Seq<u8>
    decreases count,
{
    if count == 0 {
        Seq::empty()
    } else {
        let measurement = state.channels[count - 1].measurement;
        measured_fields(state, (count - 1) as nat) + voltage_text(measurement) + ascii(","@)
            + current_text(measurement) + ascii(","@)
    }
}

/// Whether each of the first `count` channels is on.
pub open spec fn enabled_fields(state: AppState, count: nat) -> Seq<u8>
    decreases count,
{
    if count == 0 {
        Seq::empty()
    } else {
        enabled_fields(state, (count - 1) as nat) + ascii(","@) + flag_text(
            state.channels[count - 1].physical_enabled,
        )
    }
}

/// The current limit of each of the first `count` channels.
pub open spec fn limit_fields(state: AppState, count: nat) -> Seq<u8>
    decreases count,
{
    if count == 0 {
        Seq::empty()
    } else {
        limit_fields(state, (count - 1) as nat) + ascii(","@) + fixed2(
            rounded(state.channels[count - 1].current_limit_ma),
        )
    }
}

/// The 27 fields of the bulk reply.
pub open spec fn bulk_text(state: AppState) -> Seq<u8> {
    measured_fields(state, 5) + voltage_text(state.sink) + ascii(","@) + current_text(state.sink)
        + ascii(","@) + temperature_text(state) + enabled_fields(state, 5) + ascii(","@)
        + flag_text(arbitrary_active(state, 3)) + ascii(","@) + flag_text(
        arbitrary_active(state, 4),
    ) + limit_fields(state, 5) + ascii(","@) + fixed2(rounded(state.channels[3].setpoint_mv))
        + ascii(","@) + fixed2(rounded(state.channels[4].setpoint_mv)) + ascii("\r\n"@)
}

/// The channel that a digit names, from `1` to `5`.
pub open spec fn named_channel(digit: u8) -> Option<u8> {
    if 49 <= digit <= 53 {
        Some((digit - 49) as u8)
    } else {
        None
    }
}

/// The channel that a digit names, from `1` to `5`.
pub fn channel_named(digit: u8) -> (channel: Option<u8>)
    ensures
        channel == named_channel(digit),
{
    if digit >= 49 && digit <= 53 {
        Some(digit - 49)
    } else {
        None
    }
}

/// The channel of a query that is a channel digit and a question mark.
pub open spec fn queried_channel(text: Seq<u8>) -> Option<u8> {
    if text.len() == 2 && text[1] == 63 {
        named_channel(text[0])
    } else {
        None
    }
}

/// The channel of a query that is a channel digit and a question mark.
pub fn channel_queried(text: &[u8]) -> (channel: Option<u8>)
    ensures
        channel == queried_channel(text@),
{
    if text.len() == 2 && text[1] == 63 {
        channel_named(text[0])
    } else {
        None
    }
}

fn write_voltage(out: &mut Vec<u8>, measurement: Measurement)
    ensures
        final(out)@ == old(out)@ + voltage_text(measurement),
{
    if measurement.valid {
        append_fixed2(out, (measurement.millivolts as u32 + 5) / 10);
    } else {
        append(out, "nan");
    }
}

fn write_current(out: &mut Vec<u8>, measurement: Measurement)
    ensures
        final(out)@ == old(out)@ + current_text(measurement),
{
    if measurement.valid {
        append_fixed3(out, measurement.milliamps as u32);
    } else {
        append(out, "nan");
    }
}

fn write_temperature(out: &mut Vec<u8>, state: &AppState)
    ensures
        final(out)@ == old(out)@ + temperature_text(*state),
{
    if !state.temp_valid {
        append(out, "nan");
        return;
    }
    let raw: i32 = state.temp_sixteenths_c as i32;
    let magnitude: u32 = if raw < 0 {
        (-raw) as u32
    } else {
        raw as u32
    };
    let tenths: u32 = magnitude * 10 / 16;
    if raw < 0 && tenths > 0 {
        append(out, "-");
    }
    let ghost signed = out@;
    append_fixed1(out, tenths);
    assert(out@ =~= old(out)@ + temperature_text(*state));
}

fn write_flag(out: &mut Vec<u8>, flag: bool)
    ensures
        final(out)@ == old(out)@ + flag_text(flag),
{
    if flag {
        append(out, "1");
    } else {
        append(out, "0");
    }
}

fn arbitrary_channel_active(state: &AppState, channel: u8) -> (active: bool)
    ensures
        active == arbitrary_active(*state, channel),
{
    state.awg_source == AwgSource::Arbitrary && state.active_awg_channel() == channel && !matches!(
        state.awg_status,
        AwgStatus::Stopped | AwgStatus::Fault
    )
}

/// Writes the bulk reply.
fn bulk_reply(state: &AppState) -> (out: Vec<u8>)
    ensures
        out@ == bulk_text(*state),
{
    let mut out: Vec<u8> = Vec::new();
    assert(out@ =~= measured_fields(*state, 0));
    let mut index: usize = 0;
    while index < 5
        invariant
            index <= 5,
            out@ == measured_fields(*state, index as nat),
        decreases 5 - index,
    {
        let measurement = state.channels[index].measurement;
        write_voltage(&mut out, measurement);
        append(&mut out, ",");
        write_current(&mut out, measurement);
        append(&mut out, ",");
        index = index + 1;
    }
    write_voltage(&mut out, state.sink);
    append(&mut out, ",");
    write_current(&mut out, state.sink);
    append(&mut out, ",");
    write_temperature(&mut out, state);
    let ghost before = out@;
    assert(before + enabled_fields(*state, 0) =~= before);
    index = 0;
    while index < 5
        invariant
            index <= 5,
            out@ == before + enabled_fields(*state, index as nat),
        decreases 5 - index,
    {
        append(&mut out, ",");
        write_flag(&mut out, state.channels[index].physical_enabled);
        assert(out@ =~= before + enabled_fields(*state, (index + 1) as nat));
        index = index + 1;
    }
    append(&mut out, ",");
    write_flag(&mut out, arbitrary_channel_active(state, 3));
    append(&mut out, ",");
    write_flag(&mut out, arbitrary_channel_active(state, 4));
    let ghost before = out@;
    assert(before + limit_fields(*state, 0) =~= before);
    index = 0;
    while index < 5
        invariant
            index <= 5,
            out@ == before + limit_fields(*state, index as nat),
        decreases 5 - index,
    {
        append(&mut out, ",");
        append_fixed2(&mut out, (state.channels[index].current_limit_ma as u32 + 5) / 10);
        assert(out@ =~= before + limit_fields(*state, (index + 1) as nat));
        index = index + 1;
    }
    append(&mut out, ",");
    append_fixed2(&mut out, (state.channels[3].setpoint_mv as u32 + 5) / 10);
    append(&mut out, ",");
    append_fixed2(&mut out, (state.channels[4].setpoint_mv as u32 + 5) / 10);
    append(&mut out, "\r\n");
    out
}

/// What a compatibility query is answered with.
pub open spec fn query_text(command: Seq<u8>, state: AppState) -> Result<
    Option<Seq<u8>>,
    CommandError,
> {
    if begins(command, "MEAS:VOLT:CH"@) {
        match queried_channel(rest(command, "MEAS:VOLT:CH"@)) {
            Some(channel) => Ok(
                Some(
                    voltage_text(state.channels[channel as int].measurement) + ascii("\r\n"@),
                ),
            ),
            None => Err(CommandError::Range),
        }
    } else if command == ascii("MEAS:ALL?"@) {
        Ok(Some(bulk_text(state)))
    } else {
        Ok(None)
    }
}

/// Answers a compatibility query. Other commands are left alone.
pub fn project_compat_query(command: &[u8], state: &AppState) -> (result: Result<
    Option<Response>,
    CommandError,
>)
    ensures
        match query_text(command@, *state) {
            Ok(Some(text)) => result matches Ok(Some(response)) && response.wf()
                && response.text() == text,
            Ok(None) => result matches Ok(None),
            Err(error) => result == Err::<Option<Response>, CommandError>(error),
        },
{
    if let Some(following) = after_text(command, "MEAS:VOLT:CH") {
        return match channel_queried(following) {
            Some(channel) => {
                let mut out: Vec<u8> = Vec::new();
                let measurement = state.channels[channel as usize].measurement;
                write_voltage(&mut out, measurement);
                append(&mut out, "\r\n");
                proof {
                    assert(out@ =~= voltage_text(measurement) + ascii("\r\n"@));
                    lemma_voltage_length(measurement);
                    reveal_strlit("\r\n");
                }
                match Response::holding(&out) {
                    Some(response) => Ok(Some(response)),
                    None => Err(CommandError::Range),
                }
            },
            None => Err(CommandError::Range),
        };
    }
    if !is_text(command, "MEAS:ALL?") {
        return Ok(None);
    }
    let out: Vec<u8> = bulk_reply(state);
    proof {
        bulk_reply_always_fits(*state);
    }
    match Response::holding(&out) {
        Some(response) => Ok(Some(response)),
        None => Err(CommandError::Range),
    }
}

proof fn lemma_fixed2_length(hundredths: nat)
    requires
        hundredths < 10_000,
    ensures
        fixed2(hundredths).len() <= 5,
{
    reveal_with_fuel(vstd::arithmetic::power::pow, 3);
    decimal_length(hundredths / 100, 2, 100);
    padded_length(hundredths % 100, 2);
    reveal_strlit(".");
}

proof fn lemma_fixed3_length(thousandths: nat)
    requires
        thousandths < 100_000,
    ensures
        fixed3(thousandths).len() <= 6,
{
    reveal_with_fuel(vstd::arithmetic::power::pow, 3);
    decimal_length(thousandths / 1_000, 2, 100);
    padded_length(thousandths % 1_000, 3);
    reveal_strlit(".");
}

proof fn lemma_voltage_length(measurement: Measurement)
    ensures
        voltage_text(measurement).len() <= 5,
{
    reveal_strlit("nan");
    if measurement.valid {
        lemma_fixed2_length(((measurement.millivolts + 5) / 10) as nat);
    }
}

proof fn lemma_current_length(measurement: Measurement)
    ensures
        current_text(measurement).len() <= 6,
{
    reveal_strlit("nan");
    if measurement.valid {
        lemma_fixed3_length(measurement.milliamps as nat);
    }
}

proof fn lemma_temperature_length(state: AppState)
    ensures
        temperature_text(state).len() <= 7,
{
    let tenths = temperature_tenths(state.temp_sixteenths_c);
    reveal_with_fuel(vstd::arithmetic::power::pow, 5);
    decimal_length(tenths / 10, 4, 10_000);
    padded_length(tenths % 10, 1);
    reveal_strlit("nan");
    reveal_strlit("-");
    reveal_strlit(".");
}

proof fn lemma_field_lengths(state: AppState, count: nat)
    requires
        count <= 5,
    ensures
        measured_fields(state, count).len() <= 13 * count,
        enabled_fields(state, count).len() == 2 * count,
        limit_fields(state, count).len() <= 6 * count,
    decreases count,
{
    reveal_strlit(",");
    reveal_strlit("0");
    reveal_strlit("1");
    if count > 0 {
        lemma_field_lengths(state, (count - 1) as nat);
        let channel = state.channels[count - 1];
        lemma_voltage_length(channel.measurement);
        lemma_current_length(channel.measurement);
        lemma_fixed2_length(rounded(channel.current_limit_ma));
    }
}

/// The bulk reply fits its buffer in every state.
pub proof fn bulk_reply_always_fits(state: AppState)
    ensures
        bulk_text(state).len() <= RESPONSE_CAPACITY,
{
    lemma_field_lengths(state, 5);
    lemma_voltage_length(state.sink);
    lemma_current_length(state.sink);
    lemma_temperature_length(state);
    lemma_fixed2_length(rounded(state.channels[3].setpoint_mv));
    lemma_fixed2_length(rounded(state.channels[4].setpoint_mv));
    reveal_strlit(",");
    reveal_strlit("0");
    reveal_strlit("1");
    reveal_strlit("\r\n");
}

/// What an output operation asks for: on, off, or nothing that is known.
pub open spec fn output_operation(text: Seq<u8>) -> Option<bool> {
    if text == ascii(" ON"@) || text == ascii(":STAT 1"@) || text == ascii(" STAT 1"@) {
        Some(true)
    } else if text == ascii(" OFF"@) || text == ascii(":STAT 0"@) || text == ascii(" STAT 0"@) {
        Some(false)
    } else {
        None
    }
}

/// What the output command `text` asks for.
pub open spec fn output_mutation(text: Seq<u8>) -> Result<Option<UsbIntent>, CommandError> {
    if text.len() == 2 && text[1] == 63 {
        Ok(None)
    } else if text.len() == 0 || named_channel(text[0]) is None {
        Err(CommandError::Range)
    } else {
        match output_operation(text.skip(1)) {
            Some(enabled) => Ok(
                Some(
                    UsbIntent::SetOutput { channel: named_channel(text[0])->Some_0, enabled },
                ),
            ),
            None => Err(CommandError::Syntax),
        }
    }
}

/// What the voltage command `text` asks for.
pub open spec fn voltage_mutation(text: Seq<u8>) -> Result<Option<UsbIntent>, CommandError> {
    if text.len() == 0 || !(named_channel(text[0]) == Some(3u8) || named_channel(text[0]) == Some(
        4u8,
    )) {
        Err(CommandError::Range)
    } else if text.len() < 2 || text[1] != 32 {
        Err(CommandError::Syntax)
    } else {
        let channel = named_channel(text[0])->Some_0;
        match milliunits(text.skip(2)) {
            None => Err(CommandError::Syntax),
            Some(millivolts) => if min_voltage(channel as int) <= millivolts <= max_voltage(
                channel as int,
            ) {
                Ok(Some(UsbIntent::SetVoltage { channel, millivolts }))
            } else {
                Err(CommandError::Range)
            },
        }
    }
}

/// What a compatibility command asks for.
pub open spec fn compat_mutation(command: Seq<u8>) -> Result<Option<UsbIntent>, CommandError> {
    if begins(command, "OUTP:CH"@) {
        output_mutation(rest(command, "OUTP:CH"@))
    } else if begins(command, "SOUR:VOLT:CH"@) {
        voltage_mutation(rest(command, "SOUR:VOLT:CH"@))
    } else {
        Ok(None)
    }
}

fn parse_output_operation(text: &[u8]) -> (enabled: Option<bool>)
    ensures
        enabled == output_operation(text@),
{
    if is_text(text, " ON") || is_text(text, ":STAT 1") || is_text(text, " STAT 1") {
        Some(true)
    } else if is_text(text, " OFF") || is_text(text, ":STAT 0") || is_text(text, " STAT 0") {
        Some(false)
    } else {
        None
    }
}

fn parse_output(text: &[u8]) -> (result: Result<Option<UsbIntent>, CommandError>)
    ensures
        result == output_mutation(text@),
{
    if text.len() == 2 && text[1] == 63 {
        return Ok(None);
    }
    if text.len() == 0 {
        return Err(CommandError::Range);
    }
    let channel: u8 = match channel_named(text[0]) {
        Some(channel) => channel,
        None => {
            return Err(CommandError::Range);
        },
    };
    let operation = vstd::slice::slice_subrange(text, 1, text.len());
    assert(operation@ =~= text@.skip(1));
    match parse_output_operation(operation) {
        Some(enabled) => Ok(Some(UsbIntent::SetOutput { channel, enabled })),
        None => Err(CommandError::Syntax),
    }
}

fn parse_voltage(text: &[u8]) -> (result: Result<Option<UsbIntent>, CommandError>)
    ensures
        result == voltage_mutation(text@),
{
    if text.len() == 0 {
        return Err(CommandError::Range);
    }
    let channel: u8 = match channel_named(text[0]) {
        Some(channel) => channel,
        None => {
            return Err(CommandError::Range);
        },
    };
    if channel != 3 && channel != 4 {
        return Err(CommandError::Range);
    }
    if text.len() < 2 || text[1] != 32 {
        return Err(CommandError::Syntax);
    }
    let value = vstd::slice::slice_subrange(text, 2, text.len());
    assert(value@ =~= text@.skip(2));
    let range = voltage_range(channel);
    match parse_milliunits(value) {
        None => Err(CommandError::Syntax),
        Some(millivolts) => if millivolts >= range.0 && millivolts <= range.1 {
            Ok(Some(UsbIntent::SetVoltage { channel, millivolts }))
        } else {
            Err(CommandError::Range)
        },
    }
}

/// Reads an output or voltage command. Queries and unrelated commands are left
/// alone.
pub fn parse_compat_mutation(command: &[u8]) -> (result: Result<Option<UsbIntent>, CommandError>)
    ensures
        result == compat_mutation(command@),
{
    if let Some(following) = after_text(command, "OUTP:CH") {
        return parse_output(following);
    }
    if let Some(following) = after_text(command, "SOUR:VOLT:CH") {
        return parse_voltage(following);
    }
    Ok(None)
}

/// No accepted command leaves the board's voltage ranges or names a channel
/// that does not exist.
pub proof fn accepted_mutations_are_in_range(command: Seq<u8>, intent: UsbIntent)
    requires
        compat_mutation(command) == Ok::<Option<UsbIntent>, CommandError>(Some(intent)),
    ensures
        match intent {
            UsbIntent::SetOutput { channel, enabled } => channel < 5,
            UsbIntent::SetVoltage { channel, millivolts } => (channel == 3 || channel == 4)
                && min_voltage(channel as int) <= millivolts <= max_voltage(channel as int),
            _ => false,
        },
{
}

} // verus!
