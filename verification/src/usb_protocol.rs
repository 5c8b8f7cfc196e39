//! The USB command set: what a command is answered with, and what it asks the
//! application to do.

use crate::app::{
    AppState, AwgSource, AwgStatus, ControlFocus, Fault, Measurement, RegulationMode, Screen,
};
use crate::arb::{DataChunk as ArbDataChunk, Start as ArbStart};
use crate::limits::{CHANNEL_MAX_CURRENT_MA, SINK_MAX_CURRENT_MA};
use crate::pd::{Contract, PdError};
use crate::protection::{ProtectionMonitor, ProtectionSnapshot};
use crate::protocol::{milliunits, parse_milliunits};
use crate::text::{
    after_text, append, append_decimal, append_fixed2, append_fixed3, append_hex, ascii, begins,
    decimal, fixed2, fixed3, hex_digit, is_text, rest,
};
use crate::usb_command::{
    channel_named, channel_queried, flag_text, named_channel, queried_channel, UsbIntent,
};
use vstd::prelude::*;

verus! {

/// Counters and clocks that replies quote.
#[derive(Clone, Copy, Debug, PartialEq, Eq, Structural)]
pub struct UsbTelemetry {
    pub tick_ms: u16,
    pub encoder_edges: u32,
    pub encoder_drops: u32,
    pub arb_index: u32,
    pub arb_cycles: u32,
    pub arb_late_updates: u32,
    pub arb_skipped_cycles: u32,
    pub ch5_tps_status: u8,
    pub hw_operation: u8,
    pub hw_error: u8,
    pub hw_retries: u32,
}

/// What the waveform-upload parser makes of a command.
#[derive(Clone, Copy, Debug, PartialEq, Eq)]
pub enum ArbCommand {
    Unrelated,
    Data(ArbDataChunk),
    Start(ArbStart),
    Syntax,
    Range,
}

/// The outcome of a command: what to do, and what to answer at once.
pub struct UsbReply {
    pub intent: UsbIntent,
    pub response: Option<Vec<u8>>,
}

/// What a reply stands for.
pub struct ReplyModel {
    pub intent: UsbIntent,
    pub response: Option<Seq<u8>>,
}

/// An answer with nothing to do.
pub open spec fn answers(text: Seq<u8>) -> ReplyModel {
    ReplyModel { intent: UsbIntent::NoAction, response: Some(text) }
}

/// Something to do, with no answer yet.
pub open spec fn asks(intent: UsbIntent) -> ReplyModel {
    ReplyModel { intent, response: None }
}

/// The command without its line end.
pub open spec fn stripped(command: Seq<u8>) -> Seq<u8> {
    if command.len() > 0 && command.last() == 13 {
        command.drop_last()
    } else {
        command
    }
}

/// The name of a waveform status.
pub open spec fn awg_status_text(status: AwgStatus) -> Seq<u8> {
    match status {
        AwgStatus::Running => ascii("RUNNING"@),
        AwgStatus::StartRequested => ascii("STARTING"@),
        AwgStatus::Starting => ascii("STARTING"@),
        AwgStatus::StopRequested => ascii("STOPPING"@),
        AwgStatus::Fault => ascii("FAULT"@),
        AwgStatus::Stopped => ascii("STOPPED"@),
    }
}

/// The state of an uploaded waveform; `channel` is the number on the front
/// panel.
pub open spec fn arb_status_text(state: AppState, channel: int, telemetry: UsbTelemetry) -> Seq<u8> {
    (if state.awg_source == AwgSource::Arbitrary && state.awg_channel() + 1 == channel {
        awg_status_text(state.awg_status)
    } else {
        ascii("STOPPED"@)
    }) + ascii(",INDEX:"@) + decimal(telemetry.arb_index as nat) + ascii(",CYCLES:"@) + decimal(
        telemetry.arb_cycles as nat,
    ) + ascii(",LATE:"@) + decimal(telemetry.arb_late_updates as nat) + ascii(",SKIP:"@) + decimal(
        telemetry.arb_skipped_cycles as nat,
    ) + ascii("\r\n"@)
}

/// The answer to a query or stop of an uploaded waveform.
pub open spec fn arb_handled(
    command: Seq<u8>,
    state: AppState,
    telemetry: UsbTelemetry,
) -> Option<ReplyModel> {
    if command == ascii("SOUR:WAVE:CH4:ARB:STAT?"@) {
        Some(answers(arb_status_text(state, 4, telemetry)))
    } else if command == ascii("SOUR:WAVE:CH4:ARB:STOP"@) {
        Some(asks(UsbIntent::ArbStop(3)))
    } else if command == ascii("SOUR:WAVE:CH5:ARB:STAT?"@) {
        Some(answers(arb_status_text(state, 5, telemetry)))
    } else if command == ascii("SOUR:WAVE:CH5:ARB:STOP"@) {
        Some(asks(UsbIntent::ArbStop(4)))
    } else {
        None
    }
}

/// The answer to an upload command.
pub open spec fn upload_handled(arb: ArbCommand) -> Option<ReplyModel> {
    match arb {
        ArbCommand::Unrelated => None,
        ArbCommand::Data(chunk) => Some(asks(UsbIntent::ArbData(chunk))),
        ArbCommand::Start(start) => Some(asks(UsbIntent::ArbStart(start))),
        ArbCommand::Syntax => Some(answers(ascii("ERR:SYNTAX\r\n"@))),
        ArbCommand::Range => Some(answers(ascii("ERR:RANGE\r\n"@))),
    }
}

/// The state of a protection monitor.
pub open spec fn protection_text(monitor: ProtectionMonitor) -> Seq<u8> {
    ascii("A"@) + flag_text(monitor.active) + ascii(" R"@) + decimal(
        monitor.last.millivolts as nat,
    ) + ascii(","@) + decimal(monitor.last.milliamps as nat) + ascii(" P"@) + decimal(
        monitor.peak_milliamps as nat,
    ) + ascii(" G"@) + decimal(monitor.grace_remaining as nat) + ascii(" O"@) + decimal(
        monitor.overcurrent_samples as nat,
    ) + ascii(" V"@) + decimal(monitor.voltage_samples as nat) + ascii(" T"@) + decimal(
        monitor.trip.millivolts as nat,
    ) + ascii(","@) + decimal(monitor.trip.milliamps as nat) + ascii(" N"@) + decimal(
        monitor.samples_since_enable as nat,
    ) + ascii("\r\n"@)
}

/// The answer to a query of a protection monitor.
pub open spec fn protection_handled(
    text: Seq<u8>,
    monitors: [ProtectionMonitor; 5],
) -> ReplyModel {
    match queried_channel(text) {
        Some(channel) => answers(protection_text(monitors[channel as int])),
        None => answers(ascii("ERR:RANGE\r\n"@)),
    }
}

/// The state of an output.
pub open spec fn output_text(fault: Fault, physical_enabled: bool) -> Seq<u8> {
    match fault {
        Fault::OverCurrent => ascii("FAULT:OVERCURRENT\r\n"@),
        Fault::OverTemperature => ascii("FAULT:OVERTEMP\r\n"@),
        Fault::Sensor => ascii("FAULT:SENSOR\r\n"@),
        Fault::Hardware => ascii("FAULT:HARDWARE\r\n"@),
        Fault::Clear => if physical_enabled {
            ascii("ON\r\n"@)
        } else {
            ascii("OFF\r\n"@)
        },
    }
}

/// The answer to a query of an output, or the switch that `text` asks for.
pub open spec fn output_handled(text: Seq<u8>, state: AppState) -> Option<ReplyModel> {
    if text.len() == 2 && text[1] == 63 {
        match named_channel(text[0]) {
            Some(channel) => Some(
                answers(
                    output_text(
                        state.channels[channel as int].fault,
                        state.channels[channel as int].physical_enabled,
                    ),
                ),
            ),
            None => Some(answers(ascii("ERR:RANGE\r\n"@))),
        }
    } else if text.len() > 0 && named_channel(text[0]) is Some && text.skip(1) == ascii(" ON"@) {
        Some(
            asks(UsbIntent::SetOutput { channel: named_channel(text[0])->Some_0, enabled: true }),
        )
    } else if text.len() > 0 && named_channel(text[0]) is Some && text.skip(1) == ascii(" OFF"@) {
        Some(
            asks(UsbIntent::SetOutput { channel: named_channel(text[0])->Some_0, enabled: false }),
        )
    } else {
        None
    }
}

/// The answer to a query or a setting of a current limit.
pub open spec fn limit_handled(text: Seq<u8>, state: AppState) -> ReplyModel {
    if text.len() == 0 || named_channel(text[0]) is None {
        answers(ascii("ERR:RANGE\r\n"@))
    } else {
        let channel = named_channel(text[0])->Some_0;
        if text.len() == 2 && text[1] == 63 {
            answers(
                fixed3(state.channels[channel as int].current_limit_ma as nat) + ascii("A\r\n"@),
            )
        } else if text.len() < 2 || text[1] != 32 {
            answers(ascii("ERR:SYNTAX\r\n"@))
        } else {
            match milliunits(text.skip(2)) {
                Some(milliamps) => if milliamps <= CHANNEL_MAX_CURRENT_MA {
                    asks(UsbIntent::SetCurrentLimit { channel, milliamps })
                } else {
                    answers(ascii("ERR:RANGE\r\n"@))
                },
                None => answers(ascii("ERR:RANGE\r\n"@)),
            }
        }
    }
}

/// The answer to a setting of the input limit.
pub open spec fn sink_limit_handled(text: Seq<u8>) -> ReplyModel {
    match milliunits(text) {
        Some(milliamps) => if milliamps <= SINK_MAX_CURRENT_MA {
            asks(UsbIntent::SetSinkCurrentLimit(milliamps))
        } else {
            answers(ascii("ERR:RANGE\r\n"@))
        },
        None => answers(ascii("ERR:RANGE\r\n"@)),
    }
}

/// The name of a negotiation error.
pub open spec fn pd_error_text(error: PdError) -> Seq<u8> {
    match error {
        PdError::Bus => ascii("BUS"@),
        PdError::WrongDevice => ascii("DEVICE"@),
        PdError::Detached => ascii("DETACHED"@),
        PdError::Timeout => ascii("TIMEOUT"@),
        PdError::MalformedCapabilities => ascii("CAPS"@),
        PdError::NoSuitablePdo => ascii("NO_PDO"@),
        PdError::ContractMismatch => ascii("CONTRACT"@),
    }
}

/// The state of the negotiation.
pub open spec fn pd_text(contract: Option<Contract>, error: Option<PdError>) -> Seq<u8> {
    match (contract, error) {
        (Some(contract), _) => ascii("READY,PDO"@) + decimal(contract.source_position as nat)
            + ascii(","@) + decimal(contract.millivolts as nat) + ascii("mV,"@) + decimal(
            contract.operating_milliamps as nat,
        ) + ascii("mA,MAX"@) + decimal(contract.maximum_milliamps as nat) + ascii("mA\r\n"@),
        (None, Some(error)) => ascii("ERROR,"@) + pd_error_text(error) + ascii("\r\n"@),
        (None, None) => ascii("NEGOTIATING\r\n"@),
    }
}

/// The magnitude of a temperature in hundredths of a degree, rounded toward
/// zero.
pub open spec fn temperature_hundredths(sixteenths: i16) -> nat {
    if sixteenths < 0 {
        (-sixteenths * 100 / 16) as nat
    } else {
        (sixteenths * 100 / 16) as nat
    }
}

/// The temperature in hundredths of a degree. The sign belongs to the whole
/// degrees.
pub open spec fn temperature_reply(state: AppState) -> Seq<u8> {
    let hundredths = temperature_hundredths(state.temp_sixteenths_c);
    if !state.temp_valid {
        ascii("ERR:SENSOR\r\n"@)
    } else if state.temp_sixteenths_c < 0 && hundredths >= 100 {
        ascii("-"@) + fixed2(hundredths) + ascii("\r\n"@)
    } else {
        fixed2(hundredths) + ascii("\r\n"@)
    }
}

/// Voltage and current of a measurement.
pub open spec fn measurement_text(measurement: Measurement) -> Seq<u8> {
    if measurement.valid {
        fixed3(measurement.millivolts as nat) + ascii("V,"@) + fixed3(measurement.milliamps as nat)
            + ascii("A\r\n"@)
    } else {
        ascii("ERR:SENSOR\r\n"@)
    }
}

/// Voltage, current and power of the input.
pub open spec fn sink_text(measurement: Measurement) -> Seq<u8> {
    if measurement.valid {
        fixed3(measurement.millivolts as nat) + ascii("V,"@) + fixed3(measurement.milliamps as nat)
            + ascii("A,"@) + fixed3(
            (measurement.millivolts * measurement.milliamps / 1_000) as nat,
        ) + ascii("W\r\n"@)
    } else {
        ascii("ERR:SENSOR\r\n"@)
    }
}

/// The name of a focus.
pub open spec fn focus_text(focus: ControlFocus) -> Seq<u8> {
    match focus {
        ControlFocus::Unfocused => ascii("NONE"@),
        ControlFocus::OverviewOutput(_) => ascii("OVOUT"@),
        ControlFocus::Output => ascii("OUT"@),
        ControlFocus::Voltage => ascii("VOLT"@),
        ControlFocus::CurrentLimit => ascii("CURR"@),
        ControlFocus::RegulationMode => ascii("MODE"@),
    }
}

/// The counts of the encoder.
pub open spec fn encoder_text(telemetry: UsbTelemetry) -> Seq<u8> {
    ascii(" E:"@) + decimal(telemetry.encoder_edges as nat) + ascii(" D:"@) + decimal(
        telemetry.encoder_drops as nat,
    ) + ascii("\r\n"@)
}

/// What the user interface shows.
pub open spec fn ui_text(state: AppState, telemetry: UsbTelemetry) -> Seq<u8> {
    match state.screen {
        Screen::Channel(channel) => ascii("CH"@) + decimal((channel + 1) as nat) + ascii(","@)
            + focus_text(state.focus) + ascii(" V:"@) + decimal(
            state.channels[channel as int].setpoint_mv as nat,
        ) + ascii(" I:"@) + decimal(state.channels[channel as int].current_limit_ma as nat)
            + encoder_text(telemetry),
        Screen::Overview => ascii("OVERVIEW"@) + encoder_text(telemetry),
        Screen::UsbPdInput => ascii("USBPD,"@) + focus_text(state.focus) + ascii(" I:"@) + decimal(
            state.sink_current_limit_ma as nat,
        ) + encoder_text(telemetry),
        Screen::MainMenu => ascii("MENU\r\n"@),
        Screen::Awg => ascii("AWG\r\n"@),
        Screen::Settings => ascii("SETTINGS\r\n"@),
        Screen::ProfileSave => ascii("PROFILE:SAVE\r\n"@),
        Screen::ProfileLoad => ascii("PROFILE:LOAD\r\n"@),
        Screen::System => ascii("SYSTEM\r\n"@),
        Screen::Help => ascii("HELP\r\n"@),
    }
}

/// The answer to a query or a setting of a regulation mode. Only channels 4
/// and 5 have one.
pub open spec fn mode_handled(text: Seq<u8>, state: AppState) -> Option<ReplyModel> {
    if text.len() > 0 && (text[0] == 52 || text[0] == 53) {
        let channel = (text[0] - 49) as u8;
        if text.skip(1) == ascii("?"@) {
            Some(
                answers(
                    if state.channels[channel as int].regulation_mode == RegulationMode::Cc {
                        ascii("CC\r\n"@)
                    } else {
                        ascii("CV\r\n"@)
                    },
                ),
            )
        } else if text.skip(1) == ascii(" CV"@) {
            Some(asks(UsbIntent::SetRegulationMode { channel, mode: RegulationMode::Cv }))
        } else if text.skip(1) == ascii(" CC"@) {
            Some(asks(UsbIntent::SetRegulationMode { channel, mode: RegulationMode::Cc }))
        } else {
            None
        }
    } else {
        None
    }
}

/// The answer to the commands that take no argument.
pub open spec fn plain_handled(
    command: Seq<u8>,
    state: AppState,
    telemetry: UsbTelemetry,
) -> ReplyModel {
    if command == ascii("*IDN?"@) {
        answers(ascii("BenchVolt-PD,RUST-POC,S/N:2026-01\r\n"@))
    } else if command == ascii("SYST:BUILD?"@) {
        answers(ascii("Rust POC 0.1.0\r\n"@))
    } else if command == ascii("SYST:HWERR?"@) {
        answers(
            ascii("OP"@) + decimal(telemetry.hw_operation as nat) + ascii(" ERR"@) + decimal(
                telemetry.hw_error as nat,
            ) + ascii(" RETRIES"@) + decimal(telemetry.hw_retries as nat) + ascii("\r\n"@),
        )
    } else if command == ascii("SYST:TPS:CH5?"@) {
        answers(
            ascii("0x"@) + seq![
                hex_digit(telemetry.ch5_tps_status as int / 16),
                hex_digit(telemetry.ch5_tps_status as int % 16),
            ] + ascii("\r\n"@),
        )
    } else if command == ascii("SYST:PD?"@) {
        answers(pd_text(state.pd_contract, state.pd_error))
    } else if command == ascii("SYST:TICK?"@) {
        answers(decimal(telemetry.tick_ms as nat) + ascii("\r\n"@))
    } else if command == ascii("MEAS:TEMP?"@) {
        answers(temperature_reply(state))
    } else if command == ascii("MEAS:SINK?"@) {
        answers(sink_text(state.sink))
    } else if command == ascii("SINK:LIMIT?"@) {
        answers(fixed3(state.sink_current_limit_ma as nat) + ascii("A\r\n"@))
    } else if command == ascii("SYST:UI?"@) {
        answers(ui_text(state, telemetry))
    } else if command == ascii("JUMP:BOOTLOADER"@) {
        asks(UsbIntent::JumpToBootloader)
    } else if command == ascii("SYST:REBOOT"@) {
        asks(UsbIntent::Reboot)
    } else {
        answers(ascii("ERR:UNKNOWN_COMMAND\r\n"@))
    }
}

/// The answer to the commands that name a channel or a limit, if it is one.
pub open spec fn prefixed_handled(
    command: Seq<u8>,
    state: AppState,
    monitors: [ProtectionMonitor; 5],
) -> Option<ReplyModel> {
    if begins(command, "SYST:PROT:CH"@) {
        Some(protection_handled(rest(command, "SYST:PROT:CH"@), monitors))
    } else if begins(command, "OUTP:CH"@) {
        output_handled(rest(command, "OUTP:CH"@), state)
    } else if begins(command, "SOUR:CURR:CH"@) {
        Some(limit_handled(rest(command, "SOUR:CURR:CH"@), state))
    } else if begins(command, "SINK:LIMIT "@) {
        Some(sink_limit_handled(rest(command, "SINK:LIMIT "@)))
    } else if begins(command, "MEAS:CH"@) {
        match queried_channel(rest(command, "MEAS:CH"@)) {
            Some(channel) => Some(
                answers(measurement_text(state.channels[channel as int].measurement)),
            ),
            None => None,
        }
    } else if begins(command, "SOUR:MODE:CH"@) {
        mode_handled(rest(command, "SOUR:MODE:CH"@), state)
    } else {
        None
    }
}

/// The outcome of a command.
pub open spec fn handled(
    raw: Seq<u8>,
    state: AppState,
    monitors: [ProtectionMonitor; 5],
    telemetry: UsbTelemetry,
    arb: ArbCommand,
) -> ReplyModel {
    let command = stripped(raw);
    match arb_handled(command, state, telemetry) {
        Some(reply) => reply,
        None => match upload_handled(arb) {
            Some(reply) => reply,
            None => match prefixed_handled(command, state, monitors) {
                Some(reply) => reply,
                None => plain_handled(command, state, telemetry),
            },
        },
    }
}

impl UsbReply {
    pub open spec fn model(self) -> ReplyModel {
        ReplyModel {
            intent: self.intent,
            response: match self.response {
                Some(text) => Some(text@),
                None => None,
            },
        }
    }
}

fn answer(text: Vec<u8>) -> (reply: UsbReply)
    ensures
        reply.model() == answers(text@),
{
    UsbReply { intent: UsbIntent::NoAction, response: Some(text) }
}

fn ask(intent: UsbIntent) -> (reply: UsbReply)
    ensures
        reply.model() == asks(intent),
{
    UsbReply { intent, response: None }
}

/// A new text.
fn text_of(text: &str) -> (out: Vec<u8>)
    ensures
        out@ == ascii(text@),
{
    let mut out: Vec<u8> = Vec::new();
    append(&mut out, text);
    assert(out@ =~= ascii(text@));
    out
}

/// A new text of decimal digits.
fn decimal_of(value: u32) -> (out: Vec<u8>)
    ensures
        out@ == decimal(value as nat),
{
    let mut out: Vec<u8> = Vec::new();
    append_decimal(&mut out, value);
    assert(out@ =~= decimal(value as nat));
    out
}

/// A new text of a decimal fraction.
fn fixed3_of(value: u32) -> (out: Vec<u8>)
    ensures
        out@ == fixed3(value as nat),
{
    let mut out: Vec<u8> = Vec::new();
    append_fixed3(&mut out, value);
    assert(out@ =~= fixed3(value as nat));
    out
}

fn arb_status_reply(state: &AppState, channel: u8, telemetry: &UsbTelemetry) -> (out: Vec<u8>)
    requires
        channel > 0,
    ensures
        out@ == arb_status_text(*state, channel as int, *telemetry),
{
    let owner: bool = state.awg_source == AwgSource::Arbitrary && state.active_awg_channel()
        == channel - 1;
    let mut out: Vec<u8> = text_of(
        if owner {
            match state.awg_status {
                AwgStatus::Running => "RUNNING",
                AwgStatus::StartRequested => "STARTING",
                AwgStatus::Starting => "STARTING",
                AwgStatus::StopRequested => "STOPPING",
                AwgStatus::Fault => "FAULT",
                AwgStatus::Stopped => "STOPPED",
            }
        } else {
            "STOPPED"
        },
    );
    append(&mut out, ",INDEX:");
    append_decimal(&mut out, telemetry.arb_index);
    append(&mut out, ",CYCLES:");
    append_decimal(&mut out, telemetry.arb_cycles);
    append(&mut out, ",LATE:");
    append_decimal(&mut out, telemetry.arb_late_updates);
    append(&mut out, ",SKIP:");
    append_decimal(&mut out, telemetry.arb_skipped_cycles);
    append(&mut out, "\r\n");
    out
}

fn handle_arb(command: &[u8], state: &AppState, telemetry: &UsbTelemetry) -> (reply: Option<
    UsbReply,
>)
    ensures
        match arb_handled(command@, *state, *telemetry) {
            Some(model) => reply matches Some(found) && found.model() == model,
            None => reply is None,
        },
{
    if is_text(command, "SOUR:WAVE:CH4:ARB:STAT?") {
        Some(answer(arb_status_reply(state, 4, telemetry)))
    } else if is_text(command, "SOUR:WAVE:CH4:ARB:STOP") {
        Some(ask(UsbIntent::ArbStop(3)))
    } else if is_text(command, "SOUR:WAVE:CH5:ARB:STAT?") {
        Some(answer(arb_status_reply(state, 5, telemetry)))
    } else if is_text(command, "SOUR:WAVE:CH5:ARB:STOP") {
        Some(ask(UsbIntent::ArbStop(4)))
    } else {
        None
    }
}

fn handle_upload(arb: ArbCommand) -> (reply: Option<UsbReply>)
    ensures
        match upload_handled(arb) {
            Some(model) => reply matches Some(found) && found.model() == model,
            None => reply is None,
        },
{
    match arb {
        ArbCommand::Unrelated => None,
        ArbCommand::Data(chunk) => Some(ask(UsbIntent::ArbData(chunk))),
        ArbCommand::Start(start) => Some(ask(UsbIntent::ArbStart(start))),
        ArbCommand::Syntax => Some(answer(text_of("ERR:SYNTAX\r\n"))),
        ArbCommand::Range => Some(answer(text_of("ERR:RANGE\r\n"))),
    }
}

fn handle_protection(text: &[u8], monitors: &[ProtectionMonitor; 5]) -> (reply: UsbReply)
    ensures
        reply.model() == protection_handled(text@, *monitors),
{
    let channel: u8 = match channel_queried(text) {
        Some(channel) => channel,
        None => {
            return answer(text_of("ERR:RANGE\r\n"));
        },
    };
    let snapshot: ProtectionSnapshot = monitors[channel as usize].snapshot();
    let mut out: Vec<u8> = text_of("A");
    append(
        &mut out,
        if snapshot.active {
            "1"
        } else {
            "0"
        },
    );
    append(&mut out, " R");
    append_decimal(&mut out, snapshot.last.millivolts as u32);
    append(&mut out, ",");
    append_decimal(&mut out, snapshot.last.milliamps as u32);
    append(&mut out, " P");
    append_decimal(&mut out, snapshot.peak_milliamps as u32);
    append(&mut out, " G");
    append_decimal(&mut out, snapshot.grace_remaining as u32);
    append(&mut out, " O");
    append_decimal(&mut out, snapshot.overcurrent_samples as u32);
    append(&mut out, " V");
    append_decimal(&mut out, snapshot.voltage_samples as u32);
    append(&mut out, " T");
    append_decimal(&mut out, snapshot.trip.millivolts as u32);
    append(&mut out, ",");
    append_decimal(&mut out, snapshot.trip.milliamps as u32);
    append(&mut out, " N");
    append_decimal(&mut out, snapshot.samples_since_enable as u32);
    append(&mut out, "\r\n");
    answer(out)
}

fn output_reply(fault: Fault, physical_enabled: bool) -> (out: Vec<u8>)
    ensures
        out@ == output_text(fault, physical_enabled),
{
    text_of(
        match fault {
            Fault::OverCurrent => "FAULT:OVERCURRENT\r\n",
            Fault::OverTemperature => "FAULT:OVERTEMP\r\n",
            Fault::Sensor => "FAULT:SENSOR\r\n",
            Fault::Hardware => "FAULT:HARDWARE\r\n",
            Fault::Clear => if physical_enabled {
                "ON\r\n"
            } else {
                "OFF\r\n"
            },
        },
    )
}

fn handle_output(text: &[u8], state: &AppState) -> (reply: Option<UsbReply>)
    ensures
        match output_handled(text@, *state) {
            Some(model) => reply matches Some(found) && found.model() == model,
            None => reply is None,
        },
{
    if text.len() == 0 {
        return None;
    }
    let channel = channel_named(text[0]);
    if text.len() == 2 && text[1] == 63 {
        return match channel {
            Some(channel) => {
                let output = state.channels[channel as usize];
                Some(answer(output_reply(output.fault, output.physical_enabled)))
            },
            None => Some(answer(text_of("ERR:RANGE\r\n"))),
        };
    }
    let operation = vstd::slice::slice_subrange(text, 1, text.len());
    assert(operation@ =~= text@.skip(1));
    match channel {
        Some(channel) => if is_text(operation, " ON") {
            Some(ask(UsbIntent::SetOutput { channel, enabled: true }))
        } else if is_text(operation, " OFF") {
            Some(ask(UsbIntent::SetOutput { channel, enabled: false }))
        } else {
            None
        },
        None => None,
    }
}

fn handle_limit(text: &[u8], state: &AppState) -> (reply: UsbReply)
    ensures
        reply.model() == limit_handled(text@, *state),
{
    if text.len() == 0 {
        return answer(text_of("ERR:RANGE\r\n"));
    }
    let channel: u8 = match channel_named(text[0]) {
        Some(channel) => channel,
        None => {
            return answer(text_of("ERR:RANGE\r\n"));
        },
    };
    if text.len() == 2 && text[1] == 63 {
        let mut out: Vec<u8> = fixed3_of(state.channels[channel as usize].current_limit_ma as u32);
        append(&mut out, "A\r\n");
        return answer(out);
    }
    if text.len() < 2 || text[1] != 32 {
        return answer(text_of("ERR:SYNTAX\r\n"));
    }
    let value = vstd::slice::slice_subrange(text, 2, text.len());
    assert(value@ =~= text@.skip(2));
    match parse_milliunits(value) {
        Some(milliamps) => if milliamps <= CHANNEL_MAX_CURRENT_MA {
            ask(UsbIntent::SetCurrentLimit { channel, milliamps })
        } else {
            answer(text_of("ERR:RANGE\r\n"))
        },
        None => answer(text_of("ERR:RANGE\r\n")),
    }
}

fn handle_sink_limit(text: &[u8]) -> (reply: UsbReply)
    ensures
        reply.model() == sink_limit_handled(text@),
{
    match parse_milliunits(text) {
        Some(milliamps) => if milliamps <= SINK_MAX_CURRENT_MA {
            ask(UsbIntent::SetSinkCurrentLimit(milliamps))
        } else {
            answer(text_of("ERR:RANGE\r\n"))
        },
        None => answer(text_of("ERR:RANGE\r\n")),
    }
}

fn handle_mode(text: &[u8], state: &AppState) -> (reply: Option<UsbReply>)
    ensures
        match mode_handled(text@, *state) {
            Some(model) => reply matches Some(found) && found.model() == model,
            None => reply is None,
        },
{
    if text.len() == 0 || (text[0] != 52 && text[0] != 53) {
        return None;
    }
    let channel: u8 = text[0] - 49;
    let operation = vstd::slice::slice_subrange(text, 1, text.len());
    assert(operation@ =~= text@.skip(1));
    if is_text(operation, "?") {
        Some(
            answer(
                text_of(
                    if state.channels[channel as usize].regulation_mode == RegulationMode::Cc {
                        "CC\r\n"
                    } else {
                        "CV\r\n"
                    },
                ),
            ),
        )
    } else if is_text(operation, " CV") {
        Some(ask(UsbIntent::SetRegulationMode { channel, mode: RegulationMode::Cv }))
    } else if is_text(operation, " CC") {
        Some(ask(UsbIntent::SetRegulationMode { channel, mode: RegulationMode::Cc }))
    } else {
        None
    }
}

fn measurement_reply(measurement: Measurement) -> (out: Vec<u8>)
    ensures
        out@ == measurement_text(measurement),
{
    if !measurement.valid {
        return text_of("ERR:SENSOR\r\n");
    }
    let mut out: Vec<u8> = fixed3_of(measurement.millivolts as u32);
    append(&mut out, "V,");
    append_fixed3(&mut out, measurement.milliamps as u32);
    append(&mut out, "A\r\n");
    out
}

fn handle_prefixed(command: &[u8], state: &AppState, monitors: &[ProtectionMonitor; 5]) -> (reply:
    Option<UsbReply>)
    ensures
        match prefixed_handled(command@, *state, *monitors) {
            Some(model) => reply matches Some(found) && found.model() == model,
            None => reply is None,
        },
{
    if let Some(text) = after_text(command, "SYST:PROT:CH") {
        return Some(handle_protection(text, monitors));
    }
    if let Some(text) = after_text(command, "OUTP:CH") {
        return handle_output(text, state);
    }
    if let Some(text) = after_text(command, "SOUR:CURR:CH") {
        return Some(handle_limit(text, state));
    }
    if let Some(text) = after_text(command, "SINK:LIMIT ") {
        return Some(handle_sink_limit(text));
    }
    if let Some(text) = after_text(command, "MEAS:CH") {
        return match channel_queried(text) {
            Some(channel) => Some(
                answer(measurement_reply(state.channels[channel as usize].measurement)),
            ),
            None => None,
        };
    }
    if let Some(text) = after_text(command, "SOUR:MODE:CH") {
        return handle_mode(text, state);
    }
    None
}

fn pd_reply(contract: Option<Contract>, error: Option<PdError>) -> (out: Vec<u8>)
    ensures
        out@ == pd_text(contract, error),
{
    if let Some(contract) = contract {
        let mut out: Vec<u8> = text_of("READY,PDO");
        append_decimal(&mut out, contract.source_position as u32);
        append(&mut out, ",");
        append_decimal(&mut out, contract.millivolts as u32);
        append(&mut out, "mV,");
        append_decimal(&mut out, contract.operating_milliamps as u32);
        append(&mut out, "mA,MAX");
        append_decimal(&mut out, contract.maximum_milliamps as u32);
        append(&mut out, "mA\r\n");
        return out;
    }
    match error {
        Some(error) => {
            let mut out: Vec<u8> = text_of("ERROR,");
            append(
                &mut out,
                match error {
                    PdError::Bus => "BUS",
                    PdError::WrongDevice => "DEVICE",
                    PdError::Detached => "DETACHED",
                    PdError::Timeout => "TIMEOUT",
                    PdError::MalformedCapabilities => "CAPS",
                    PdError::NoSuitablePdo => "NO_PDO",
                    PdError::ContractMismatch => "CONTRACT",
                },
            );
            append(&mut out, "\r\n");
            out
        },
        None => text_of("NEGOTIATING\r\n"),
    }
}

fn temperature_answer(state: &AppState) -> (out: Vec<u8>)
    ensures
        out@ == temperature_reply(*state),
{
    if !state.temp_valid {
        return text_of("ERR:SENSOR\r\n");
    }
    let raw: i32 = state.temp_sixteenths_c as i32;
    let magnitude: u32 = if raw < 0 {
        (-raw) as u32
    } else {
        raw as u32
    };
    let hundredths: u32 = magnitude * 100 / 16;
    let mut out: Vec<u8> = Vec::new();
    if raw < 0 && hundredths >= 100 {
        append(&mut out, "-");
    }
    append_fixed2(&mut out, hundredths);
    append(&mut out, "\r\n");
    assert(out@ =~= temperature_reply(*state));
    out
}

fn sink_reply(measurement: Measurement) -> (out: Vec<u8>)
    ensures
        out@ == sink_text(measurement),
{
    if !measurement.valid {
        return text_of("ERR:SENSOR\r\n");
    }
    assert(0 <= measurement.millivolts * measurement.milliamps <= 0xffff * 0xffff)
        by (nonlinear_arith)
        requires
            0 <= measurement.millivolts <= 0xffff,
            0 <= measurement.milliamps <= 0xffff,
    ;
    let milliwatts: u32 = measurement.millivolts as u32 * measurement.milliamps as u32 / 1_000;
    let mut out: Vec<u8> = fixed3_of(measurement.millivolts as u32);
    append(&mut out, "V,");
    append_fixed3(&mut out, measurement.milliamps as u32);
    append(&mut out, "A,");
    append_fixed3(&mut out, milliwatts);
    append(&mut out, "W\r\n");
    out
}

fn append_encoder(out: &mut Vec<u8>, telemetry: &UsbTelemetry)
    ensures
        final(out)@ == old(out)@ + encoder_text(*telemetry),
{
    append(out, " E:");
    append_decimal(out, telemetry.encoder_edges);
    append(out, " D:");
    append_decimal(out, telemetry.encoder_drops);
    append(out, "\r\n");
    assert(out@ =~= old(out)@ + encoder_text(*telemetry));
}

fn append_focus(out: &mut Vec<u8>, focus: ControlFocus)
    ensures
        final(out)@ == old(out)@ + focus_text(focus),
{
    append(
        out,
        match focus {
            ControlFocus::Unfocused => "NONE",
            ControlFocus::OverviewOutput(_) => "OVOUT",
            ControlFocus::Output => "OUT",
            ControlFocus::Voltage => "VOLT",
            ControlFocus::CurrentLimit => "CURR",
            ControlFocus::RegulationMode => "MODE",
        },
    );
}

fn ui_reply(state: &AppState, telemetry: &UsbTelemetry) -> (out: Vec<u8>)
    requires
        state.screen.in_range(),
    ensures
        out@ == ui_text(*state, *telemetry),
{
    match state.screen {
        Screen::Channel(channel) => {
            let output = state.channels[channel as usize];
            let mut out: Vec<u8> = text_of("CH");
            append_decimal(&mut out, channel as u32 + 1);
            append(&mut out, ",");
            append_focus(&mut out, state.focus);
            append(&mut out, " V:");
            append_decimal(&mut out, output.setpoint_mv as u32);
            append(&mut out, " I:");
            append_decimal(&mut out, output.current_limit_ma as u32);
            append_encoder(&mut out, telemetry);
            out
        },
        Screen::Overview => {
            let mut out: Vec<u8> = text_of("OVERVIEW");
            append_encoder(&mut out, telemetry);
            out
        },
        Screen::UsbPdInput => {
            let mut out: Vec<u8> = text_of("USBPD,");
            append_focus(&mut out, state.focus);
            append(&mut out, " I:");
            append_decimal(&mut out, state.sink_current_limit_ma as u32);
            append_encoder(&mut out, telemetry);
            out
        },
        Screen::MainMenu => text_of("MENU\r\n"),
        Screen::Awg => text_of("AWG\r\n"),
        Screen::Settings => text_of("SETTINGS\r\n"),
        Screen::ProfileSave => text_of("PROFILE:SAVE\r\n"),
        Screen::ProfileLoad => text_of("PROFILE:LOAD\r\n"),
        Screen::System => text_of("SYSTEM\r\n"),
        Screen::Help => text_of("HELP\r\n"),
    }
}

fn handle_plain(command: &[u8], state: &AppState, telemetry: &UsbTelemetry) -> (reply: UsbReply)
    requires
        command@ == ascii("SYST:UI?"@) ==> state.screen.in_range(),
    ensures
        reply.model() == plain_handled(command@, *state, *telemetry),
{
    if is_text(command, "*IDN?") {
        answer(text_of("BenchVolt-PD,RUST-POC,S/N:2026-01\r\n"))
    } else if is_text(command, "SYST:BUILD?") {
        answer(text_of("Rust POC 0.1.0\r\n"))
    } else if is_text(command, "SYST:HWERR?") {
        let mut out: Vec<u8> = text_of("OP");
        append_decimal(&mut out, telemetry.hw_operation as u32);
        append(&mut out, " ERR");
        append_decimal(&mut out, telemetry.hw_error as u32);
        append(&mut out, " RETRIES");
        append_decimal(&mut out, telemetry.hw_retries);
        append(&mut out, "\r\n");
        answer(out)
    } else if is_text(command, "SYST:TPS:CH5?") {
        let mut out: Vec<u8> = text_of("0x");
        append_hex(&mut out, telemetry.ch5_tps_status);
        append(&mut out, "\r\n");
        answer(out)
    } else if is_text(command, "SYST:PD?") {
        answer(pd_reply(state.pd_contract, state.pd_error))
    } else if is_text(command, "SYST:TICK?") {
        let mut out: Vec<u8> = decimal_of(telemetry.tick_ms as u32);
        append(&mut out, "\r\n");
        answer(out)
    } else if is_text(command, "MEAS:TEMP?") {
        answer(temperature_answer(state))
    } else if is_text(command, "MEAS:SINK?") {
        answer(sink_reply(state.sink))
    } else if is_text(command, "SINK:LIMIT?") {
        let mut out: Vec<u8> = fixed3_of(state.sink_current_limit_ma as u32);
        append(&mut out, "A\r\n");
        answer(out)
    } else if is_text(command, "SYST:UI?") {
        answer(ui_reply(state, telemetry))
    } else if is_text(command, "JUMP:BOOTLOADER") {
        ask(UsbIntent::JumpToBootloader)
    } else if is_text(command, "SYST:REBOOT") {
        ask(UsbIntent::Reboot)
    } else {
        answer(text_of("ERR:UNKNOWN_COMMAND\r\n"))
    }
}

/// True of the one command whose answer looks up the channel on the screen.
pub open spec fn reads_screen(raw: Seq<u8>, arb: ArbCommand) -> bool {
    stripped(raw) == ascii("SYST:UI?"@) && arb is Unrelated
}

/// Works out what a command is answered with and asks for. Every command gets
/// an answer or something to do, never both.
pub fn handle_usb_command(
    command: &[u8],
    state: &AppState,
    protection_monitors: &[ProtectionMonitor; 5],
    telemetry: &UsbTelemetry,
    arb: ArbCommand,
) -> (reply: UsbReply)
    requires
        reads_screen(command@, arb) ==> state.screen.in_range(),
    ensures
        reply.model() == handled(command@, *state, *protection_monitors, *telemetry, arb),
{
    let command = if command.len() > 0 && command[command.len() - 1] == 13 {
        let shorter = vstd::slice::slice_subrange(command, 0, command.len() - 1);
        assert(shorter@ =~= stripped(command@));
        shorter
    } else {
        command
    };
    if let Some(reply) = handle_arb(command, state, telemetry) {
        return reply;
    }
    if let Some(reply) = handle_upload(arb) {
        return reply;
    }
    match handle_prefixed(command, state, protection_monitors) {
        Some(reply) => reply,
        None => handle_plain(command, state, telemetry),
    }
}

/// A command is answered at once exactly when it asks for nothing.
pub proof fn commands_are_answered_or_acted_on(
    raw: Seq<u8>,
    state: AppState,
    monitors: [ProtectionMonitor; 5],
    telemetry: UsbTelemetry,
    arb: ArbCommand,
)
    ensures
        handled(raw, state, monitors, telemetry, arb).response is Some <==> handled(
            raw,
            state,
            monitors,
            telemetry,
            arb,
        ).intent == UsbIntent::NoAction,
{
}

/// Nothing that a command asks for leaves the product's limits.
pub proof fn requested_limits_are_in_range(
    raw: Seq<u8>,
    state: AppState,
    monitors: [ProtectionMonitor; 5],
    telemetry: UsbTelemetry,
    arb: ArbCommand,
)
    ensures
        match handled(raw, state, monitors, telemetry, arb).intent {
            UsbIntent::SetOutput { channel, enabled } => channel < 5,
            UsbIntent::SetCurrentLimit { channel, milliamps } => channel < 5 && milliamps
                <= CHANNEL_MAX_CURRENT_MA,
            UsbIntent::SetSinkCurrentLimit(milliamps) => milliamps <= SINK_MAX_CURRENT_MA,
            UsbIntent::SetRegulationMode { channel, mode } => channel == 3 || channel == 4,
            _ => true,
        },
{
}

} // verus!
