//! Answers to host commands.

use benchvolt_poc::app::{
    AppState, AwgSource, AwgStatus, ControlFocus, Fault, Measurement, RegulationMode, Screen,
};
use benchvolt_poc::arb::{DataChunk, Start};
use benchvolt_poc::pd::{Contract, PdError};
use benchvolt_poc::power::ProtectionMonitor;
use benchvolt_poc::usb_command::UsbIntent;
use benchvolt_poc::usb_protocol::{handle_usb_command, ArbCommand, UsbTelemetry};

fn telemetry() -> UsbTelemetry {
    UsbTelemetry {
        tick_ms: 1_234,
        encoder_edges: 7,
        encoder_drops: 2,
        arb_index: 3,
        arb_cycles: 4,
        arb_late_updates: 5,
        arb_skipped_cycles: 6,
        ch5_tps_status: 0xa5,
        hw_operation: 3,
        hw_error: 1,
        hw_retries: 9,
    }
}

fn ask(command: &str, state: &AppState, arb: ArbCommand) -> (UsbIntent, Option<String>) {
    let monitors = [ProtectionMonitor::default(); 5];
    let reply = handle_usb_command(command.as_bytes(), state, &monitors, &telemetry(), arb);
    (reply.intent, reply.response.map(|bytes| String::from_utf8(bytes).unwrap()))
}

fn answer(command: &str, state: &AppState) -> String {
    let (intent, response) = ask(command, state, ArbCommand::Unrelated);
    assert_eq!(intent, UsbIntent::NoAction);
    response.unwrap()
}

fn intent(command: &str) -> UsbIntent {
    let (intent, response) = ask(command, &fresh(), ArbCommand::Unrelated);
    assert_eq!(response, None);
    intent
}

fn fresh() -> AppState {
    AppState::new(true, Some(400))
}

#[test]
fn identity_and_diagnostics_are_answered() {
    let state = fresh();
    assert_eq!(answer("*IDN?", &state), "BenchVolt-PD,RUST-POC,S/N:2026-01\r\n");
    assert_eq!(answer("*IDN?\r", &state), "BenchVolt-PD,RUST-POC,S/N:2026-01\r\n");
    assert_eq!(answer("SYST:BUILD?", &state), "Rust POC 0.1.0\r\n");
    assert_eq!(answer("SYST:HWERR?", &state), "OP3 ERR1 RETRIES9\r\n");
    assert_eq!(answer("SYST:TPS:CH5?", &state), "0xA5\r\n");
    assert_eq!(answer("SYST:TICK?", &state), "1234\r\n");
    assert_eq!(answer("NONSENSE", &state), "ERR:UNKNOWN_COMMAND\r\n");
    assert_eq!(answer("", &state), "ERR:UNKNOWN_COMMAND\r\n");
    assert_eq!(
        answer("SYST:PROT:CH1?", &state),
        "A0 R0,0 P0 G0 O0 V0 T0,0 N0\r\n"
    );
    assert_eq!(answer("SYST:PROT:CH6?", &state), "ERR:RANGE\r\n");
}

#[test]
fn temperatures_keep_the_sign_of_whole_degrees() {
    let mut state = fresh();
    for (raw, text) in [(400, "25.00\r\n"), (-24, "-1.50\r\n"), (-8, "0.50\r\n"), (1, "0.06\r\n")] {
        state.temp_sixteenths_c = raw;
        assert_eq!(answer("MEAS:TEMP?", &state), text);
    }
    state.temp_valid = false;
    assert_eq!(answer("MEAS:TEMP?", &state), "ERR:SENSOR\r\n");
}

#[test]
fn measurements_are_answered_in_units() {
    let mut state = fresh();
    assert_eq!(answer("MEAS:CH2?", &state), "ERR:SENSOR\r\n");
    state.channels[1].measurement = Measurement { millivolts: 2_505, milliamps: 70, valid: true };
    state.sink = Measurement { millivolts: 20_000, milliamps: 1_501, valid: true };
    assert_eq!(answer("MEAS:CH2?", &state), "2.505V,0.070A\r\n");
    assert_eq!(answer("MEAS:SINK?", &state), "20.000V,1.501A,30.020W\r\n");
    assert_eq!(answer("MEAS:CH6?", &state), "ERR:UNKNOWN_COMMAND\r\n");
    assert_eq!(answer("SINK:LIMIT?", &state), "5.000A\r\n");
    assert_eq!(answer("SOUR:CURR:CH1?", &state), "3.000A\r\n");
}

#[test]
fn outputs_report_faults_first() {
    let mut state = fresh();
    assert_eq!(answer("OUTP:CH1?", &state), "OFF\r\n");
    state.channels[0].physical_enabled = true;
    assert_eq!(answer("OUTP:CH1?", &state), "ON\r\n");
    for (fault, text) in [
        (Fault::OverCurrent, "FAULT:OVERCURRENT\r\n"),
        (Fault::OverTemperature, "FAULT:OVERTEMP\r\n"),
        (Fault::Sensor, "FAULT:SENSOR\r\n"),
        (Fault::Hardware, "FAULT:HARDWARE\r\n"),
    ] {
        state.channels[0].fault = fault;
        assert_eq!(answer("OUTP:CH1?", &state), text);
    }
    assert_eq!(answer("OUTP:CH9?", &state), "ERR:RANGE\r\n");
    assert_eq!(answer("OUTP:CH1 MAYBE", &state), "ERR:UNKNOWN_COMMAND\r\n");
}

#[test]
fn negotiation_is_reported() {
    let mut state = fresh();
    assert_eq!(answer("SYST:PD?", &state), "NEGOTIATING\r\n");
    state.pd_error = Some(PdError::NoSuitablePdo);
    assert_eq!(answer("SYST:PD?", &state), "ERROR,NO_PDO\r\n");
    state.pd_contract = Some(Contract {
        source_position: 4,
        millivolts: 20_000,
        operating_milliamps: 3_000,
        maximum_milliamps: 5_000,
    });
    assert_eq!(answer("SYST:PD?", &state), "READY,PDO4,20000mV,3000mA,MAX5000mA\r\n");
}

#[test]
fn the_user_interface_is_reported() {
    let mut state = fresh();
    assert_eq!(answer("SYST:UI?", &state), "MENU\r\n");
    state.screen = Screen::Channel(4);
    state.focus = ControlFocus::Voltage;
    assert_eq!(answer("SYST:UI?", &state), "CH5,VOLT V:12000 I:3000 E:7 D:2\r\n");
    state.screen = Screen::Overview;
    assert_eq!(answer("SYST:UI?", &state), "OVERVIEW E:7 D:2\r\n");
    state.screen = Screen::UsbPdInput;
    assert_eq!(answer("SYST:UI?", &state), "USBPD,VOLT I:5000 E:7 D:2\r\n");
    state.screen = Screen::ProfileLoad;
    assert_eq!(answer("SYST:UI?", &state), "PROFILE:LOAD\r\n");
}

#[test]
fn commands_become_intents() {
    assert_eq!(intent("OUTP:CH5 ON"), UsbIntent::SetOutput { channel: 4, enabled: true });
    assert_eq!(intent("OUTP:CH1 OFF\r"), UsbIntent::SetOutput { channel: 0, enabled: false });
    assert_eq!(
        intent("SOUR:CURR:CH2 1.25"),
        UsbIntent::SetCurrentLimit { channel: 1, milliamps: 1_250 }
    );
    assert_eq!(intent("SINK:LIMIT 4.999"), UsbIntent::SetSinkCurrentLimit(4_999));
    assert_eq!(
        intent("SOUR:MODE:CH4 CC"),
        UsbIntent::SetRegulationMode { channel: 3, mode: RegulationMode::Cc }
    );
    assert_eq!(intent("JUMP:BOOTLOADER"), UsbIntent::JumpToBootloader);
    assert_eq!(intent("SYST:REBOOT"), UsbIntent::Reboot);
    assert_eq!(intent("SOUR:WAVE:CH5:ARB:STOP"), UsbIntent::ArbStop(4));
}

#[test]
fn limits_out_of_range_are_refused() {
    let state = fresh();
    assert_eq!(answer("SOUR:CURR:CH2 3.001", &state), "ERR:RANGE\r\n");
    assert_eq!(answer("SOUR:CURR:CH7 1", &state), "ERR:RANGE\r\n");
    assert_eq!(answer("SOUR:CURR:CH2=1", &state), "ERR:SYNTAX\r\n");
    assert_eq!(answer("SINK:LIMIT 5.001", &state), "ERR:RANGE\r\n");
    assert_eq!(answer("SINK:LIMIT x", &state), "ERR:RANGE\r\n");
    assert_eq!(answer("SOUR:MODE:CH4?", &state), "CV\r\n");
}

#[test]
fn uploads_are_handed_on() {
    let state = fresh();
    let chunk = DataChunk { channel: 3, offset: 0, len: 1, millivolts: [1_000; 8] };
    let start = Start { channel: 3, count: 1, multiplier_ticks: 1, repetitions: 0 };
    assert_eq!(ask("x", &state, ArbCommand::Data(chunk)).0, UsbIntent::ArbData(chunk));
    assert_eq!(ask("x", &state, ArbCommand::Start(start)).0, UsbIntent::ArbStart(start));
    assert_eq!(ask("x", &state, ArbCommand::Syntax).1.unwrap(), "ERR:SYNTAX\r\n");
    assert_eq!(ask("x", &state, ArbCommand::Range).1.unwrap(), "ERR:RANGE\r\n");
    let mut running = state;
    running.awg_source = AwgSource::Arbitrary;
    running.arb_run.channel = 4;
    running.awg_status = AwgStatus::Running;
    assert_eq!(
        answer("SOUR:WAVE:CH5:ARB:STAT?", &running),
        "RUNNING,INDEX:3,CYCLES:4,LATE:5,SKIP:6\r\n"
    );
    assert_eq!(
        answer("SOUR:WAVE:CH4:ARB:STAT?", &running),
        "STOPPED,INDEX:3,CYCLES:4,LATE:5,SKIP:6\r\n"
    );
}

#[test]
fn only_the_interface_query_looks_up_the_screen() {
    let mut state = fresh();
    state.screen = Screen::Channel(9);
    assert_eq!(answer("SYST:BUILD?", &state), "Rust POC 0.1.0\r\n");
    assert_eq!(answer("SYST:UI", &state), "ERR:UNKNOWN_COMMAND\r\n");
    let refused = ask("SYST:UI?", &state, ArbCommand::Range);
    assert_eq!(refused, (UsbIntent::NoAction, Some("ERR:RANGE\r\n".to_string())));
}
