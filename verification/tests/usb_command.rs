//! Compatibility commands.

use benchvolt_poc::app::{AppState, AwgSource, AwgStatus, Measurement};
use benchvolt_poc::usb_command::{
    parse_compat_mutation, project_compat_query, CommandError, UsbIntent, RESPONSE_CAPACITY,
};

#[test]
fn output_parser_accepts_current_gui_and_documented_legacy_forms() {
    for (command, channel, enabled) in [
        (b"OUTP:CH1 ON" as &[u8], 0, true),
        (b"OUTP:CH5 OFF", 4, false),
        (b"OUTP:CH2:STAT 1", 1, true),
        (b"OUTP:CH3:STAT 0", 2, false),
        (b"OUTP:CH4 STAT 1", 3, true),
    ] {
        assert_eq!(
            parse_compat_mutation(command),
            Ok(Some(UsbIntent::SetOutput { channel, enabled }))
        );
    }
}

#[test]
fn voltage_parser_uses_exact_millivolts_and_board_ranges() {
    assert_eq!(
        parse_compat_mutation(b"SOUR:VOLT:CH4 1.25"),
        Ok(Some(UsbIntent::SetVoltage {
            channel: 3,
            millivolts: 1_250,
        }))
    );
    assert_eq!(
        parse_compat_mutation(b"SOUR:VOLT:CH5 22.00"),
        Ok(Some(UsbIntent::SetVoltage {
            channel: 4,
            millivolts: 22_000,
        }))
    );
    assert_eq!(
        parse_compat_mutation(b"SOUR:VOLT:CH5 22.01"),
        Err(CommandError::Range)
    );
    assert_eq!(
        parse_compat_mutation(b"SOUR:VOLT:CH4 garbage"),
        Err(CommandError::Syntax)
    );
}

#[test]
fn compatibility_parser_leaves_queries_and_unrelated_commands_untouched() {
    assert_eq!(parse_compat_mutation(b"OUTP:CH1?"), Ok(None));
    assert_eq!(parse_compat_mutation(b"MEAS:ALL?"), Ok(None));
}

fn measurement(millivolts: u16, milliamps: u16) -> Measurement {
    Measurement {
        millivolts,
        milliamps,
        valid: true,
    }
}

#[test]
fn legacy_voltage_query_reports_two_decimal_volts() {
    let mut state = AppState::new(true, Some(0));
    state.channels[4].measurement = measurement(12_349, 500);

    let response = project_compat_query(b"MEAS:VOLT:CH5?", &state)
        .unwrap()
        .unwrap();

    assert_eq!(response.as_bytes(), b"12.35\r\n");
    assert_eq!(
        project_compat_query(b"MEAS:VOLT:CH6?", &state),
        Err(CommandError::Range)
    );
}

#[test]
fn legacy_bulk_query_matches_the_gui_27_field_contract() {
    let mut state = AppState::new(true, Some(25 * 16));
    for (channel, sample) in state.channels.iter_mut().zip([
        measurement(1_800, 101),
        measurement(2_500, 202),
        measurement(3_300, 303),
        measurement(4_400, 404),
        measurement(12_340, 505),
    ]) {
        channel.measurement = sample;
    }
    state.sink = measurement(19_990, 1_234);
    for (channel, enabled) in state
        .channels
        .iter_mut()
        .zip([true, false, true, false, true])
    {
        channel.physical_enabled = enabled;
    }
    for (channel, limit) in state
        .channels
        .iter_mut()
        .zip([3_000, 2_500, 2_000, 1_500, 1_000])
    {
        channel.current_limit_ma = limit;
    }
    state.channels[3].setpoint_mv = 4_500;
    state.channels[4].setpoint_mv = 12_000;
    state.awg_source = AwgSource::Arbitrary;
    state.arb_run.channel = 4;
    state.awg_status = AwgStatus::Running;

    let response = project_compat_query(b"MEAS:ALL?", &state).unwrap().unwrap();

    assert_eq!(
        response.as_bytes(),
        b"1.80,0.101,2.50,0.202,3.30,0.303,4.40,0.404,12.34,0.505,19.99,1.234,25.0,1,0,1,0,1,0,1,3.00,2.50,2.00,1.50,1.00,4.50,12.00\r\n"
    );
    assert_eq!(response.as_bytes().split(|byte| *byte == b',').count(), 27);
    assert!(response.as_bytes().len() <= RESPONSE_CAPACITY);
}

#[test]
fn compatibility_queries_never_present_invalid_measurements_as_zero() {
    let state = AppState::new(true, None);
    let voltage = project_compat_query(b"MEAS:VOLT:CH1?", &state)
        .unwrap()
        .unwrap();
    let bulk = project_compat_query(b"MEAS:ALL?", &state).unwrap().unwrap();

    assert_eq!(voltage.as_bytes(), b"nan\r\n");
    assert!(bulk.as_bytes().starts_with(b"nan,nan"));
    assert!(bulk.as_bytes().windows(5).any(|value| value == b",nan,"));
}

#[test]
fn compatibility_projection_handles_negative_temperature_and_maximum_state() {
    let mut state = AppState::new(true, Some(-8));
    state.sink = measurement(u16::MAX, u16::MAX);
    for channel in &mut state.channels {
        channel.measurement = measurement(u16::MAX, u16::MAX);
        channel.current_limit_ma = u16::MAX;
        channel.setpoint_mv = u16::MAX;
    }

    let response = project_compat_query(b"MEAS:ALL?", &state).unwrap().unwrap();

    assert!(response
        .as_bytes()
        .windows(5)
        .any(|value| value == b",-0.5"));
    assert!(response.as_bytes().len() <= RESPONSE_CAPACITY);
    assert!(response.as_bytes().ends_with(b"65.54,65.54\r\n"));
}
