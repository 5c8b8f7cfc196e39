//! The firmware loop: host commands and its own work.

use benchvolt_poc::app::{
    Action, AppState, AwgSource, AwgStatus, Fault, Measurement, ProfileRequest, ProfileStatus,
    RegulationMode, Screen,
};
use benchvolt_poc::arb::{DataChunk, Start};
use benchvolt_poc::firmware::{dispatch_at_once, handle_command, Answer, WaveformDesk, CommandOutcome};
use benchvolt_poc::firmware_service::{
    acknowledge_run, emergency_bits, pd_action, profile_stored, service_ch5_status,
    service_channel, service_profile_request, service_rail_current, service_rail_status,
    service_regulation, service_temperature, service_waveform, take_due, Cadence, ProfileWork,
};
use benchvolt_poc::monitoring::{ProtectionService, TpsStatusObservation};
use benchvolt_poc::negotiator::{PdEvent, ServiceEvent};
use benchvolt_poc::pd::{Contract, PdError};
use benchvolt_poc::power::{DriverOperation, PowerDriver, Rail};
use benchvolt_poc::settings::{PersistentSettings, RecordKind, SettingsRecord};
use benchvolt_poc::settings_store::{load_settings_store, SettingsStore, StoreJob};
use benchvolt_poc::usb_command::UsbIntent;

#[derive(Default)]
struct Driver {
    calls: Vec<DriverOperation>,
    failing: bool,
}

impl PowerDriver for Driver {
    type Error = ();

    fn apply(&mut self, operation: DriverOperation) -> Result<(), ()> {
        self.calls.push(operation);
        if self.failing {
            Err(())
        } else {
            Ok(())
        }
    }

    fn cancel_pending(&mut self) {}
}

fn contract() -> Contract {
    Contract {
        source_position: 1,
        millivolts: 20_000,
        operating_milliamps: 3_000,
        maximum_milliamps: 3_000,
    }
}

fn ready() -> AppState {
    let mut state = AppState::new(true, Some(400));
    state.pd_contract = Some(contract());
    for channel in state.channels.iter_mut() {
        channel.measurement.valid = true;
    }
    state
}

fn reply(state: &mut AppState, driver: &mut Driver, intent: UsbIntent) -> Answer {
    match handle_command(state, driver, &mut WaveformDesk::new(), intent) {
        CommandOutcome::Reply(answer) => answer,
        _ => panic!("no reply"),
    }
}

#[test]
fn answers_have_their_wording() {
    assert_eq!(Answer::Done.text(), b"OK\r\n");
    assert_eq!(Answer::OverTemperature.text(), b"ERR:OVERTEMP\r\n");
    assert_eq!(Answer::Jumping.text(), b"OK:JUMPING_TO_BOOTLOADER\r\n");
    assert_eq!(Answer::Stored(3).text(), b"OK:ACK:CH4\r\n");
    assert_eq!(
        Answer::Started { channel: 4, points: 1_024 }.text(),
        b"OK:CH5_ARB_STARTED_PTS:1024\r\n"
    );
}

#[test]
fn an_output_is_switched_on_and_off() {
    let mut state = ready();
    let mut driver = Driver::default();
    let on = UsbIntent::SetOutput { channel: 0, enabled: true };
    assert_eq!(reply(&mut state, &mut driver, on), Answer::Done);
    assert!(state.channels[0].physical_enabled);
    assert!(!driver.calls.is_empty());
    let off = UsbIntent::SetOutput { channel: 0, enabled: false };
    assert_eq!(reply(&mut state, &mut driver, off), Answer::Done);
    assert!(!state.channels[0].physical_enabled);
}

#[test]
fn a_failed_switch_is_answered_by_its_fault() {
    let mut state = ready();
    let mut driver = Driver { failing: true, ..Driver::default() };
    let on = UsbIntent::SetOutput { channel: 0, enabled: true };
    assert_eq!(reply(&mut state, &mut driver, on), Answer::Hardware);
    let mut state = ready();
    state.channels[0].measurement.valid = false;
    let mut driver = Driver::default();
    assert_eq!(reply(&mut state, &mut driver, on), Answer::Sensor);
    let mut state = ready();
    state.temp_sixteenths_c = 71 * 16;
    assert_eq!(reply(&mut state, &mut driver, on), Answer::OverTemperature);
}

#[test]
fn a_running_waveform_is_left_alone() {
    let mut state = ready();
    state.awg_status = AwgStatus::Running;
    let channel = state.active_awg_channel();
    let before = state;
    let mut driver = Driver::default();
    for intent in [
        UsbIntent::SetOutput { channel: 0, enabled: true },
        UsbIntent::SetVoltage { channel, millivolts: 2_000 },
        UsbIntent::SetRegulationMode { channel, mode: RegulationMode::Cc },
        UsbIntent::ArbStart(Start { channel, count: 1, multiplier_ticks: 1, repetitions: 0 }),
    ] {
        assert_eq!(reply(&mut state, &mut driver, intent), Answer::Busy);
        assert!(state == before);
    }
    assert!(driver.calls.is_empty());
    let off = UsbIntent::SetOutput { channel, enabled: false };
    assert_eq!(reply(&mut state, &mut driver, off), Answer::Done);
    assert_eq!(state.awg_status, AwgStatus::Stopped);
    assert_eq!(driver.calls.len(), 8);
}

#[test]
fn settings_are_answered_by_what_was_taken() {
    let mut state = ready();
    let mut driver = Driver::default();
    let limit = UsbIntent::SetCurrentLimit { channel: 1, milliamps: 1_500 };
    assert_eq!(reply(&mut state, &mut driver, limit), Answer::Done);
    assert_eq!(state.channels[1].current_limit_ma, 1_500);
    let voltage = UsbIntent::SetVoltage { channel: 4, millivolts: 9_000 };
    assert_eq!(reply(&mut state, &mut driver, voltage), Answer::Done);
    let mode = UsbIntent::SetRegulationMode { channel: 4, mode: RegulationMode::Cc };
    assert_eq!(reply(&mut state, &mut driver, mode), Answer::Done);
    let fixed = UsbIntent::SetRegulationMode { channel: 0, mode: RegulationMode::Cc };
    assert_eq!(reply(&mut state, &mut driver, fixed), Answer::Hardware);
    assert_eq!(reply(&mut state, &mut driver, UsbIntent::SetSinkCurrentLimit(2_000)), Answer::Done);
    assert_eq!(reply(&mut state, &mut driver, UsbIntent::SetSinkCurrentLimit(9_999)), Answer::Range);
    assert_eq!(reply(&mut state, &mut driver, UsbIntent::Reboot), Answer::Rebooting);
    assert!(state.reboot_requested);
}

#[test]
fn jumping_needs_every_output_off() {
    let mut state = ready();
    let mut desk = WaveformDesk::new();
    let jump = UsbIntent::JumpToBootloader;
    let mut driver = Driver::default();
    assert_eq!(handle_command(&mut state, &mut driver, &mut desk, jump), CommandOutcome::Jump);
    let mut driver = Driver { failing: true, ..Driver::default() };
    assert_eq!(
        handle_command(&mut state, &mut driver, &mut desk, jump),
        CommandOutcome::Reply(Answer::Hardware)
    );
    assert_eq!(
        handle_command(&mut state, &mut driver, &mut desk, UsbIntent::NoAction),
        CommandOutcome::Silent
    );
}

fn chunk(offset: u16, millivolts: [u16; 8]) -> DataChunk {
    DataChunk { channel: 4, offset, len: 8, millivolts }
}

#[test]
fn an_uploaded_waveform_is_stored_started_played_and_stopped() {
    let mut state = ready();
    let mut driver = Driver::default();
    let mut desk = WaveformDesk::new();
    let samples = [3_000, 3_100, 3_200, 3_300, 3_400, 3_300, 3_200, 3_100];
    let mut send = |state: &mut AppState, driver: &mut Driver, desk: &mut WaveformDesk, intent| {
        handle_command(state, driver, desk, intent)
    };
    let data = UsbIntent::ArbData(chunk(8, samples));
    assert_eq!(
        send(&mut state, &mut driver, &mut desk, data),
        CommandOutcome::Reply(Answer::Sequence)
    );
    let data = UsbIntent::ArbData(chunk(0, samples));
    assert_eq!(
        send(&mut state, &mut driver, &mut desk, data),
        CommandOutcome::Reply(Answer::Stored(4))
    );
    let start = Start { channel: 4, count: 9, multiplier_ticks: 2, repetitions: 1 };
    assert_eq!(
        send(&mut state, &mut driver, &mut desk, UsbIntent::ArbStart(start)),
        CommandOutcome::Reply(Answer::Incomplete)
    );
    let start = Start { count: 8, ..start };
    assert_eq!(
        send(&mut state, &mut driver, &mut desk, UsbIntent::ArbStart(start)),
        CommandOutcome::Silent
    );
    assert_eq!(state.awg_status, AwgStatus::StartRequested);
    assert_eq!(state.awg_source, AwgSource::Arbitrary);
    assert_eq!(acknowledge_run(&state, &mut desk.service), None);

    service_waveform(&mut state, &mut driver, &mut desk, 0);
    assert_eq!(state.awg_status, AwgStatus::Running);
    assert_eq!(
        acknowledge_run(&state, &mut desk.service),
        Some(Answer::Started { channel: 4, points: 8 })
    );
    assert_eq!(acknowledge_run(&state, &mut desk.service), None);
    service_waveform(&mut state, &mut driver, &mut desk, 0);
    assert_eq!(state.channels[4].drive_mv, 3_000);
    service_waveform(&mut state, &mut driver, &mut desk, 2);
    assert_eq!(state.channels[4].drive_mv, 3_100);
    service_waveform(&mut state, &mut driver, &mut desk, 18);
    assert_eq!(state.awg_status, AwgStatus::Stopped);
    assert!(state.outputs_physically_off());
    assert_eq!(desk.service.runtime.active, None);

    assert_eq!(
        send(&mut state, &mut driver, &mut desk, UsbIntent::ArbStop(4)),
        CommandOutcome::Reply(Answer::Done)
    );
}

#[test]
fn samples_outside_the_channel_are_refused() {
    let mut state = ready();
    let mut driver = Driver::default();
    let mut desk = WaveformDesk::new();
    let data = UsbIntent::ArbData(chunk(0, [60_000; 8]));
    handle_command(&mut state, &mut driver, &mut desk, data);
    let start = Start { channel: 4, count: 8, multiplier_ticks: 1, repetitions: 0 };
    assert_eq!(
        handle_command(&mut state, &mut driver, &mut desk, UsbIntent::ArbStart(start)),
        CommandOutcome::Reply(Answer::Range)
    );
}

#[test]
fn a_run_without_its_start_is_shut_down() {
    let mut state = ready();
    state.awg_status = AwgStatus::Running;
    state.awg_source = AwgSource::Arbitrary;
    let mut driver = Driver::default();
    let mut desk = WaveformDesk::new();
    service_waveform(&mut state, &mut driver, &mut desk, 0);
    assert_eq!(driver.calls.len(), 8);
    assert_eq!(state.awg_status, AwgStatus::Fault);
}

#[test]
fn stopping_a_run_withdraws_its_answer() {
    let mut state = ready();
    let mut driver = Driver::default();
    let mut desk = WaveformDesk::new();
    let data = UsbIntent::ArbData(chunk(0, [3_000; 8]));
    handle_command(&mut state, &mut driver, &mut desk, data);
    let start = Start { channel: 4, count: 8, multiplier_ticks: 1, repetitions: 0 };
    handle_command(&mut state, &mut driver, &mut desk, UsbIntent::ArbStart(start));
    assert_eq!(desk.service.pending_arb_ack(), Some(start));
    assert_eq!(
        handle_command(&mut state, &mut driver, &mut desk, UsbIntent::ArbStop(4)),
        CommandOutcome::Reply(Answer::Done)
    );
    assert_eq!(desk.service.pending_arb_ack(), None);
    assert_eq!(state.awg_status, AwgStatus::Stopped);
    assert_eq!(acknowledge_run(&state, &mut desk.service), None);
}

#[test]
fn a_waveform_fault_switches_everything_off() {
    let mut state = ready();
    state.awg_status = AwgStatus::Running;
    let mut driver = Driver::default();
    let mut desk = WaveformDesk::new();
    service_waveform(&mut state, &mut driver, &mut desk, 0);
    assert!(desk.service.builtin.is_active());
    state.awg_status = AwgStatus::Fault;
    driver.calls.clear();
    service_waveform(&mut state, &mut driver, &mut desk, 1);
    assert_eq!(driver.calls.len(), 8);
    assert!(!desk.service.builtin.is_active());
    service_waveform(&mut state, &mut driver, &mut desk, 2);
    assert_eq!(driver.calls.len(), 8);
    state.awg_status = AwgStatus::StopRequested;
    driver.failing = true;
    service_waveform(&mut state, &mut driver, &mut desk, 3);
    assert_eq!(state.awg_status, AwgStatus::Fault);
}

fn blank_store() -> SettingsStore {
    load_settings_store(&[0xff; 2_048])
}

#[test]
fn profiles_are_saved_loaded_and_reset() {
    let mut state = ready();
    let mut driver = Driver::default();
    let mut store = blank_store();
    assert!(matches!(
        service_profile_request(&mut state, &mut driver, &store),
        ProfileWork::Settled
    ));
    state.profile_request = ProfileRequest::Save(1);
    match service_profile_request(&mut state, &mut driver, &store) {
        ProfileWork::Store { slot, job } => {
            assert_eq!(slot, 1);
            assert!(matches!(job, StoreJob::Append { record } if record.kind == RecordKind::Profile(1)));
        }
        ProfileWork::Settled => panic!(),
    }
    profile_stored(&mut state, &mut driver, 1, true);
    assert_eq!(state.profile_status, ProfileStatus::Saved(1));
    state.profile_request = ProfileRequest::Load(0);
    service_profile_request(&mut state, &mut driver, &store);
    assert_eq!(state.profile_status, ProfileStatus::Empty(0));

    let mut settings = PersistentSettings::from_state(&state);
    settings.ch5_voltage_mv = 7_000;
    store.profiles[0] =
        Some(SettingsRecord { sequence: 1, kind: RecordKind::Profile(0), settings });
    state.profile_request = ProfileRequest::Load(0);
    service_profile_request(&mut state, &mut driver, &store);
    assert_eq!(state.profile_status, ProfileStatus::Loaded(0));
    assert_eq!(state.channels[4].setpoint_mv, 7_000);

    state.profile_request = ProfileRequest::FactoryDefaults;
    service_profile_request(&mut state, &mut driver, &store);
    assert_eq!(state.profile_status, ProfileStatus::DefaultsLoaded);
    assert_eq!(state.channels[4].setpoint_mv, 12_000);

    driver.failing = true;
    state.profile_request = ProfileRequest::FactoryDefaults;
    service_profile_request(&mut state, &mut driver, &store);
    assert_eq!(state.profile_status, ProfileStatus::Failed);
    profile_stored(&mut state, &mut driver, 1, false);
    assert_eq!(state.profile_status, ProfileStatus::Failed);
}

#[test]
fn heat_and_a_lost_sensor_trip_every_active_channel() {
    for (sample, fault) in [(Some(75 * 16), Fault::OverTemperature), (None, Fault::Sensor)] {
        let mut state = ready();
        let mut driver = Driver::default();
        let on = Action::SetOutputRequested { channel: 2, enabled: true };
        dispatch_at_once(&mut state, &mut driver, on);
        assert!(state.channels[2].physical_enabled);
        service_temperature(&mut state, &mut driver, sample);
        assert_eq!(state.channels[2].fault, fault);
        assert_eq!(state.channels[0].fault, Fault::Clear);
        assert!(!state.channels[2].physical_enabled);
    }
    let mut state = ready();
    let mut driver = Driver::default();
    service_temperature(&mut state, &mut driver, Some(74 * 16));
    assert!(driver.calls.is_empty());
    assert_eq!(state.temp_sixteenths_c, 74 * 16);
}

fn measured(millivolts: u16, milliamps: u16) -> Measurement {
    Measurement { millivolts, milliamps, valid: true }
}

#[test]
fn protection_trips_reach_the_hardware() {
    let mut state = ready();
    let mut driver = Driver::default();
    let mut protection = ProtectionService::default();
    for channel in [0, 4] {
        let on = Action::SetOutputRequested { channel, enabled: true };
        dispatch_at_once(&mut state, &mut driver, on);
    }
    let overcurrent = TpsStatusObservation::Value(0x80);
    service_rail_status(&mut state, &mut driver, &mut protection, Rail::Dc1, overcurrent);
    assert!(state.channels[0].physical_enabled);
    service_rail_status(&mut state, &mut driver, &mut protection, Rail::Dc1, overcurrent);
    assert_eq!(state.channels[0].fault, Fault::OverCurrent);
    assert!(!state.channels[0].physical_enabled);
    service_ch5_status(
        &mut state,
        &mut driver,
        &mut protection,
        TpsStatusObservation::ReadError,
    );
    assert_eq!(state.channels[4].fault, Fault::Hardware);

    let mut state = ready();
    let on = Action::SetOutputRequested { channel: 0, enabled: true };
    dispatch_at_once(&mut state, &mut driver, on);
    service_channel(&mut state, &mut driver, &mut protection, 0, measured(1_800, 3_400));
    assert_eq!(state.channels[0].fault, Fault::OverCurrent);

    let mut state = ready();
    for channel in [2, 3] {
        let on = Action::SetOutputRequested { channel, enabled: true };
        dispatch_at_once(&mut state, &mut driver, on);
    }
    let mut measurements = [measured(0, 0); 5];
    measurements[2] = measured(3_300, 2_900);
    measurements[3] = measured(5_000, 2_900);
    for _ in 0..10 {
        service_rail_current(&mut state, &mut driver, &mut protection, &measurements, Rail::Dc2);
    }
    assert_eq!(state.channels[2].fault, Fault::OverCurrent);
    assert_eq!(state.channels[3].fault, Fault::OverCurrent);
}

#[test]
fn regulation_rests_while_a_waveform_drives_the_channel() {
    let mut state = ready();
    let mut driver = Driver::default();
    state.awg_status = AwgStatus::Running;
    let channel = state.active_awg_channel();
    let before = state;
    service_regulation(&mut state, &mut driver, channel, measured(1, 1));
    assert!(state == before);
    let mut state = ready();
    let on = Action::SetOutputRequested { channel: 4, enabled: true };
    dispatch_at_once(&mut state, &mut driver, on);
    let set = Action::SetVoltage { channel: 4, millivolts: 11_000 };
    dispatch_at_once(&mut state, &mut driver, set);
    service_regulation(&mut state, &mut driver, 4, measured(12_000, 0));
    assert!(state.channels[4].drive_mv < 12_000);
}

#[test]
fn power_delivery_events_become_actions() {
    assert_eq!(pd_action(ServiceEvent::NegotiationStarted), Action::PdNegotiationStarted);
    assert_eq!(
        pd_action(ServiceEvent::Pd(PdEvent::Negotiated(contract()))),
        Action::PdNegotiated(contract())
    );
    assert_eq!(
        pd_action(ServiceEvent::Pd(PdEvent::Lost(PdError::Detached))),
        Action::PdFailed(PdError::Detached)
    );
}

#[test]
fn the_cadence_survives_the_wrap_of_the_clock() {
    let mut cadence = Cadence::new(65_530);
    assert_eq!(cadence.advance(14), 20);
    assert!(take_due(&mut cadence.measurement, 20));
    assert!(!take_due(&mut cadence.measurement, 20));
    assert!(!take_due(&mut cadence.temperature, 100));
    assert_eq!(cadence.advance(94), 80);
    assert!(take_due(&mut cadence.temperature, 100));
    assert_eq!(cadence.health, 100);
}

#[test]
fn the_emergency_covers_every_control() {
    let reset = |pin: u32| 1u32 << (pin + 16);
    assert_eq!(
        emergency_bits(),
        [reset(15), reset(2) | reset(6) | reset(7) | reset(15), reset(12) | reset(13)]
    );
}

#[test]
fn entering_the_waveform_screen_switches_everything_off() {
    let mut state = ready();
    let mut driver = Driver::default();
    let on = Action::SetOutputRequested { channel: 0, enabled: true };
    dispatch_at_once(&mut state, &mut driver, on);
    dispatch_at_once(&mut state, &mut driver, Action::NavigateMenu(1));
    dispatch_at_once(&mut state, &mut driver, Action::ActivateMenu);
    assert_eq!(state.screen, Screen::Awg);
    assert!(state.outputs_physically_off());
}

#[test]
fn a_new_desk_and_a_new_state_hold_nothing_played() {
    let desk = WaveformDesk::new();
    assert!(desk.buffer.millivolts.iter().all(|sample| *sample == 0));
    let run = AppState::new(true, None).arb_run;
    assert_eq!((run.channel, run.initial_mv, run.low_mv, run.high_mv), (3, 500, 500, 500));
}
