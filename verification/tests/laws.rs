//! Promises of the library as a whole, on concrete values.

use benchvolt_poc::app::{
    Action, AppReducer, AppState, AwgWaveform, ControlFocus, Fault, Measurement, Screen,
};
use benchvolt_poc::awg::Scheduler;
use benchvolt_poc::input_policy::ButtonTracker;
use benchvolt_poc::limits::stepped_u16;
use benchvolt_poc::pd::Contract;
use benchvolt_poc::power::FirmwareEffectPlanner;
use benchvolt_poc::protocol::parse_milliunits;
use benchvolt_poc::settings::{PersistentSettings, SettingsDebouncer};
use benchvolt_poc::view_projection::{pd_contract_label, seven_segment_mask};

fn ready() -> AppState {
    let mut state = AppState::new(true, Some(400));
    state.pd_contract = Some(Contract {
        source_position: 1,
        millivolts: 20_000,
        operating_milliamps: 3_000,
        maximum_milliamps: 3_000,
    });
    for channel in state.channels.iter_mut() {
        channel.measurement.valid = true;
    }
    state
}

#[test]
fn a_version_changes_exactly_with_the_state() {
    let state = ready();
    let same = AppReducer::reduce(&state, Action::GoMainMenu);
    assert!(same == state);
    let moved = AppReducer::reduce(&state, Action::NavigateMenu(1));
    assert_eq!(moved.version, state.version.wrapping_add(1));
}

#[test]
fn stale_reports_are_ignored() {
    let state = ready();
    let asked = AppReducer::reduce(
        &state,
        Action::SetOutputRequested { channel: 0, enabled: true },
    );
    let operation = asked.channels[0].operation;
    let stale = Action::OutputApplied {
        channel: 0,
        operation: operation.wrapping_add(1),
        enabled: true,
    };
    assert!(AppReducer::reduce(&asked, stale) == asked);
    let fresh = Action::OutputApplied { channel: 0, operation, enabled: true };
    assert!(AppReducer::reduce(&asked, fresh).channels[0].physical_enabled);
}

#[test]
fn a_failed_shutdown_claims_nothing() {
    let mut state = ready();
    state.channels[0].physical_enabled = true;
    let after = AppReducer::reduce(&state, Action::GlobalShutdownFailed);
    assert!(after.channels[0].physical_enabled);
    assert_eq!(after.channels[0].fault, Fault::Hardware);
    let after = AppReducer::reduce(&state, Action::GlobalShutdownApplied);
    assert!(after.outputs_physically_off());
}

#[test]
fn reports_plan_no_further_effect() {
    let state = ready();
    let asked = AppReducer::reduce(
        &state,
        Action::SetOutputRequested { channel: 3, enabled: true },
    );
    assert!(FirmwareEffectPlanner::plan(&state, &asked).is_some());
    let report = Action::OutputApplied {
        channel: 3,
        operation: asked.channels[3].operation,
        enabled: true,
    };
    let settled = AppReducer::reduce(&asked, report);
    assert_eq!(FirmwareEffectPlanner::plan(&asked, &settled), None);
}

#[test]
fn navigation_leaves_outputs_alone() {
    let mut state = ready();
    state.screen = Screen::Overview;
    state.channels[1].physical_enabled = true;
    for action in [Action::NextScreen, Action::PreviousScreen, Action::NextControl] {
        let after = AppReducer::reduce(&state, action);
        assert!(after.channels == state.channels);
    }
    assert_eq!(Screen::Channel(4).next(), Screen::UsbPdInput);
    assert_eq!(Screen::Channel(4).next().previous(), Screen::Channel(4));
    assert_eq!(ControlFocus::CurrentLimit.next(0), ControlFocus::Unfocused);
}

#[test]
fn a_live_drive_moves_in_bounded_steps() {
    let mut state = ready();
    state.channels[4].physical_enabled = true;
    state.channels[4].requested_enabled = true;
    let edited = AppReducer::reduce(&state, Action::SetVoltage { channel: 4, millivolts: 5_000 });
    assert_eq!(edited.channels[4].drive_mv, 12_000);
    let measurement = Measurement { millivolts: 12_000, milliamps: 0, valid: true };
    let slewed = AppReducer::reduce(&edited, Action::RegulateChannel { channel: 4, measurement });
    let step = edited.channels[4].drive_mv - slewed.channels[4].drive_mv;
    assert!(step > 0 && step <= 200);
}

#[test]
fn settings_are_restored_as_they_were_saved() {
    let mut state = ready();
    state.channels[3].setpoint_mv = 3_210;
    state.channels[3].drive_mv = 3_210;
    state.sink_current_limit_ma = 1_000;
    let saved = PersistentSettings::from_state(&state);
    let mut other = AppState::new(false, None);
    saved.apply_to(&mut other);
    assert!(PersistentSettings::from_state(&other) == saved);
    let mut debouncer = SettingsDebouncer::new(PersistentSettings::from_state(&ready()));
    assert!(debouncer.tick(saved, false, true, 60_000).is_none());
}

#[test]
fn waveform_samples_stay_between_their_levels() {
    let mut config = ready().awg;
    for waveform in
        [AwgWaveform::Square, AwgWaveform::Triangle, AwgWaveform::Ramp, AwgWaveform::Sine]
    {
        config.waveform = waveform;
        config.frequency_millihz = 7_000;
        let mut scheduler = Scheduler::new();
        assert_eq!(scheduler.tick(0, config), Some(config.low_mv));
        assert_eq!(scheduler.tick(0, config), None);
        for now in 1..2_000u16 {
            if let Some(sample) = scheduler.tick(now, config) {
                assert!((config.low_mv..=config.high_mv).contains(&sample));
            }
        }
    }
}

#[test]
fn a_reboot_needs_a_full_hold() {
    let mut button = ButtonTracker::new(true);
    assert_eq!(button.sample(1_000, false), None);
    assert_eq!(button.sample(1_400, false), None);
    assert_eq!(button.sample(1_500, false), Some(Action::GoMainMenu));
    assert_eq!(button.sample(3_999, false), None);
    assert_eq!(button.sample(4_000, false), Some(Action::RequestReboot));
    let mut button = ButtonTracker::new(true);
    assert_eq!(button.sample(1_000, false), None);
    assert_eq!(button.sample(1_020, true), None);
}

#[test]
fn numbers_are_read_exactly() {
    assert_eq!(parse_milliunits(b"1"), Some(1_000));
    assert_eq!(parse_milliunits(b"1.5"), Some(1_500));
    assert_eq!(parse_milliunits(b"0.001"), Some(1));
    assert_eq!(parse_milliunits(b"65.535"), Some(65_535));
    assert_eq!(parse_milliunits(b"65.536"), None);
    assert_eq!(parse_milliunits(b"1.0000"), None);
    assert_eq!(parse_milliunits(b".5"), None);
    assert_eq!(parse_milliunits(b"1."), None);
    assert_eq!(parse_milliunits(b"-1"), None);
}

#[test]
fn labels_and_digits_have_their_shape() {
    let label = pd_contract_label(Contract {
        source_position: 4,
        millivolts: 20_000,
        operating_milliamps: 5_000,
        maximum_milliamps: 5_000,
    });
    assert_eq!(label.as_str(), "P4 20V 5.0A");
    let other = pd_contract_label(Contract {
        source_position: 1,
        millivolts: 5_000,
        operating_milliamps: 900,
        maximum_milliamps: 3_000,
    });
    assert_ne!(label, other);
    assert_ne!(seven_segment_mask('1'), seven_segment_mask('7'));
}

#[test]
fn reports_of_nothing_new_leave_the_state_equal() {
    let contract = ready().pd_contract.unwrap();
    let state = AppReducer::reduce(&ready(), Action::PdNegotiated(contract));
    assert!(AppReducer::reduce(&state, Action::PdNegotiated(contract)) == state);
    let state = AppReducer::reduce(&state, Action::GlobalShutdownApplied);
    assert!(AppReducer::reduce(&state, Action::GlobalShutdownApplied) == state);
    let state = AppReducer::reduce(&state, Action::RequestReboot);
    assert!(AppReducer::reduce(&state, Action::RequestReboot) == state);
}

#[test]
fn only_an_edit_looks_up_the_channel_on_the_screen() {
    let mut state = ready();
    state.screen = Screen::Channel(9);
    let moved = AppReducer::reduce(&state, Action::GoMainMenu);
    assert_eq!(moved.screen, Screen::MainMenu);
    assert!(AppReducer::reduce(&state, Action::AdjustFocused(0)) == state);
}

#[test]
fn steps_of_any_size_are_clamped() {
    assert_eq!(stepped_u16(u16::MAX, i8::MIN, u16::MAX, 5, 100), 5);
    assert_eq!(stepped_u16(0, i8::MAX, u16::MAX, 5, 100), 100);
    assert_eq!(stepped_u16(u16::MAX, -1, 65_500, 5, 100), 35);
}
