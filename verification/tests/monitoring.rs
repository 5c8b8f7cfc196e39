//! Runtime protection policy.

use benchvolt_poc::app::{Action, AppState, Fault};
use benchvolt_poc::monitoring::{ProtectionService, TpsStatusObservation};
use benchvolt_poc::power::Rail;

fn active_state(channel: usize) -> AppState {
    let mut state = AppState::new(true, Some(25 * 16));
    state.channels[channel].requested_enabled = true;
    state.channels[channel].physical_enabled = true;
    state
}

#[test]
fn shared_status_requires_same_fault_to_reassert() {
    let state = active_state(0);
    let mut service = ProtectionService::default();

    assert!(service
        .observe_shared_status(&state, Rail::Dc1, TpsStatusObservation::Value(0x40))
        .iter()
        .all(Option::is_none));
    let actions =
        service.observe_shared_status(&state, Rail::Dc1, TpsStatusObservation::Value(0x40));
    assert!(matches!(
        actions[0],
        Some(Action::ProtectionTrip {
            channel: 0,
            fault: Fault::OverCurrent
        })
    ));
    assert!(actions[1].is_none());
}

#[test]
fn status_clear_breaks_confirmation_and_ch5_read_failure_is_immediate() {
    let shared = active_state(0);
    let mut service = ProtectionService::default();
    let _ =
        service.observe_shared_status(&shared, Rail::Dc1, TpsStatusObservation::Value(0x40));
    let _ =
        service.observe_shared_status(&shared, Rail::Dc1, TpsStatusObservation::Value(0x00));
    assert!(service
        .observe_shared_status(&shared, Rail::Dc1, TpsStatusObservation::Value(0x40))
        .iter()
        .all(Option::is_none));

    let ch5 = active_state(4);
    assert!(matches!(
        service.observe_ch5_status(&ch5, TpsStatusObservation::ReadError),
        Some(Action::ProtectionTrip {
            channel: 4,
            fault: Fault::Hardware
        })
    ));
}

#[test]
fn temperature_failures_trip_only_active_outputs() {
    let mut state = active_state(1);
    state.channels[4].requested_enabled = true;
    assert_eq!(
        ProtectionService::temperature_fault(Some(75 * 16)),
        Some(Fault::OverTemperature)
    );
    assert_eq!(
        ProtectionService::temperature_fault(None),
        Some(Fault::Sensor)
    );
    assert_eq!(ProtectionService::temperature_fault(Some(74 * 16)), None);

    let actions = ProtectionService::temperature_trip_actions(&state, Fault::Sensor);
    assert!(actions[0].is_none());
    assert!(matches!(
        actions[1],
        Some(Action::ProtectionTrip {
            channel: 1,
            fault: Fault::Sensor
        })
    ));
    assert!(matches!(
        actions[4],
        Some(Action::ProtectionTrip {
            channel: 4,
            fault: Fault::Sensor
        })
    ));
}
