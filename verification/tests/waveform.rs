//! Waveform service.

use benchvolt_poc::app::{AwgConfig, AwgSource, AwgStatus};
use benchvolt_poc::arb::{Buffer, Start};
use benchvolt_poc::waveform::{Directive, Service};

fn start() -> Start {
    Start {
        channel: 3,
        count: 1,
        multiplier_ticks: 1,
        repetitions: 1,
    }
}

#[test]
fn arbitrary_running_without_session_metadata_demands_physical_shutdown() {
    let mut service = Service::new();
    assert_eq!(
        service.tick(
            AwgStatus::Running,
            AwgSource::Arbitrary,
            AwgConfig::default(),
            0,
            Some(&Buffer::new()),
        ),
        Directive::FailSafeShutdown
    );
}

#[test]
fn explicit_stop_clears_the_deferred_start_ack() {
    let mut service = Service::new();
    service.arm_arbitrary(start());
    assert_eq!(
        service.tick(
            AwgStatus::StopRequested,
            AwgSource::Arbitrary,
            AwgConfig::default(),
            0,
            None,
        ),
        Directive::Stop
    );
    assert_eq!(service.take_pending_arb_ack(), None);
}

#[test]
fn start_preparation_and_builtin_samples_are_single_directives() {
    let mut service = Service::new();
    assert_eq!(
        service.tick(
            AwgStatus::StartRequested,
            AwgSource::Builtin,
            AwgConfig::default(),
            0,
            None,
        ),
        Directive::PrepareStart
    );
    assert_eq!(
        service.tick(
            AwgStatus::Running,
            AwgSource::Builtin,
            AwgConfig::default(),
            0,
            None,
        ),
        Directive::Sample(AwgConfig::default().low_mv)
    );
}

#[test]
fn active_arbitrary_session_without_buffer_access_fails_safe() {
    let mut service = Service::new();
    service.arm_arbitrary(start());
    assert_eq!(
        service.tick(
            AwgStatus::Running,
            AwgSource::Arbitrary,
            AwgConfig::default(),
            0,
            None,
        ),
        Directive::FailSafeShutdown
    );
}
