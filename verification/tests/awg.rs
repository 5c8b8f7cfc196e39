//! Built-in waveforms.

use benchvolt_poc::app::{AwgConfig, AwgWaveform};
use benchvolt_poc::awg::Scheduler;

#[test]
fn a_late_service_emits_one_phase_correct_sample() {
    let config = AwgConfig {
        channel: 3,
        waveform: AwgWaveform::Square,
        frequency_millihz: 1_000,
        duty_percent: 50,
        low_mv: 1_000,
        high_mv: 5_000,
    };
    let mut scheduler = Scheduler::new();
    assert_eq!(scheduler.tick(0, config), Some(1_000));
    assert_eq!(scheduler.tick(0, config), None);
    assert_eq!(scheduler.tick(1_040, config), Some(5_000));
    assert_eq!(scheduler.tick(1_040, config), None);
}

#[test]
fn every_builtin_waveform_stays_inside_voltage_bounds_across_wrap() {
    for waveform in [
        AwgWaveform::Square,
        AwgWaveform::Triangle,
        AwgWaveform::Ramp,
        AwgWaveform::Sine,
    ] {
        let config = AwgConfig {
            waveform,
            ..AwgConfig::default()
        };
        let mut scheduler = Scheduler::new();
        for tick in (0..=65_000u16).step_by(20) {
            if let Some(sample) = scheduler.tick(tick, config) {
                assert!((config.low_mv..=config.high_mv).contains(&sample));
            }
        }
    }
}

#[test]
fn stop_resets_to_a_safe_low_first_sample() {
    let config = AwgConfig::default();
    let mut scheduler = Scheduler::new();
    scheduler.tick(0, config);
    scheduler.tick(800, config);
    scheduler.stop();
    assert_eq!(scheduler.tick(900, config), Some(config.low_mv));
}

#[test]
fn one_hertz_sine_has_hundreds_of_interpolated_steps() {
    let config = AwgConfig {
        waveform: AwgWaveform::Sine,
        ..AwgConfig::default()
    };
    let mut scheduler = Scheduler::new();
    let mut previous = None;
    let mut changes = 0;
    for tick in 0..2_000u16 {
        if let Some(sample) = scheduler.tick(tick, config) {
            if previous.is_some() && previous != Some(sample) {
                changes += 1;
            }
            previous = Some(sample);
        }
    }
    assert!(changes > 450);
}

#[test]
fn thirty_hertz_sine_has_at_least_thirty_distinct_samples_per_cycle() {
    let config = AwgConfig {
        waveform: AwgWaveform::Sine,
        frequency_millihz: 30_000,
        ..AwgConfig::default()
    };
    let mut scheduler = Scheduler::new();
    let mut previous = None;
    let mut changes = 0;
    for tick in 0..=67u16 {
        if let Some(sample) = scheduler.tick(tick, config) {
            if previous.is_some() && previous != Some(sample) {
                changes += 1;
            }
            previous = Some(sample);
        }
    }
    assert!(changes >= 60);
}

#[test]
fn one_hundred_twenty_hz_sine_has_at_least_sixteen_samples_per_cycle() {
    let config = AwgConfig {
        waveform: AwgWaveform::Sine,
        frequency_millihz: 120_000,
        ..AwgConfig::default()
    };
    let mut scheduler = Scheduler::new();
    let samples = (0..=17u16)
        .filter_map(|tick| scheduler.tick(tick, config))
        .count();
    assert!(samples >= 17);
}

fn landmarks(waveform: AwgWaveform) -> [u16; 5] {
    let config = AwgConfig {
        waveform,
        frequency_millihz: 1_000,
        low_mv: 1_000,
        high_mv: 5_000,
        ..AwgConfig::default()
    };
    let mut scheduler = Scheduler::new();
    [0, 500, 1_000, 1_500, 2_000].map(|tick| scheduler.tick(tick, config).unwrap())
}

#[test]
fn builtins_match_exact_quarter_cycle_landmarks() {
    assert_eq!(
        landmarks(AwgWaveform::Square),
        [1_000, 1_000, 5_000, 5_000, 1_000]
    );
    assert_eq!(
        landmarks(AwgWaveform::Ramp),
        [1_000, 2_000, 3_000, 4_000, 1_000]
    );
    for waveform in [AwgWaveform::Triangle, AwgWaveform::Sine] {
        for (actual, expected) in landmarks(waveform)
            .into_iter()
            .zip([1_000u16, 3_000, 5_000, 3_000, 1_000])
        {
            assert!(actual.abs_diff(expected) <= 1);
        }
    }
}

#[test]
fn square_duty_controls_high_time_and_other_shapes_ignore_it() {
    let config = AwgConfig {
        duty_percent: 25,
        ..AwgConfig::default()
    };
    let mut square = Scheduler::new();
    assert_eq!(square.tick(0, config), Some(config.low_mv));
    assert_eq!(square.tick(1_499, config), Some(config.low_mv));
    assert_eq!(square.tick(1_500, config), Some(config.high_mv));
    assert_eq!(square.tick(1_999, config), Some(config.high_mv));
    assert_eq!(square.tick(2_000, config), Some(config.low_mv));

    for waveform in [AwgWaveform::Triangle, AwgWaveform::Ramp, AwgWaveform::Sine] {
        let low_duty = AwgConfig {
            waveform,
            duty_percent: 1,
            ..AwgConfig::default()
        };
        let high_duty = AwgConfig {
            duty_percent: 99,
            ..low_duty
        };
        let mut first = Scheduler::new();
        let mut second = Scheduler::new();
        for tick in (0..=2_000u16).step_by(17) {
            assert_eq!(first.tick(tick, low_duty), second.tick(tick, high_duty));
        }
    }
}
