//! What the screens show.

use benchvolt_poc::app::{
    AppState, ControlFocus, Fault, OutputTransition, RegulationMode, TemperatureUnit,
};
use benchvolt_poc::view_projection::{
    awg_damage, centered_origin, channel_projection, detail_projection, framed_value_damage,
    pd_contract_label, seven_segment_mask, sink_projection, temperature_projection, AwgDamage,
    FramedValueDamage, SinkPdStatus, StatusProjection, TemperatureProjection,
};

#[test]
fn channel_status_precedence_is_fault_then_wait_then_on_then_off() {
    let mut state = AppState::new(true, Some(25 * 16));
    let output = &mut state.channels[0];

    assert!(channel_projection(output).status == StatusProjection::Off);

    output.requested_enabled = true;
    assert!(channel_projection(output).status == StatusProjection::Wait);

    output.physical_enabled = true;
    output.transition = OutputTransition::Enabling(1);
    assert!(channel_projection(output).status == StatusProjection::Wait);

    output.transition = OutputTransition::Stable;
    assert!(channel_projection(output).status == StatusProjection::On);

    // Any latched fault dominates every other status.
    output.fault = Fault::OverCurrent;
    assert!(channel_projection(output).status == StatusProjection::Fault);
}

#[test]
fn cc_indicator_asserts_only_while_the_drive_is_backed_off() {
    let mut state = AppState::new(true, Some(25 * 16));
    let output = &mut state.channels[4];
    output.regulation_mode = RegulationMode::Cc;
    output.physical_enabled = true;
    output.setpoint_mv = 12_000;
    output.drive_mv = 12_000;
    assert!(!channel_projection(output).regulating_current);

    output.drive_mv = 9_000;
    assert!(channel_projection(output).regulating_current);

    output.physical_enabled = false;
    assert!(!channel_projection(output).regulating_current);
}

#[test]
fn temperature_projects_tenths_in_both_units_and_flags_invalid() {
    let mut state = AppState::new(true, Some(25 * 16));
    state.temp_valid = true;
    state.temp_sixteenths_c = 25 * 16;
    assert!(
        temperature_projection(&state)
            == TemperatureProjection::Tenths(250, TemperatureUnit::Celsius)
    );

    state.temperature_unit = TemperatureUnit::Fahrenheit;
    assert!(
        temperature_projection(&state)
            == TemperatureProjection::Tenths(770, TemperatureUnit::Fahrenheit)
    );

    state.temp_valid = false;
    assert!(temperature_projection(&state) == TemperatureProjection::Invalid);
}

#[test]
fn detail_projection_derives_power_from_the_shared_row_projection() {
    let mut state = AppState::new(true, Some(25 * 16));
    let output = &mut state.channels[3];
    output.measurement = benchvolt_poc::app::Measurement {
        millivolts: 5_000,
        milliamps: 2_000,
        valid: true,
    };
    let detail = detail_projection(output, ControlFocus::Voltage);
    assert_eq!(detail.power_centiwatts, Some(1_000));
    assert_eq!(detail.voltage_centivolts, Some(500));
    assert_eq!(detail.current_centiamps, Some(200));

    output.measurement.valid = false;
    let detail = detail_projection(output, ControlFocus::Voltage);
    assert_eq!(detail.power_centiwatts, None);
    assert_eq!(detail.voltage_centivolts, None);
}

#[test]
fn toggle_knobs_share_the_track_center_at_both_sizes() {
    assert_eq!(centered_origin(5, 14, 10), 7);
    assert_eq!(centered_origin(130, 28, 22), 133);

    // Compare doubled centers to avoid fractional-pixel arithmetic.
    assert_eq!(2 * 5 + 14, 2 * 7 + 10);
    assert_eq!(2 * 130 + 28, 2 * 133 + 22);
}

#[test]
fn seven_segment_masks_cover_digits_and_minus_without_aliases() {
    assert_eq!(seven_segment_mask('0'), Some(0b111_0111));
    assert_eq!(seven_segment_mask('1'), Some(0b010_0100));
    assert_eq!(seven_segment_mask('8'), Some(0b111_1111));
    assert_eq!(seven_segment_mask('-'), Some(0b000_1000));
    assert_eq!(seven_segment_mask('.'), None);
}

#[test]
fn value_edits_preserve_the_existing_focus_frame() {
    assert_eq!(
        framed_value_damage(500, 501, true, true),
        FramedValueDamage::Value
    );
    assert_eq!(
        framed_value_damage(500, 501, false, false),
        FramedValueDamage::Value
    );
    assert_eq!(
        framed_value_damage(500, 501, false, true),
        FramedValueDamage::Frame
    );
    assert_eq!(
        framed_value_damage(500, 500, true, true),
        FramedValueDamage::Unchanged
    );
}

#[test]
fn sink_projection_keeps_latched_fault_visibly_asserted() {
    let mut state = AppState::new(true, None);
    state.sink = benchvolt_poc::app::Measurement {
        millivolts: 5_000,
        milliamps: 100,
        valid: true,
    };
    state.sink_current_limit_ma = 1_000;
    state.sink_fault = benchvolt_poc::app::Fault::OverCurrent;

    let projection = sink_projection(&state);
    assert!(projection.over_limit);
    assert_eq!(projection.current_centiamps, Some(10));
    assert_eq!(
        projection.pd_status,
        SinkPdStatus::Fault(benchvolt_poc::app::Fault::OverCurrent)
    );
}

#[test]
fn sink_projection_exposes_negotiated_contract_status() {
    let mut state = AppState::new(true, None);
    let contract = benchvolt_poc::pd::Contract {
        source_position: 3,
        millivolts: 20_000,
        operating_milliamps: 1_500,
        maximum_milliamps: 2_000,
    };
    state.pd_contract = Some(contract);

    assert_eq!(
        sink_projection(&state).pd_status,
        SinkPdStatus::Ready(contract)
    );
}

#[test]
fn compact_pd_label_preserves_fractional_contract_current() {
    let contract = benchvolt_poc::pd::Contract {
        source_position: 3,
        millivolts: 20_000,
        operating_milliamps: 1_500,
        maximum_milliamps: 3_000,
    };
    assert_eq!(pd_contract_label(contract).as_str(), "P3 20V 1.5A");

    let low_current = benchvolt_poc::pd::Contract {
        source_position: 2,
        millivolts: 9_000,
        operating_milliamps: 500,
        maximum_milliamps: 500,
    };
    assert_eq!(pd_contract_label(low_current).as_str(), "P2 9V 0.5A");
    assert!(pd_contract_label(contract).len() * 8 <= 104);
}

#[test]
fn sink_projection_distinguishes_idle_from_active_negotiation() {
    let mut state = AppState::new(false, Some(400));
    assert_eq!(sink_projection(&state).pd_status, SinkPdStatus::Idle);
    state.pd_negotiating = true;
    assert_eq!(sink_projection(&state).pd_status, SinkPdStatus::Negotiating);
}

#[test]
fn encoder_edit_invalidates_only_the_changed_value() {
    let old = AppState::new(true, None);
    let mut new = old;
    new.awg.frequency_millihz = 2_000;

    assert_eq!(
        awg_damage(&old, &new),
        AwgDamage {
            rows: 0,
            values: 1 << 2,
            ..AwgDamage::default()
        }
    );
}

#[test]
fn selection_invalidates_only_old_and_new_rows() {
    let mut old = AppState::new(true, None);
    old.menu_selection = 2;
    let mut new = old;
    new.menu_selection = 3;

    assert_eq!(
        awg_damage(&old, &new),
        AwgDamage {
            rows: (1 << 2) | (1 << 3),
            values: 0,
            ..AwgDamage::default()
        }
    );
}

#[test]
fn entering_edit_mode_invalidates_only_the_selected_row() {
    let mut old = AppState::new(true, None);
    old.menu_selection = 4;
    let mut new = old;
    new.awg_editing = true;

    assert_eq!(
        awg_damage(&old, &new),
        AwgDamage {
            rows: 1 << 4,
            values: 0,
            ..AwgDamage::default()
        }
    );
}

#[test]
fn scheduler_drive_updates_do_not_damage_awg_controls() {
    let old = AppState::new(true, None);
    let mut new = old;
    new.channels[3].drive_mv = 2_345;

    assert_eq!(awg_damage(&old, &new), AwgDamage::default());
}

#[test]
fn duty_edit_invalidates_only_duty_value() {
    let old = AppState::new(true, None);
    let mut new = old;
    new.awg.duty_percent = 67;
    assert_eq!(
        awg_damage(&old, &new),
        AwgDamage {
            rows: 0,
            values: 1 << 3,
            ..AwgDamage::default()
        }
    );
}

#[test]
fn waveform_change_also_invalidates_duty_availability() {
    let old = AppState::new(true, None);
    let mut new = old;
    new.awg.waveform = benchvolt_poc::app::AwgWaveform::Triangle;
    assert_eq!(
        awg_damage(&old, &new),
        AwgDamage {
            rows: 0,
            values: (1 << 1) | (1 << 3),
            ..AwgDamage::default()
        }
    );
}

#[test]
fn load_damage_tracks_only_text_visible_precision() {
    let mut old = AppState::new(true, None);
    old.awg_load = benchvolt_poc::app::LoadMeasurement {
        milliamps_rms: 420,
        milliwatts_average: 1_234,
        valid: true,
    };
    let mut hidden_change = old;
    hidden_change.awg_load.milliwatts_average = 1_239;
    assert_eq!(awg_damage(&old, &hidden_change), AwgDamage::default());

    let mut visible_change = old;
    visible_change.awg_load.milliwatts_average = 1_240;
    assert_eq!(
        awg_damage(&old, &visible_change),
        AwgDamage {
            load_power: true,
            ..AwgDamage::default()
        }
    );
}

#[test]
fn current_and_power_are_independent_damage_regions() {
    let mut old = AppState::new(true, None);
    old.awg_load = benchvolt_poc::app::LoadMeasurement {
        milliamps_rms: 420,
        milliwatts_average: 1_230,
        valid: true,
    };
    let mut new = old;
    new.awg_load.milliamps_rms = 421;
    assert_eq!(
        awg_damage(&old, &new),
        AwgDamage {
            load_current: true,
            ..AwgDamage::default()
        }
    );
}
