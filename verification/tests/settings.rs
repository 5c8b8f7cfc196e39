//! Stored settings.

use benchvolt_poc::app::{AppState, AwgConfig, RegulationMode, TemperatureUnit};
use benchvolt_poc::settings::{
    decode, encode, PersistentSettings, RecordKind, SettingsDebouncer, SettingsRecord,
};

#[test]
fn record_round_trips_and_rejects_torn_or_corrupt_data() {
    let record = SettingsRecord {
        sequence: 42,
        kind: RecordKind::Profile(1),
        settings: PersistentSettings {
            current_limits_ma: [100, 200, 300, 400, 500],
            ch4_voltage_mv: 2_500,
            ch5_voltage_mv: 12_000,
            ch4_regulation_mode: RegulationMode::Cc,
            ch5_regulation_mode: RegulationMode::Cc,
            sink_current_limit_ma: 4_250,
            temperature_unit: TemperatureUnit::Fahrenheit,
            awg: AwgConfig::default(),
        },
    };
    let encoded = encode(record);
    assert!(decode(&encoded) == Some(record));

    let mut torn = encoded;
    torn[44..48].fill(0xff);
    assert!(decode(&torn).is_none());

    let mut corrupt = encoded;
    corrupt[12] ^= 1;
    assert!(decode(&corrupt).is_none());

    let mut invalid_duty_record = record;
    invalid_duty_record.settings.awg.duty_percent = 0;
    assert!(decode(&encode(invalid_duty_record)).is_none());
}

#[test]
fn record_kinds_and_temperature_units_are_independent() {
    for kind in [
        RecordKind::Autosave,
        RecordKind::Profile(0),
        RecordKind::Profile(1),
        RecordKind::Profile(2),
    ] {
        for temperature_unit in [TemperatureUnit::Celsius, TemperatureUnit::Fahrenheit] {
            let record = SettingsRecord {
                sequence: 0x1234,
                kind,
                settings: PersistentSettings {
                    current_limits_ma: [10, 20, 30, 40, 50],
                    ch4_voltage_mv: 3_300,
                    ch5_voltage_mv: 9_000,
                    ch4_regulation_mode: RegulationMode::Cv,
                    ch5_regulation_mode: RegulationMode::Cc,
                    sink_current_limit_ma: 350,
                    temperature_unit,
                    awg: AwgConfig::default(),
                },
            };
            assert!(decode(&encode(record)) == Some(record));
        }
    }
}

#[test]
fn persistence_effect_debounces_edits_and_waits_for_stable_power() {
    let mut state = AppState::new(true, Some(25 * 16));
    let initial = PersistentSettings::from_state(&state);
    let mut effect = SettingsDebouncer::new(initial);
    state.channels[4].current_limit_ma = 400;
    let edited = PersistentSettings::from_state(&state);

    assert!(effect.tick(edited, true, true, 400).is_none());
    assert!(effect.tick(edited, true, true, 999).is_none());
    assert!(effect.tick(edited, false, true, 1).is_none());
    assert!(effect.tick(edited, true, false, 0).is_none());
    assert!(effect.tick(edited, true, true, 0) == Some(edited));
    effect.mark_saved(edited);
    assert!(effect.tick(edited, true, true, 5_000).is_none());

    state.channels[4].current_limit_ma = 410;
    let first = PersistentSettings::from_state(&state);
    assert!(effect.tick(first, true, true, 500).is_none());
    assert!(effect.tick(first, true, true, 500).is_none());
    state.channels[4].current_limit_ma = 420;
    let second = PersistentSettings::from_state(&state);
    assert!(effect.tick(second, true, true, 500).is_none());
    assert!(effect.tick(second, true, true, 999).is_none());
    assert!(effect.tick(second, true, true, 1) == Some(second));
}
