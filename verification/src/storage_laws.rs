//! What stored settings promise.

use crate::app::{AppState, AwgSource, AwgWaveform, RegulationMode, TemperatureUnit};
use crate::firmware_service::save_job;
use crate::little_endian::le32;
use crate::record::{acceptable, encoded, half, held_in, storable, RecordKind, SettingsRecord};
use crate::settings::PersistentSettings;
use crate::settings_store::{
    newest, slot_half_words, SettingsStore, StoreJob,
};
use vstd::prelude::*;

verus! {

broadcast use crate::app::group_map_channels;

/// What is saved of a state is what can be set: the five current limits, the
/// voltage and the regulation of the two adjustable channels, the input limit,
/// the unit of the temperature, and the waveform.
pub proof fn settings_are_what_can_be_set(state: AppState, settings: PersistentSettings)
    requires
        settings.taken_from(state),
    ensures
        settings.current_limits_ma[0] == state.channels[0].current_limit_ma,
        settings.current_limits_ma[1] == state.channels[1].current_limit_ma,
        settings.current_limits_ma[2] == state.channels[2].current_limit_ma,
        settings.current_limits_ma[3] == state.channels[3].current_limit_ma,
        settings.current_limits_ma[4] == state.channels[4].current_limit_ma,
        settings.ch4_voltage_mv == state.channels[3].setpoint_mv,
        settings.ch5_voltage_mv == state.channels[4].setpoint_mv,
        settings.ch4_regulation_mode == state.channels[3].regulation_mode,
        settings.ch5_regulation_mode == state.channels[4].regulation_mode,
        settings.sink_current_limit_ma == state.sink_current_limit_ma,
        settings.temperature_unit == state.temperature_unit,
        settings.awg == state.awg,
{
}

/// The settings of a device that was never configured: 3 A on every channel,
/// 5 V and 12 V in constant voltage, 5 A at the input, degrees Celsius, and a
/// square of 1 Hz and half duty between 1 V and 5 V.
pub proof fn factory_settings(settings: PersistentSettings, index: int)
    requires
        settings.is_factory(),
        0 <= index < 5,
    ensures
        settings.current_limits_ma[index] == 3_000,
        settings.ch4_voltage_mv == 5_000,
        settings.ch5_voltage_mv == 12_000,
        settings.ch4_regulation_mode == RegulationMode::Cv,
        settings.ch5_regulation_mode == RegulationMode::Cv,
        settings.sink_current_limit_ma == 5_000,
        settings.temperature_unit == TemperatureUnit::Celsius,
        settings.awg.channel == 3,
        settings.awg.waveform == AwgWaveform::Square,
        settings.awg.frequency_millihz == 1_000,
        settings.awg.duty_percent == 50,
        settings.awg.low_mv == 1_000,
        settings.awg.high_mv == 5_000,
{
}

/// Settings that come from storage are in force inside the limits of the
/// product; they switch nothing and leave everything else as it is.
pub proof fn restored_settings_stay_inside_the_limits(
    settings: PersistentSettings,
    fresh: AppState,
    index: int,
)
    requires
        0 <= index < 5,
    ensures
        ({
            let next = settings.applied_to(fresh);
            let limit = settings.current_limits_ma[index];
            let channel = next.channels[index];
            let voltage = if index == 3 {
                settings.ch4_voltage_mv
            } else {
                settings.ch5_voltage_mv
            };
            let low: int = if index == 3 {
                500
            } else {
                800
            };
            let high: int = if index == 3 {
                5_000
            } else {
                22_000
            };
            &&& limit <= 3_000 ==> channel.current_limit_ma == limit
            &&& limit > 3_000 ==> channel.current_limit_ma == 3_000
            &&& index >= 3 ==> low <= channel.setpoint_mv <= high
            &&& index >= 3 && low <= voltage <= high ==> channel.setpoint_mv == voltage
            &&& index >= 3 && voltage < low ==> channel.setpoint_mv == low
            &&& index >= 3 && voltage > high ==> channel.setpoint_mv == high
            &&& index >= 3 ==> channel.drive_mv == channel.setpoint_mv
            &&& index < 3 ==> channel.setpoint_mv == fresh.channels[index].setpoint_mv
                && channel.drive_mv == fresh.channels[index].drive_mv
            &&& index == 3 ==> channel.regulation_mode == settings.ch4_regulation_mode
            &&& index == 4 ==> channel.regulation_mode == settings.ch5_regulation_mode
            &&& channel.physical_enabled == fresh.channels[index].physical_enabled
            &&& channel.requested_enabled == fresh.channels[index].requested_enabled
            &&& channel.fault == fresh.channels[index].fault
            &&& channel.transition == fresh.channels[index].transition
            &&& settings.sink_current_limit_ma <= 5_000 ==> next.sink_current_limit_ma
                == settings.sink_current_limit_ma
            &&& settings.sink_current_limit_ma > 5_000 ==> next.sink_current_limit_ma == 5_000
            &&& next.temperature_unit == settings.temperature_unit
            &&& next.awg_source == AwgSource::Builtin
            &&& next.screen == fresh.screen
            &&& next.pd_contract == fresh.pd_contract
        }),
{
}

/// A stored waveform is restored inside the limits of its channel; one that no
/// channel can generate is replaced by the factory's.
pub proof fn restored_waveforms_stay_inside_the_limits(
    settings: PersistentSettings,
    fresh: AppState,
)
    ensures
        ({
            let stored = settings.awg;
            let awg = settings.applied_to(fresh).awg;
            let generated = stored.channel == 3 || stored.channel == 4;
            let low: int = if stored.channel == 3 {
                500
            } else {
                800
            };
            let high: int = if stored.channel == 3 {
                5_000
            } else {
                22_000
            };
            &&& !generated ==> awg.channel == 3 && awg.waveform == AwgWaveform::Square
                && awg.frequency_millihz == 1_000 && awg.duty_percent == 50 && awg.low_mv == 1_000
                && awg.high_mv == 5_000
            &&& generated ==> awg.channel == stored.channel && awg.waveform == stored.waveform
            &&& generated ==> low <= awg.low_mv <= awg.high_mv <= high
            &&& generated ==> 100 <= awg.frequency_millihz <= 120_000
            &&& generated ==> 1 <= awg.duty_percent <= 99
            &&& generated && low <= stored.low_mv <= stored.high_mv <= high ==> awg.low_mv
                == stored.low_mv && awg.high_mv == stored.high_mv
            &&& generated && 100 <= stored.frequency_millihz <= 120_000 ==> awg.frequency_millihz
                == stored.frequency_millihz
            &&& generated && 1 <= stored.duty_percent <= 99 ==> awg.duty_percent
                == stored.duty_percent
        }),
{
}

/// Nothing is read from a record whose values the product does not allow.
pub proof fn only_allowed_values_are_read(bytes: Seq<u8>, record: SettingsRecord, index: int)
    requires
        acceptable(bytes),
        held_in(record, bytes),
        0 <= index < 5,
    ensures
        le32(bytes, 0) == 0x4256_5333,
        le32(bytes, 44) == 0x434f_4d54,
        record.settings.current_limits_ma[index] <= 3_000,
        500 <= record.settings.ch4_voltage_mv <= 5_000,
        800 <= record.settings.ch5_voltage_mv <= 22_000,
        record.settings.sink_current_limit_ma <= 5_000,
        record.settings.awg.channel == 3 || record.settings.awg.channel == 4,
        100 <= record.settings.awg.frequency_millihz <= 120_000,
        1 <= record.settings.awg.duty_percent <= 99,
        record.settings.awg.low_mv <= record.settings.awg.high_mv,
        record.settings.awg.channel == 3 ==> 500 <= record.settings.awg.low_mv
            && record.settings.awg.high_mv <= 5_000,
        record.settings.awg.channel == 4 ==> 800 <= record.settings.awg.low_mv
            && record.settings.awg.high_mv <= 22_000,
{
    assert(record.settings.current_limits_ma[index] == half(bytes, 8 + 2 * index));
}

/// A stored record has 48 bytes, begins with its magic word and ends with its
/// commit word, and a reader finds in it what was stored.
pub proof fn records_are_found_again(record: SettingsRecord)
    requires
        storable(record),
    ensures
        encoded(record).len() == 48,
        le32(encoded(record), 0) == 0x4256_5333,
        le32(encoded(record), 44) == 0x434f_4d54,
        le32(encoded(record), 40) == crate::record::checksum(encoded(record).take(40)),
{
    crate::record::lemma_layout(record);
}

/// A save waits for every output to be off. It stores the settings under their
/// kind, with the next number after the newest of that kind, and makes room
/// first where the journal's 42 slots are used up.
pub proof fn saves_are_numbered(
    state: AppState,
    store: SettingsStore,
    slot: u8,
    settings: PersistentSettings,
)
    requires
        slot < 3,
    ensures
        ({
            let job = save_job(state, store, slot, settings);
            let record = store.successor(RecordKind::Profile(slot), settings);
            let dark = !state.channels[0].physical_enabled && !state.channels[1].physical_enabled
                && !state.channels[2].physical_enabled && !state.channels[3].physical_enabled
                && !state.channels[4].physical_enabled;
            &&& !dark ==> job == (StoreJob::Done { saved: false })
            &&& dark && store.next_slot < 42 ==> job == (StoreJob::Append { record })
            &&& dark && store.next_slot >= 42 ==> job == (StoreJob::Erase {
                append: Some(record),
            })
            &&& record.kind == RecordKind::Profile(slot)
            &&& record.settings == settings
            &&& store.profiles[slot as int] is None ==> record.sequence == 1
            &&& store.profiles[slot as int] matches Some(held) ==> held.sequence < 0xffff_ffff
                ==> record.sequence == held.sequence + 1
        }),
{
}

/// An autosave is numbered after the newest autosave, whatever the profiles are.
pub proof fn autosaves_are_numbered(store: SettingsStore, settings: PersistentSettings)
    ensures
        ({
            let record = store.successor(RecordKind::Autosave, settings);
            &&& record.kind == RecordKind::Autosave
            &&& record.settings == settings
            &&& store.latest is None ==> record.sequence == 1
            &&& store.latest matches Some(held) ==> held.sequence < 0xffff_ffff
                ==> record.sequence == held.sequence + 1
        }),
{
}

/// A record that was written replaces the one of its kind, and no other.
pub proof fn a_written_record_replaces_its_own(
    store: SettingsStore,
    record: SettingsRecord,
    slot: u8,
)
    requires
        store.next_slot < 42,
        slot < 3,
        record.kind matches RecordKind::Profile(own) ==> own < 3,
    ensures
        ({
            let next = store.extended(record);
            &&& next.next_slot == store.next_slot + 1
            &&& record.kind == RecordKind::Autosave ==> next.latest == Some(record)
            &&& record.kind != RecordKind::Autosave ==> next.latest == store.latest
            &&& record.kind == RecordKind::Profile(slot) ==> next.profiles[slot as int] == Some(
                record,
            )
            &&& record.kind != RecordKind::Profile(slot) ==> next.profiles[slot as int]
                == store.profiles[slot as int]
        }),
{
}

/// Of the records of a kind, the one with the highest number is loaded.
pub proof fn the_newest_record_is_loaded(
    page: Seq<u8>,
    kind: RecordKind,
    found: Option<SettingsRecord>,
    other: int,
)
    requires
        newest(page, 42, kind, found),
        0 <= other < 42,
        crate::settings_store::holds(crate::settings_store::slot_bytes(page, other), kind),
    ensures
        found matches Some(record) && record.sequence >= le32(
            page.subrange(48 * other, 48 * other + 48),
            4,
        ) % 0x4000_0000 && record.kind == kind,
{
    let bytes = crate::settings_store::slot_bytes(page, other);
    assert(bytes == page.subrange(48 * other, 48 * other + 48));
}

/// A record is programmed half-word by half-word, each at its address in the
/// slot.
pub proof fn slots_are_programmed_in_place(slot: int, bytes: Seq<u8>, index: int)
    requires
        0 <= slot < 42,
        bytes.len() == 48,
        0 <= index < 24,
    ensures
        slot_half_words(slot, bytes).len() == 24,
        slot_half_words(slot, bytes)[index].0 == slot_half_words(0, bytes)[0].0 + 48 * slot + 2
            * index,
        slot_half_words(slot, bytes)[index].1 == bytes[2 * index] + 0x100 * bytes[2 * index + 1],
{
}

} // verus!
