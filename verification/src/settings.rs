//! Persistent settings: what is stored, how it is stored, and when.

pub use crate::record::{decode, encode, RecordKind, SettingsRecord, RECORD_SIZE};

use crate::app::{
    AppState, AwgConfig, AwgSource, ChannelSnapshot, RegulationMode, TemperatureUnit,
};
use crate::limits::{
    clamp_u16, clamp_u32, clamped, max_voltage, min_voltage, voltage_range,
    AWG_MIN_FREQUENCY_MILLIHZ, CH4_MAX_VOLTAGE_MV, CH4_MIN_VOLTAGE_MV, CH5_MAX_VOLTAGE_MV,
    CH5_MIN_VOLTAGE_MV, CHANNEL_MAX_CURRENT_MA, SINK_MAX_CURRENT_MA,
};
use vstd::prelude::*;

verus! {

broadcast use crate::app::group_map_channels;

#[derive(Clone, Copy, Debug, PartialEq, Eq)]
pub struct PersistentSettings {
    pub current_limits_ma: [u16; 5],
    pub ch4_voltage_mv: u16,
    pub ch5_voltage_mv: u16,
    pub ch4_regulation_mode: RegulationMode,
    pub ch5_regulation_mode: RegulationMode,
    pub sink_current_limit_ma: u16,
    pub temperature_unit: TemperatureUnit,
    pub awg: AwgConfig,
}

/// A stored waveform configuration moved inside the limits of its channel; a
/// configuration for a channel that generates no waveforms is replaced.
pub open spec fn sanitized_awg(awg: AwgConfig) -> AwgConfig {
    if awg.channel == 3 || awg.channel == 4 {
        let low = clamped(
            awg.low_mv as int,
            min_voltage(awg.channel as int) as int,
            max_voltage(awg.channel as int) as int,
        );
        AwgConfig {
            channel: awg.channel,
            waveform: awg.waveform,
            frequency_millihz: clamped(
                awg.frequency_millihz as int,
                AWG_MIN_FREQUENCY_MILLIHZ as int,
                awg.waveform.frequency_limit() as int,
            ) as u32,
            duty_percent: clamped(awg.duty_percent as int, 1, 99) as u8,
            low_mv: low as u16,
            high_mv: clamped(
                awg.high_mv as int,
                low,
                max_voltage(awg.channel as int) as int,
            ) as u16,
        }
    } else {
        AwgConfig::initial()
    }
}

impl PersistentSettings {
    /// Channel `index` of `before` with these settings in force.
    pub open spec fn applied_channel(self, before: ChannelSnapshot, index: int) -> ChannelSnapshot {
        let limited = ChannelSnapshot {
            current_limit_ma: if self.current_limits_ma[index] < CHANNEL_MAX_CURRENT_MA {
                self.current_limits_ma[index]
            } else {
                CHANNEL_MAX_CURRENT_MA
            },
            ..before
        };
        if index == 3 {
            let voltage = clamped(
                self.ch4_voltage_mv as int,
                CH4_MIN_VOLTAGE_MV as int,
                CH4_MAX_VOLTAGE_MV as int,
            ) as u16;
            ChannelSnapshot {
                setpoint_mv: voltage,
                drive_mv: voltage,
                regulation_mode: self.ch4_regulation_mode,
                ..limited
            }
        } else if index == 4 {
            let voltage = clamped(
                self.ch5_voltage_mv as int,
                CH5_MIN_VOLTAGE_MV as int,
                CH5_MAX_VOLTAGE_MV as int,
            ) as u16;
            ChannelSnapshot {
                setpoint_mv: voltage,
                drive_mv: voltage,
                regulation_mode: self.ch5_regulation_mode,
                ..limited
            }
        } else {
            limited
        }
    }

    /// `before` with these settings in force, and with nothing else changed.
    pub open spec fn applied_to(self, before: AppState) -> AppState {
        AppState {
            sink_current_limit_ma: if self.sink_current_limit_ma < SINK_MAX_CURRENT_MA {
                self.sink_current_limit_ma
            } else {
                SINK_MAX_CURRENT_MA
            },
            temperature_unit: self.temperature_unit,
            awg: sanitized_awg(self.awg),
            awg_source: AwgSource::Builtin,
            ..before.map_channels(
                |i: int, channel: ChannelSnapshot| self.applied_channel(channel, i),
            )
        }
    }

    /// `self` holds exactly the persistent part of `state`.
    pub open spec fn taken_from(self, state: AppState) -> bool {
        &&& forall|i: int|
            0 <= i < 5 ==> #[trigger] self.current_limits_ma[i]
                == state.channels[i].current_limit_ma
        &&& self.ch4_voltage_mv == state.channels[3].setpoint_mv
        &&& self.ch5_voltage_mv == state.channels[4].setpoint_mv
        &&& self.ch4_regulation_mode == state.channels[3].regulation_mode
        &&& self.ch5_regulation_mode == state.channels[4].regulation_mode
        &&& self.sink_current_limit_ma == state.sink_current_limit_ma
        &&& self.temperature_unit == state.temperature_unit
        &&& self.awg == state.awg
    }

    /// True of the settings of a device that was never configured.
    pub open spec fn is_factory(self) -> bool {
        &&& forall|i: int|
            0 <= i < 5 ==> #[trigger] self.current_limits_ma[i] == CHANNEL_MAX_CURRENT_MA
        &&& self.ch4_voltage_mv == 5_000
        &&& self.ch5_voltage_mv == 12_000
        &&& self.ch4_regulation_mode == RegulationMode::Cv
        &&& self.ch5_regulation_mode == RegulationMode::Cv
        &&& self.sink_current_limit_ma == SINK_MAX_CURRENT_MA
        &&& self.temperature_unit == TemperatureUnit::Celsius
        &&& self.awg == AwgConfig::initial()
    }

    /// The persistent part of the application state.
    pub fn from_state(state: &AppState) -> (settings: Self)
        ensures
            settings.taken_from(*state),
    {
        PersistentSettings {
            current_limits_ma: [
                state.channels[0].current_limit_ma,
                state.channels[1].current_limit_ma,
                state.channels[2].current_limit_ma,
                state.channels[3].current_limit_ma,
                state.channels[4].current_limit_ma,
            ],
            ch4_voltage_mv: state.channels[3].setpoint_mv,
            ch5_voltage_mv: state.channels[4].setpoint_mv,
            ch4_regulation_mode: state.channels[3].regulation_mode,
            ch5_regulation_mode: state.channels[4].regulation_mode,
            sink_current_limit_ma: state.sink_current_limit_ma,
            temperature_unit: state.temperature_unit,
            awg: state.awg,
        }
    }

    fn sanitize_awg(awg: AwgConfig) -> (config: AwgConfig)
        ensures
            config == sanitized_awg(awg),
            config.wf(),
    {
        if awg.channel != 3 && awg.channel != 4 {
            return AwgConfig::default();
        }
        let range = voltage_range(awg.channel);
        let low_mv: u16 = clamp_u16(awg.low_mv, range.0, range.1);
        AwgConfig {
            channel: awg.channel,
            waveform: awg.waveform,
            frequency_millihz: clamp_u32(
                awg.frequency_millihz,
                AWG_MIN_FREQUENCY_MILLIHZ,
                awg.waveform.max_frequency_millihz(),
            ),
            duty_percent: if awg.duty_percent < 1 {
                1
            } else if awg.duty_percent > 99 {
                99
            } else {
                awg.duty_percent
            },
            low_mv,
            high_mv: clamp_u16(awg.high_mv, low_mv, range.1),
        }
    }

    /// Puts the settings in force. Values outside the product's limits are
    /// moved inside first, so nothing stored can carry the device outside them.
    pub fn apply_to(self, state: &mut AppState)
        ensures
            *final(state) == self.applied_to(*old(state)),
            old(state).wf() ==> final(state).wf(),
    {
        let ghost before = *state;
        let mut channels: [ChannelSnapshot; 5] = state.channels;
        let mut index: usize = 0;
        while index < 5
            invariant
                index <= 5,
                before == *old(state),
                forall|i: int|
                    0 <= i < index ==> #[trigger] channels[i] == (ChannelSnapshot {
                        current_limit_ma: if self.current_limits_ma[i] < CHANNEL_MAX_CURRENT_MA {
                            self.current_limits_ma[i]
                        } else {
                            CHANNEL_MAX_CURRENT_MA
                        },
                        ..before.channels[i]
                    }),
                forall|i: int| index <= i < 5 ==> #[trigger] channels[i] == before.channels[i],
            decreases 5 - index,
        {
            let mut channel: ChannelSnapshot = channels[index];
            let limit: u16 = self.current_limits_ma[index];
            channel.current_limit_ma = if limit < CHANNEL_MAX_CURRENT_MA {
                limit
            } else {
                CHANNEL_MAX_CURRENT_MA
            };
            channels[index] = channel;
            index = index + 1;
        }
        let mut ch4: ChannelSnapshot = channels[3];
        ch4.setpoint_mv = clamp_u16(self.ch4_voltage_mv, CH4_MIN_VOLTAGE_MV, CH4_MAX_VOLTAGE_MV);
        ch4.drive_mv = ch4.setpoint_mv;
        ch4.regulation_mode = self.ch4_regulation_mode;
        channels[3] = ch4;
        let mut ch5: ChannelSnapshot = channels[4];
        ch5.setpoint_mv = clamp_u16(self.ch5_voltage_mv, CH5_MIN_VOLTAGE_MV, CH5_MAX_VOLTAGE_MV);
        ch5.drive_mv = ch5.setpoint_mv;
        ch5.regulation_mode = self.ch5_regulation_mode;
        channels[4] = ch5;
        state.channels = channels;
        state.sink_current_limit_ma = if self.sink_current_limit_ma < SINK_MAX_CURRENT_MA {
            self.sink_current_limit_ma
        } else {
            SINK_MAX_CURRENT_MA
        };
        state.temperature_unit = self.temperature_unit;
        state.awg = Self::sanitize_awg(self.awg);
        state.awg_source = AwgSource::Builtin;
        assert(state.channels =~= self.applied_to(before).channels);
    }
}

/// What the application saves is what a start restores: settings taken from a
/// well-formed state come through `apply_to` unchanged.
pub proof fn saved_settings_are_restored(
    saved: AppState,
    settings: PersistentSettings,
    fresh: AppState,
    restored: PersistentSettings,
)
    requires
        saved.wf(),
        settings.taken_from(saved),
        restored.taken_from(settings.applied_to(fresh)),
    ensures
        restored == settings,
{
    let applied = settings.applied_to(fresh);
    assert forall|i: int| 0 <= i < 5 implies (#[trigger] restored.current_limits_ma[i])
        == settings.current_limits_ma[i] by {
        assert(saved.channels[i].current_limit_ma <= CHANNEL_MAX_CURRENT_MA);
        assert(applied.channels[i] == settings.applied_channel(fresh.channels[i], i));
    }
    assert(applied.channels[3] == settings.applied_channel(fresh.channels[3], 3));
    assert(applied.channels[4] == settings.applied_channel(fresh.channels[4], 4));
    assert(min_voltage(3) <= saved.channels[3].setpoint_mv <= max_voltage(3));
    assert(min_voltage(4) <= saved.channels[4].setpoint_mv <= max_voltage(4));
    assert(restored.current_limits_ma =~= settings.current_limits_ma);
}

/// Compares two sets of settings.
pub(crate) fn same_settings(left: &PersistentSettings, right: &PersistentSettings) -> (same: bool)
    ensures
        same == (*left == *right),
{
    let mut index: usize = 0;
    while index < 5
        invariant
            index <= 5,
            forall|i: int|
                0 <= i < index ==> (#[trigger] left.current_limits_ma[i])
                    == right.current_limits_ma[i],
        decreases 5 - index,
    {
        if left.current_limits_ma[index] != right.current_limits_ma[index] {
            assert(left.current_limits_ma[index as int] != right.current_limits_ma[index as int]);
            return false;
        }
        index = index + 1;
    }
    assert(left.current_limits_ma =~= right.current_limits_ma);
    left.ch4_voltage_mv == right.ch4_voltage_mv && left.ch5_voltage_mv == right.ch5_voltage_mv
        && left.ch4_regulation_mode == right.ch4_regulation_mode && left.ch5_regulation_mode
        == right.ch5_regulation_mode && left.sink_current_limit_ma == right.sink_current_limit_ma
        && left.temperature_unit == right.temperature_unit && left.awg == right.awg
}

/// Settings must rest this long before they are saved.
pub const SAVE_QUIET_MS: u16 = 1_000;

/// Decides when edited settings are worth a flash write: once they have
/// rested, no output is being switched, and every output is off.
pub struct SettingsDebouncer {
    pub observed: PersistentSettings,
    pub saved: PersistentSettings,
    pub quiet_ms: u16,
}

impl SettingsDebouncer {
    /// The time the current settings have rested, after `elapsed_ms` more.
    pub open spec fn rested(self, elapsed_ms: u16) -> u16 {
        if self.quiet_ms + elapsed_ms > u16::MAX {
            u16::MAX
        } else {
            (self.quiet_ms + elapsed_ms) as u16
        }
    }

    /// The debouncer after one tick, and the settings to save.
    pub open spec fn after(
        self,
        current: PersistentSettings,
        transitions_stable: bool,
        outputs_physically_off: bool,
        elapsed_ms: u16,
    ) -> (Self, Option<PersistentSettings>) {
        if current != self.observed {
            (SettingsDebouncer { observed: current, quiet_ms: 0, ..self }, None)
        } else if current == self.saved {
            (self, None)
        } else if self.rested(elapsed_ms) >= SAVE_QUIET_MS && transitions_stable
            && outputs_physically_off {
            (SettingsDebouncer { quiet_ms: 0, ..self }, Some(current))
        } else {
            (SettingsDebouncer { quiet_ms: self.rested(elapsed_ms), ..self }, None)
        }
    }

    pub fn new(initial: PersistentSettings) -> (debouncer: Self)
        ensures
            debouncer == (SettingsDebouncer { observed: initial, saved: initial, quiet_ms: 0 }),
    {
        SettingsDebouncer { observed: initial, saved: initial, quiet_ms: 0 }
    }

    pub fn tick(
        &mut self,
        current: PersistentSettings,
        transitions_stable: bool,
        outputs_physically_off: bool,
        elapsed_ms: u16,
    ) -> (save: Option<PersistentSettings>)
        ensures
            (*final(self), save) == old(self).after(
                current,
                transitions_stable,
                outputs_physically_off,
                elapsed_ms,
            ),
    {
        if !same_settings(&current, &self.observed) {
            self.observed = current;
            self.quiet_ms = 0;
            return None;
        }
        if same_settings(&current, &self.saved) {
            return None;
        }
        self.quiet_ms = self.quiet_ms.saturating_add(elapsed_ms);
        if self.quiet_ms >= SAVE_QUIET_MS && transitions_stable && outputs_physically_off {
            self.quiet_ms = 0;
            Some(current)
        } else {
            None
        }
    }

    pub fn mark_saved(&mut self, settings: PersistentSettings)
        ensures
            *final(self) == (SettingsDebouncer { saved: settings, ..*old(self) }),
    {
        self.saved = settings;
    }
}

/// Nothing is saved while an output is on or being switched, nor twice
/// without an edit in between.
pub proof fn saving_waits_for_quiet_outputs(
    debouncer: SettingsDebouncer,
    current: PersistentSettings,
    transitions_stable: bool,
    outputs_physically_off: bool,
    elapsed_ms: u16,
    saved: PersistentSettings,
)
    requires
        debouncer.after(current, transitions_stable, outputs_physically_off, elapsed_ms).1 == Some(
            saved,
        ),
    ensures
        transitions_stable,
        outputs_physically_off,
        saved == current,
        saved != debouncer.saved,
        saved == debouncer.observed,
        debouncer.quiet_ms + elapsed_ms >= SAVE_QUIET_MS,
{
}

} // verus!
