//! The pure state transition of the application.
//!
//! `reduced` says what every action makes of a state. The executable reducer
//! returns exactly that state.

use crate::app::{
    Action, AppState, ArbRun, AwgConfig, AwgSource, AwgStatus, AwgWaveform, ChannelSnapshot,
    ControlFocus, Fault, Measurement, OutputTransition, ProfileRequest,
    ProfileStatus, RegulationMode, Screen, TemperatureUnit,
};
use crate::limits::{
    clamp_u16, clamped, max_voltage, min_voltage, stepped_u16, voltage_range,
    AWG_MIN_FREQUENCY_MILLIHZ, CHANNEL_MAX_CURRENT_MA, SINK_MAX_CURRENT_MA,
};
use crate::pd::{Contract, PdError};
use crate::settings::PersistentSettings;
use crate::ui_content::{HELP_MAX_SCROLL, HELP_SCROLL_STEP, PROFILE_ITEM_COUNT};
use vstd::prelude::*;

verus! {

broadcast use crate::app::group_map_channels;

/// Largest change of the drive voltage in one regulation step.
pub const VOLTAGE_SLEW_STEP_MV: u16 = 200;

/// The reducer of the application state.
pub struct AppReducer;

/// The successor of a 16-bit token.
pub open spec fn next_token(token: u16) -> u16 {
    if token == u16::MAX {
        0
    } else {
        (token + 1) as u16
    }
}

/// The successor of a state version.
pub open spec fn next_version(version: u32) -> u32 {
    if version == u32::MAX {
        0
    } else {
        (version + 1) as u32
    }
}

/// `screen` as it looks when it is entered.
pub open spec fn entered(state: AppState, screen: Screen) -> AppState {
    AppState {
        screen,
        focus: ControlFocus::Unfocused,
        menu_selection: 0,
        help_scroll: 0,
        awg_editing: false,
        profile_status: ProfileStatus::Idle,
        ..state
    }
}

/// True when a channel other than `channel` is being switched on.
pub open spec fn other_enabling(state: AppState, channel: int) -> bool {
    exists|i: int| 0 <= i < 5 && i != channel && (#[trigger] state.channels[i]).enabling()
}

/// `channel` with a fresh request to switch it on or off.
pub open spec fn requested(channel: ChannelSnapshot, enabled: bool) -> ChannelSnapshot {
    let operation = next_token(channel.operation);
    ChannelSnapshot {
        operation,
        requested_enabled: enabled,
        fault: if enabled {
            Fault::Clear
        } else {
            channel.fault
        },
        transition: if enabled {
            OutputTransition::Enabling(operation)
        } else {
            OutputTransition::Disabling(operation)
        },
        ..channel
    }
}

/// True while a waveform drives its channel or is about to.
pub open spec fn awg_live(status: AwgStatus) -> bool {
    status is Starting || status is Running || status is StopRequested
}

/// True when a waveform may be started or its channel changed.
pub open spec fn awg_idle(status: AwgStatus) -> bool {
    status is Stopped || status is Fault
}

/// The waveform status after a failure of `channel`.
pub open spec fn awg_status_after_failure(state: AppState, channel: u8) -> AwgStatus {
    if channel == state.awg_channel() && awg_live(state.awg_status) {
        AwgStatus::Fault
    } else {
        state.awg_status
    }
}

/// `channel` as a verified global shutdown leaves it.
pub open spec fn shut_down(channel: ChannelSnapshot) -> ChannelSnapshot {
    ChannelSnapshot {
        requested_enabled: false,
        physical_enabled: false,
        transition: OutputTransition::Stable,
        ..channel
    }
}

/// `channel` as a failed global shutdown leaves it: nothing is claimed about
/// its physical state.
pub open spec fn shutdown_failed(channel: ChannelSnapshot) -> ChannelSnapshot {
    ChannelSnapshot {
        requested_enabled: false,
        transition: OutputTransition::Stable,
        fault: Fault::Hardware,
        ..channel
    }
}

/// The waveform stopped, with its channel's drive back at the setpoint once
/// the channel is off.
#[verifier::opaque]
pub open spec fn awg_halted(state: AppState) -> AppState {
    let index = state.awg_channel() as int;
    let stopped = AppState { awg_status: AwgStatus::Stopped, ..state };
    if index < 5 && !state.channels[index].physical_enabled {
        stopped.with_channel(
            index,
            ChannelSnapshot { drive_mv: state.channels[index].setpoint_mv, ..state.channels[index] },
        )
    } else {
        stopped
    }
}

/// Stopping a waveform changes no more of a channel than its drive.
pub broadcast proof fn lemma_awg_halted_channel(state: AppState, index: int)
    requires
        0 <= index < 5,
    ensures
        (#[trigger] awg_halted(state).channels[index]) == (ChannelSnapshot {
            drive_mv: awg_halted(state).channels[index].drive_mv,
            ..state.channels[index]
        }),
{
    reveal(awg_halted);
}

/// Stopping a waveform changes its status and the drive of its channel, no
/// more.
pub broadcast proof fn lemma_awg_halted_frame(state: AppState)
    ensures
        (#[trigger] awg_halted(state)) == (AppState {
            channels: awg_halted(state).channels,
            awg_status: AwgStatus::Stopped,
            ..state
        }),
{
    reveal(awg_halted);
}

pub broadcast group group_awg_halted {
    lemma_awg_halted_channel,
    lemma_awg_halted_frame,
}

/// What a menu selection does.
pub open spec fn menu_activated(state: AppState) -> Option<AppState> {
    let row = state.menu_selection;
    match state.screen {
        Screen::MainMenu => match row {
            0 => Some(entered(state, Screen::Overview)),
            1 => Some(entered(state, Screen::Awg)),
            2 => Some(entered(state, Screen::Settings)),
            3 => Some(entered(state, Screen::System)),
            4 => Some(entered(state, Screen::Help)),
            _ => None,
        },
        Screen::Settings => if state.profile_request != ProfileRequest::Idle {
            None
        } else {
            match row {
                0 => Some(
                    AppState {
                        temperature_unit: match state.temperature_unit {
                            TemperatureUnit::Celsius => TemperatureUnit::Fahrenheit,
                            TemperatureUnit::Fahrenheit => TemperatureUnit::Celsius,
                        },
                        ..state
                    },
                ),
                1 => Some(entered(state, Screen::ProfileSave)),
                2 => Some(entered(state, Screen::ProfileLoad)),
                3 => if state.profile_status == ProfileStatus::ConfirmDefaults {
                    Some(
                        AppState {
                            profile_request: ProfileRequest::FactoryDefaults,
                            profile_status: ProfileStatus::Working,
                            ..state
                        },
                    )
                } else {
                    Some(AppState { profile_status: ProfileStatus::ConfirmDefaults, ..state })
                },
                4 => Some(entered(state, Screen::MainMenu)),
                _ => None,
            }
        },
        Screen::ProfileSave => if state.profile_request != ProfileRequest::Idle || row
            >= PROFILE_ITEM_COUNT {
            None
        } else if row == PROFILE_ITEM_COUNT - 1 {
            Some(entered(state, Screen::Settings))
        } else if state.profile_status == ProfileStatus::ConfirmSave(row) {
            Some(
                AppState {
                    profile_request: ProfileRequest::Save(row),
                    profile_status: ProfileStatus::Working,
                    ..state
                },
            )
        } else {
            Some(AppState { profile_status: ProfileStatus::ConfirmSave(row), ..state })
        },
        Screen::ProfileLoad => if state.profile_request != ProfileRequest::Idle || row
            >= PROFILE_ITEM_COUNT {
            None
        } else if row == PROFILE_ITEM_COUNT - 1 {
            Some(entered(state, Screen::Settings))
        } else if state.profile_status == ProfileStatus::ConfirmLoad(row) {
            Some(
                AppState {
                    profile_request: ProfileRequest::Load(row),
                    profile_status: ProfileStatus::Working,
                    ..state
                },
            )
        } else {
            Some(AppState { profile_status: ProfileStatus::ConfirmLoad(row), ..state })
        },
        Screen::Awg => if row < 6 {
            Some(AppState { awg_editing: !state.awg_editing, ..state })
        } else if row == 6 {
            if awg_idle(state.awg_status) {
                Some(
                    AppState {
                        awg_source: AwgSource::Builtin,
                        awg_status: AwgStatus::StartRequested,
                        ..state
                    },
                )
            } else if state.awg_status is Starting || state.awg_status is Running {
                Some(AppState { awg_status: AwgStatus::StopRequested, ..state })
            } else {
                None
            }
        } else if row == 7 {
            Some(entered(state, Screen::MainMenu))
        } else {
            None
        },
        Screen::System => Some(entered(state, Screen::MainMenu)),
        Screen::Help => Some(entered(state, Screen::MainMenu)),
        _ => None,
    }
}

/// What a turn of the encoder does on a menu.
pub open spec fn menu_navigated(state: AppState, direction: i8) -> Option<AppState> {
    if state.screen == Screen::Help {
        let scroll = clamped(
            state.help_scroll as int + direction as int * HELP_SCROLL_STEP as int,
            0,
            HELP_MAX_SCROLL as int,
        ) as u8;
        if scroll == state.help_scroll {
            None
        } else {
            Some(AppState { help_scroll: scroll, ..state })
        }
    } else if state.screen.items() == 0 || (state.screen == Screen::Awg && state.awg_editing) {
        None
    } else {
        let row = clamped(
            state.menu_selection as int + direction as int,
            0,
            state.screen.items() - 1,
        ) as u8;
        if row == state.menu_selection {
            None
        } else {
            Some(AppState { menu_selection: row, profile_status: ProfileStatus::Idle, ..state })
        }
    }
}

/// What a click does.
pub open spec fn control_advanced(state: AppState) -> Option<AppState> {
    match state.screen {
        Screen::Channel(channel) => Some(AppState { focus: state.focus.after(channel), ..state }),
        Screen::UsbPdInput => Some(
            AppState {
                focus: if state.focus == ControlFocus::CurrentLimit {
                    ControlFocus::Unfocused
                } else {
                    ControlFocus::CurrentLimit
                },
                ..state
            },
        ),
        Screen::Overview => Some(
            AppState {
                focus: match state.focus {
                    ControlFocus::OverviewOutput(channel) => if channel < 4 {
                        ControlFocus::OverviewOutput((channel + 1) as u8)
                    } else {
                        ControlFocus::Unfocused
                    },
                    _ => ControlFocus::OverviewOutput(0),
                },
                ..state
            },
        ),
        _ => menu_activated(state),
    }
}

/// The setpoint of `channel` changed; the drive follows at once while the
/// output is off, and slews when it is on.
pub open spec fn with_setpoint(channel: ChannelSnapshot, millivolts: u16) -> ChannelSnapshot {
    ChannelSnapshot {
        setpoint_mv: millivolts,
        drive_mv: if channel.physical_enabled {
            channel.drive_mv
        } else {
            millivolts
        },
        ..channel
    }
}

/// The regulation mode of `channel` changed; a live drive is left alone.
pub open spec fn with_mode(channel: ChannelSnapshot, mode: RegulationMode) -> ChannelSnapshot {
    ChannelSnapshot {
        regulation_mode: mode,
        drive_mv: if channel.physical_enabled {
            channel.drive_mv
        } else {
            channel.setpoint_mv
        },
        ..channel
    }
}

/// The other regulation mode.
pub open spec fn other_mode(mode: RegulationMode) -> RegulationMode {
    match mode {
        RegulationMode::Cv => RegulationMode::Cc,
        RegulationMode::Cc => RegulationMode::Cv,
    }
}

/// What an edit of the focused control makes of channel `index`.
pub open spec fn channel_adjusted(
    channel: ChannelSnapshot,
    index: int,
    focus: ControlFocus,
    direction: i8,
) -> Option<ChannelSnapshot> {
    if channel.transition != OutputTransition::Stable {
        None
    } else {
        match focus {
            ControlFocus::Voltage => {
                let adjusted = clamped(
                    channel.setpoint_mv as int + direction as int * 10,
                    min_voltage(index) as int,
                    max_voltage(index) as int,
                ) as u16;
                if index < 3 || adjusted == channel.setpoint_mv {
                    None
                } else {
                    Some(with_setpoint(channel, adjusted))
                }
            },
            ControlFocus::CurrentLimit => {
                let adjusted = clamped(
                    channel.current_limit_ma as int + direction as int * 10,
                    0,
                    CHANNEL_MAX_CURRENT_MA as int,
                ) as u16;
                if adjusted == channel.current_limit_ma {
                    None
                } else {
                    Some(ChannelSnapshot { current_limit_ma: adjusted, ..channel })
                }
            },
            ControlFocus::RegulationMode => if index < 3 {
                None
            } else {
                Some(with_mode(channel, other_mode(channel.regulation_mode)))
            },
            _ => None,
        }
    }
}

/// What an edit of the focused control does.
pub open spec fn focused_adjusted(state: AppState, direction: i8) -> Option<AppState> {
    if direction == 0 {
        None
    } else if state.screen == Screen::UsbPdInput {
        let adjusted = clamped(
            state.sink_current_limit_ma as int + direction as int * 10,
            0,
            SINK_MAX_CURRENT_MA as int,
        ) as u16;
        if state.focus != ControlFocus::CurrentLimit || adjusted == state.sink_current_limit_ma {
            None
        } else {
            Some(AppState { sink_current_limit_ma: adjusted, ..state })
        }
    } else if let Screen::Channel(index) = state.screen {
        match channel_adjusted(
            state.channels[index as int],
            index as int,
            state.focus,
            direction,
        ) {
            Some(channel) => Some(state.with_channel(index as int, channel)),
            None => None,
        }
    } else {
        None
    }
}

/// The waveform after `waveform` in the direction of a turn.
pub open spec fn waveform_turned(waveform: AwgWaveform, forward: bool) -> AwgWaveform {
    match (waveform, forward) {
        (AwgWaveform::Square, true) => AwgWaveform::Triangle,
        (AwgWaveform::Triangle, true) => AwgWaveform::Ramp,
        (AwgWaveform::Ramp, true) => AwgWaveform::Sine,
        (AwgWaveform::Sine, true) => AwgWaveform::Square,
        (AwgWaveform::Square, false) => AwgWaveform::Sine,
        (AwgWaveform::Triangle, false) => AwgWaveform::Square,
        (AwgWaveform::Ramp, false) => AwgWaveform::Triangle,
        (AwgWaveform::Sine, false) => AwgWaveform::Ramp,
    }
}

/// A waveform configuration moved to the other adjustable channel.
pub open spec fn awg_channel_switched(awg: AwgConfig) -> AwgConfig {
    let channel: u8 = if awg.channel == 3 {
        4
    } else {
        3
    };
    let low = clamped(
        awg.low_mv as int,
        min_voltage(channel as int) as int,
        max_voltage(channel as int) as int,
    );
    AwgConfig {
        channel,
        low_mv: low as u16,
        high_mv: clamped(awg.high_mv as int, low, max_voltage(channel as int) as int) as u16,
        ..awg
    }
}

/// The waveform configuration after an edit of row `row`.
pub open spec fn awg_config_adjusted(awg: AwgConfig, row: u8, direction: i8) -> AwgConfig {
    match row {
        0 => awg_channel_switched(awg),
        1 => AwgConfig { waveform: waveform_turned(awg.waveform, direction > 0), ..awg },
        2 => AwgConfig {
            frequency_millihz: clamped(
                awg.frequency_millihz as int + direction as int * 100,
                AWG_MIN_FREQUENCY_MILLIHZ as int,
                awg.waveform.frequency_limit() as int,
            ) as u32,
            ..awg
        },
        3 => if awg.waveform == AwgWaveform::Square {
            AwgConfig {
                duty_percent: clamped(awg.duty_percent as int + direction as int, 1, 99) as u8,
                ..awg
            }
        } else {
            awg
        },
        4 => AwgConfig {
            low_mv: clamped(
                awg.low_mv as int + direction as int * 10,
                min_voltage(awg.channel as int) as int,
                awg.high_mv as int,
            ) as u16,
            ..awg
        },
        5 => AwgConfig {
            high_mv: clamped(
                awg.high_mv as int + direction as int * 10,
                awg.low_mv as int,
                max_voltage(awg.channel as int) as int,
            ) as u16,
            ..awg
        },
        _ => awg,
    }
}

/// What an edit on the waveform screen does. The channel cannot change while
/// a waveform is live.
pub open spec fn awg_adjusted(state: AppState, direction: i8) -> Option<AppState> {
    let awg = awg_config_adjusted(state.awg, state.menu_selection, direction);
    if direction == 0 || state.screen != Screen::Awg || !state.awg_editing || (
    state.menu_selection == 0 && !awg_idle(state.awg_status)) || awg == state.awg {
        None
    } else {
        Some(AppState { awg, ..state })
    }
}

/// The drive voltage after one regulation step, or `None` to leave it alone.
pub open spec fn regulated_drive(
    channel: ChannelSnapshot,
    index: int,
    measured_ma: u16,
) -> Option<u16> {
    let drive = channel.drive_mv as int;
    let setpoint = channel.setpoint_mv as int;
    if drive > setpoint {
        Some(
            (if drive - VOLTAGE_SLEW_STEP_MV > setpoint {
                drive - VOLTAGE_SLEW_STEP_MV
            } else {
                setpoint
            }) as u16,
        )
    } else if channel.regulation_mode == RegulationMode::Cv {
        if drive < setpoint {
            Some(
                (if drive + VOLTAGE_SLEW_STEP_MV < setpoint {
                    drive + VOLTAGE_SLEW_STEP_MV
                } else {
                    setpoint
                }) as u16,
            )
        } else {
            None
        }
    } else {
        let error = channel.current_limit_ma - measured_ma;
        if -4 <= error <= 4 {
            None
        } else {
            let step = clamped(
                if error < 0 {
                    -2 * error
                } else {
                    2 * error
                },
                10,
                200,
            );
            let floor = min_voltage(index) as int;
            let regulated = if error < 0 {
                if drive - step > floor {
                    drive - step
                } else {
                    floor
                }
            } else if drive + step < setpoint {
                drive + step
            } else {
                setpoint
            };
            if regulated == drive {
                None
            } else {
                Some(regulated as u16)
            }
        }
    }
}

/// What a regulation sample does to channel `index`.
pub open spec fn channel_regulated(
    channel: ChannelSnapshot,
    index: int,
    measurement: Measurement,
) -> Option<ChannelSnapshot> {
    if index < 3 || !channel.physical_enabled || channel.transition != OutputTransition::Stable
        || !measurement.valid {
        None
    } else {
        match regulated_drive(channel, index, measurement.milliamps) {
            Some(drive_mv) => Some(ChannelSnapshot { drive_mv, ..channel }),
            None => None,
        }
    }
}

/// What a request to switch a channel does. Only one channel is switched on at
/// a time.
pub open spec fn output_requested(state: AppState, index: u8, enabled: bool) -> Option<AppState> {
    if index >= 5 {
        None
    } else {
        let channel = state.channels[index as int];
        if enabled && ((channel.requested_enabled && channel.transition
            == OutputTransition::Stable) || other_enabling(state, index as int)) {
            None
        } else {
            Some(state.with_channel(index as int, requested(channel, enabled)))
        }
    }
}

/// What a toggle of a channel does.
pub open spec fn output_toggled(state: AppState, index: u8) -> Option<AppState> {
    if index >= 5 {
        None
    } else {
        let channel = state.channels[index as int];
        if channel.transition != OutputTransition::Stable || (!channel.requested_enabled
            && other_enabling(state, index as int)) {
            None
        } else {
            Some(state.with_channel(index as int, requested(channel, !channel.requested_enabled)))
        }
    }
}

/// What the news that a channel carries voltage does.
pub open spec fn output_energized(state: AppState, index: u8, operation: u16) -> Option<AppState> {
    if index >= 5 {
        None
    } else {
        let channel = state.channels[index as int];
        if channel.transition != OutputTransition::Enabling(operation)
            || !channel.requested_enabled || channel.physical_enabled {
            None
        } else {
            Some(
                state.with_channel(
                    index as int,
                    ChannelSnapshot { physical_enabled: true, ..channel },
                ),
            )
        }
    }
}

/// What a completed switching operation does. Completions of any operation but
/// the current one are ignored.
pub open spec fn output_applied(
    state: AppState,
    index: u8,
    operation: u16,
    enabled: bool,
) -> Option<AppState> {
    if index >= 5 {
        None
    } else {
        let channel = state.channels[index as int];
        let expected = if enabled {
            OutputTransition::Enabling(operation)
        } else {
            OutputTransition::Disabling(operation)
        };
        if channel.transition != expected || channel.requested_enabled != enabled {
            None
        } else {
            let switched = state.with_channel(
                index as int,
                ChannelSnapshot {
                    physical_enabled: enabled,
                    transition: OutputTransition::Stable,
                    ..channel
                },
            );
            if index == state.awg_channel() && enabled && state.awg_status is Starting {
                Some(AppState { awg_status: AwgStatus::Running, ..switched })
            } else if index == state.awg_channel() && !enabled && awg_live(state.awg_status) {
                Some(awg_halted(switched))
            } else {
                Some(switched)
            }
        }
    }
}

/// What a failed switching operation does. Failures of any operation but the
/// current one are ignored.
pub open spec fn output_failed(
    state: AppState,
    index: u8,
    operation: u16,
    fault: Fault,
) -> Option<AppState> {
    if index >= 5 {
        None
    } else {
        let channel = state.channels[index as int];
        if channel.transition != OutputTransition::Enabling(operation) && channel.transition
            != OutputTransition::Disabling(operation) {
            None
        } else {
            Some(
                AppState {
                    awg_status: awg_status_after_failure(state, index),
                    ..state.with_channel(
                        index as int,
                        ChannelSnapshot {
                            requested_enabled: false,
                            physical_enabled: false,
                            transition: OutputTransition::Stable,
                            fault,
                            ..channel
                        },
                    )
                },
            )
        }
    }
}

/// What a protection trip does: the channel is asked to go off, with its fault
/// latched.
pub open spec fn protection_tripped(state: AppState, index: u8, fault: Fault) -> Option<AppState> {
    if index >= 5 {
        None
    } else {
        let channel = state.channels[index as int];
        if !channel.requested_enabled && !channel.physical_enabled && channel.fault == fault
            && channel.transition == OutputTransition::Stable {
            None
        } else {
            let operation = next_token(channel.operation);
            Some(
                AppState {
                    awg_status: awg_status_after_failure(state, index),
                    ..state.with_channel(
                        index as int,
                        ChannelSnapshot {
                            operation,
                            requested_enabled: false,
                            fault,
                            transition: OutputTransition::Disabling(operation),
                            ..channel
                        },
                    )
                },
            )
        }
    }
}

/// What a failed voltage or limit command does.
pub open spec fn setting_failed(state: AppState, index: u8, fault: Fault) -> Option<AppState> {
    if index >= 5 {
        None
    } else {
        let channel = state.channels[index as int];
        Some(
            AppState {
                awg_status: awg_status_after_failure(state, index),
                ..state.with_channel(
                    index as int,
                    ChannelSnapshot {
                        operation: next_token(channel.operation),
                        requested_enabled: false,
                        physical_enabled: false,
                        transition: OutputTransition::Stable,
                        fault,
                        ..channel
                    },
                )
            },
        )
    }
}

/// What a verified global shutdown does. A start that waits for it stays
/// requested.
pub open spec fn globally_shut_down(state: AppState) -> AppState {
    let off = state.map_channels(|i: int, channel: ChannelSnapshot| shut_down(channel));
    if awg_live(state.awg_status) {
        awg_halted(off)
    } else {
        off
    }
}

/// What a failed global shutdown does.
pub open spec fn global_shutdown_failed(state: AppState) -> AppState {
    AppState {
        awg_status: AwgStatus::Fault,
        ..state.map_channels(|i: int, channel: ChannelSnapshot| shutdown_failed(channel))
    }
}

/// The first voltage of the selected waveform.
pub open spec fn awg_initial_mv(state: AppState) -> u16 {
    match state.awg_source {
        AwgSource::Builtin => state.awg.low_mv,
        AwgSource::Arbitrary => state.arb_run.initial_mv,
    }
}

/// What the end of a start's shutdown does: the waveform's channel is asked to
/// go on at the first voltage of the waveform.
pub open spec fn awg_start_prepared(state: AppState) -> Option<AppState> {
    let index = state.awg_channel();
    if !(state.awg_status is StartRequested) || index >= 5 || other_enabling(state, index as int) {
        None
    } else {
        Some(
            AppState {
                awg_status: AwgStatus::Starting,
                ..state.with_channel(
                    index as int,
                    ChannelSnapshot {
                        drive_mv: awg_initial_mv(state),
                        ..requested(state.channels[index as int], true)
                    },
                )
            },
        )
    }
}

/// What a waveform sample does.
pub open spec fn awg_sampled(state: AppState, millivolts: u16) -> Option<AppState> {
    let index = state.awg_channel();
    if !(state.awg_status is Running) || index >= 5 {
        None
    } else {
        let channel = state.channels[index as int];
        if !channel.physical_enabled || channel.transition != OutputTransition::Stable
            || channel.drive_mv == millivolts {
            None
        } else {
            Some(
                state.with_channel(
                    index as int,
                    ChannelSnapshot { drive_mv: millivolts, ..channel },
                ),
            )
        }
    }
}

/// The slots that hold a profile after `status` was reported.
pub open spec fn profiles_after(present: [bool; 3], status: ProfileStatus) -> [bool; 3] {
    match status {
        ProfileStatus::Saved(slot) => if slot < 3 {
            vstd::array::spec_array_update(present, slot as int, true)
        } else {
            present
        },
        _ => present,
    }
}

/// What an applied profile does: its settings are in force, and every output
/// is off.
pub open spec fn profile_applied(
    state: AppState,
    settings: PersistentSettings,
    status: ProfileStatus,
) -> AppState {
    AppState {
        profile_request: ProfileRequest::Idle,
        profile_status: status,
        awg_status: if state.awg_status is Fault {
            AwgStatus::Fault
        } else {
            AwgStatus::Stopped
        },
        ..settings.applied_to(
            state.map_channels(|i: int, channel: ChannelSnapshot| shut_down(channel)),
        )
    }
}

/// What navigation between screens, menus and controls does.
#[verifier::opaque]
pub open spec fn navigation_transition(state: AppState, action: Action) -> Option<AppState> {
    match action {
        Action::NextScreen => Some(
            AppState { screen: state.screen.after(), focus: ControlFocus::Unfocused, ..state },
        ),
        Action::PreviousScreen => Some(
            AppState { screen: state.screen.before(), focus: ControlFocus::Unfocused, ..state },
        ),
        Action::GoOverview => if state.screen == Screen::Overview && state.focus
            == ControlFocus::Unfocused {
            None
        } else {
            Some(
                AppState { screen: Screen::Overview, focus: ControlFocus::Unfocused, ..state },
            )
        },
        Action::GoMainMenu => if state.screen == Screen::MainMenu && state.focus
            == ControlFocus::Unfocused {
            None
        } else {
            Some(entered(state, Screen::MainMenu))
        },
        Action::RequestReboot => if state.reboot_requested {
            None
        } else {
            Some(AppState { reboot_requested: true, ..state })
        },
        Action::NavigateMenu(direction) => menu_navigated(state, direction),
        Action::ActivateMenu => menu_activated(state),
        Action::NextControl => control_advanced(state),
        _ => None,
    }
}

/// What edits of settings and requests to switch outputs do.
#[verifier::opaque]
pub open spec fn settings_transition(state: AppState, action: Action) -> Option<AppState> {
    match action {
        Action::AdjustFocused(direction) => focused_adjusted(state, direction),
        Action::AdjustAwg(direction) => awg_adjusted(state, direction),
        Action::ToggleOutputRequested { channel } => output_toggled(state, channel),
        Action::SetVoltage { channel, millivolts } => if !(channel == 3 || channel == 4)
            || millivolts < min_voltage(channel as int) || millivolts > max_voltage(channel as int)
            || state.channels[channel as int].transition != OutputTransition::Stable
            || state.channels[channel as int].setpoint_mv == millivolts {
            None
        } else {
            Some(
                state.with_channel(
                    channel as int,
                    with_setpoint(state.channels[channel as int], millivolts),
                ),
            )
        },
        Action::SetCurrentLimit { channel, milliamps } => if channel >= 5 || milliamps
            > CHANNEL_MAX_CURRENT_MA || state.channels[channel as int].transition
            != OutputTransition::Stable || state.channels[channel as int].current_limit_ma
            == milliamps {
            None
        } else {
            Some(
                state.with_channel(
                    channel as int,
                    ChannelSnapshot {
                        current_limit_ma: milliamps,
                        ..state.channels[channel as int]
                    },
                ),
            )
        },
        Action::SetRegulationMode { channel, mode } => if channel < 3 || channel >= 5
            || state.channels[channel as int].transition != OutputTransition::Stable
            || state.channels[channel as int].regulation_mode == mode {
            None
        } else {
            Some(
                state.with_channel(
                    channel as int,
                    with_mode(state.channels[channel as int], mode),
                ),
            )
        },
        Action::RegulateChannel { channel, measurement } => if channel >= 5 {
            None
        } else {
            match channel_regulated(
                state.channels[channel as int],
                channel as int,
                measurement,
            ) {
                Some(regulated) => Some(state.with_channel(channel as int, regulated)),
                None => None,
            }
        },
        Action::SetSinkCurrentLimit(milliamps) => if milliamps > SINK_MAX_CURRENT_MA
            || state.sink_current_limit_ma == milliamps {
            None
        } else {
            Some(AppState { sink_current_limit_ma: milliamps, ..state })
        },
        Action::SetOutputRequested { channel, enabled } => output_requested(
            state,
            channel,
            enabled,
        ),
        _ => None,
    }
}

/// What news from the power hardware does.
#[verifier::opaque]
pub open spec fn hardware_transition(state: AppState, action: Action) -> Option<AppState> {
    match action {
        Action::OutputEnergized { channel, operation } => output_energized(
            state,
            channel,
            operation,
        ),
        Action::OutputApplied { channel, operation, enabled } => output_applied(
            state,
            channel,
            operation,
            enabled,
        ),
        Action::OutputFailed { channel, operation, fault } => output_failed(
            state,
            channel,
            operation,
            fault,
        ),
        Action::ProtectionTrip { channel, fault } => protection_tripped(state, channel, fault),
        Action::HardwareSettingApplied => None,
        Action::HardwareSettingFailed { channel, fault } => setting_failed(state, channel, fault),
        Action::GlobalShutdownApplied => Some(globally_shut_down(state)),
        Action::GlobalShutdownFailed => Some(global_shutdown_failed(state)),
        _ => None,
    }
}

/// What news from the USB PD input does.
#[verifier::opaque]
pub open spec fn input_transition(state: AppState, action: Action) -> Option<AppState> {
    match action {
        Action::PdNegotiationStarted => Some(
            AppState { pd_contract: None, pd_error: None, pd_negotiating: true, ..state },
        ),
        Action::PdNegotiated(contract) => Some(
            AppState {
                pd_contract: Some(contract),
                pd_error: None,
                pd_negotiating: false,
                ..state
            },
        ),
        Action::PdFailed(error) => Some(
            AppState {
                pd_contract: None,
                pd_error: Some(error),
                pd_negotiating: false,
                sink_fault: if state.any_active() {
                    Fault::Hardware
                } else {
                    state.sink_fault
                },
                ..state
            },
        ),
        Action::SinkProtectionTrip(fault) => if state.sink_fault == fault {
            None
        } else {
            Some(AppState { sink_fault: fault, ..state })
        },
        Action::SinkProtectionRecovered => if state.sink_fault == Fault::Clear {
            None
        } else {
            Some(AppState { sink_fault: Fault::Clear, ..state })
        },
        Action::SinkMeasurement(measurement) => if state.sink == measurement {
            None
        } else {
            Some(AppState { sink: measurement, ..state })
        },
        _ => None,
    }
}

/// What waveform generation does.
#[verifier::opaque]
pub open spec fn awg_transition(state: AppState, action: Action) -> Option<AppState> {
    match action {
        Action::RequestArbStart { channel, initial_mv, low_mv, high_mv } => if !(channel == 3
            || channel == 4) || !awg_idle(state.awg_status) {
            None
        } else {
            Some(
                AppState {
                    awg_source: AwgSource::Arbitrary,
                    awg_status: AwgStatus::StartRequested,
                    arb_run: ArbRun { channel, initial_mv, low_mv, high_mv },
                    ..state
                },
            )
        },
        Action::AwgStartPrepared => awg_start_prepared(state),
        Action::AwgSample(millivolts) => awg_sampled(state, millivolts),
        Action::AwgStopped => if state.awg_status is Stopped {
            None
        } else {
            Some(awg_halted(state))
        },
        Action::AwgLoadMeasurement(load) => if state.awg_load == load {
            None
        } else {
            Some(AppState { awg_load: load, ..state })
        },
        _ => None,
    }
}

/// What profiles and sensor readings do.
#[verifier::opaque]
pub open spec fn record_transition(state: AppState, action: Action) -> Option<AppState> {
    match action {
        Action::ApplyProfile(settings, status) => Some(
            profile_applied(state, settings, status),
        ),
        Action::ProfileOperationFinished(status) => Some(
            AppState {
                profile_request: ProfileRequest::Idle,
                profile_status: status,
                profile_present: profiles_after(state.profile_present, status),
                ..state
            },
        ),
        Action::Temperature(sample) => match sample {
            Some(raw) => if state.temp_valid && state.temp_sixteenths_c == raw {
                None
            } else {
                Some(AppState { temp_sixteenths_c: raw, temp_valid: true, ..state })
            },
            None => if !state.temp_valid {
                None
            } else {
                Some(AppState { temp_valid: false, ..state })
            },
        },
        Action::Measurements(measurements) => if forall|i: int|
            0 <= i < 5 ==> (#[trigger] state.channels[i]).measurement == measurements[i] {
            None
        } else {
            Some(
                state.map_channels(
                    |i: int, channel: ChannelSnapshot|
                        ChannelSnapshot { measurement: measurements[i], ..channel },
                ),
            )
        },
        _ => None,
    }
}

/// What `action` makes of `state`, or `None` where it changes nothing.
pub open spec fn transition(state: AppState, action: Action) -> Option<AppState> {
    match action {
        Action::NextScreen
        | Action::PreviousScreen
        | Action::GoOverview
        | Action::GoMainMenu
        | Action::RequestReboot
        | Action::NavigateMenu(_)
        | Action::ActivateMenu
        | Action::NextControl => navigation_transition(state, action),
        Action::AdjustFocused(_)
        | Action::AdjustAwg(_)
        | Action::ToggleOutputRequested { .. }
        | Action::SetVoltage { .. }
        | Action::SetCurrentLimit { .. }
        | Action::SetRegulationMode { .. }
        | Action::RegulateChannel { .. }
        | Action::SetSinkCurrentLimit(_)
        | Action::SetOutputRequested { .. } => settings_transition(state, action),
        Action::OutputEnergized { .. }
        | Action::OutputApplied { .. }
        | Action::OutputFailed { .. }
        | Action::ProtectionTrip { .. }
        | Action::HardwareSettingApplied
        | Action::HardwareSettingFailed { .. }
        | Action::GlobalShutdownApplied
        | Action::GlobalShutdownFailed => hardware_transition(state, action),
        Action::PdNegotiationStarted
        | Action::PdNegotiated(_)
        | Action::PdFailed(_)
        | Action::SinkProtectionTrip(_)
        | Action::SinkProtectionRecovered
        | Action::SinkMeasurement(_) => input_transition(state, action),
        Action::RequestArbStart { .. }
        | Action::AwgStartPrepared
        | Action::AwgSample(_)
        | Action::AwgStopped
        | Action::AwgLoadMeasurement(_) => awg_transition(state, action),
        Action::ApplyProfile(_, _)
        | Action::ProfileOperationFinished(_)
        | Action::Temperature(_)
        | Action::Measurements(_) => record_transition(state, action),
    }
}

/// True when two states differ in nothing but the version.
pub open spec fn same_but_version(left: AppState, right: AppState) -> bool {
    AppState { version: right.version, ..left } == right
}

/// The state that `action` leads to from `state`. The version moves with
/// everything else: a transition that changes nothing is none.
pub open spec fn reduced(state: AppState, action: Action) -> AppState {
    match transition(state, action) {
        Some(next) => if same_but_version(next, state) {
            state
        } else {
            AppState { version: next_version(state.version), ..next }
        },
        None => state,
    }
}

/// True of the actions that edit the channel on the screen. On a screen of a
/// channel that does not exist there is nothing to edit.
pub open spec fn edits_screen(action: Action) -> bool {
    action matches Action::AdjustFocused(direction) && direction != 0
}

/// Whether two states differ in nothing but the version.
fn is_same_but_version(left: &AppState, right: &AppState) -> (same: bool)
    ensures
        same == same_but_version(*left, *right),
{
    let mut index: usize = 0;
    while index < 5
        invariant
            index <= 5,
            forall|i: int| 0 <= i < index ==> left.channels[i] == right.channels[i],
        decreases 5 - index,
    {
        if left.channels[index] != right.channels[index] {
            return false;
        }
        index = index + 1;
    }
    let present: bool = left.profile_present[0] == right.profile_present[0]
        && left.profile_present[1] == right.profile_present[1] && left.profile_present[2]
        == right.profile_present[2];
    assert(left.channels =~= right.channels);
    assert(present == (left.profile_present =~= right.profile_present));
    present && left.screen == right.screen && left.focus == right.focus && left.sink == right.sink
        && left.sink_current_limit_ma == right.sink_current_limit_ma && left.sink_fault
        == right.sink_fault && same_contract(&left.pd_contract, &right.pd_contract)
        && same_error(&left.pd_error, &right.pd_error) && left.pd_negotiating
        == right.pd_negotiating && left.temp_sixteenths_c == right.temp_sixteenths_c
        && left.temp_valid == right.temp_valid && left.temperature_unit == right.temperature_unit
        && left.recovery_armed == right.recovery_armed && left.reboot_requested
        == right.reboot_requested && left.menu_selection == right.menu_selection
        && left.help_scroll == right.help_scroll && left.awg == right.awg && left.awg_status
        == right.awg_status && left.awg_source == right.awg_source && left.awg_editing
        == right.awg_editing && left.awg_load == right.awg_load && left.arb_run == right.arb_run
        && left.profile_request == right.profile_request && left.profile_status
        == right.profile_status
}

fn same_contract(left: &Option<Contract>, right: &Option<Contract>) -> (same: bool)
    ensures
        same == (*left == *right),
{
    match (left, right) {
        (Some(one), Some(other)) => *one == *other,
        (None, None) => true,
        _ => false,
    }
}

fn same_error(left: &Option<PdError>, right: &Option<PdError>) -> (same: bool)
    ensures
        same == (*left == *right),
{
    match (left, right) {
        (Some(one), Some(other)) => *one == *other,
        (None, None) => true,
        _ => false,
    }
}


/// True when a channel other than `channel` is being switched on.
fn is_other_enabling(state: &AppState, channel: usize) -> (found: bool)
    ensures
        found == other_enabling(*state, channel as int),
{
    let mut index: usize = 0;
    while index < 5
        invariant
            index <= 5,
            forall|i: int|
                0 <= i < index && i != channel ==> !(#[trigger] state.channels[i]).enabling(),
        decreases 5 - index,
    {
        if index != channel && matches!(
            state.channels[index].transition,
            OutputTransition::Enabling(_)
        ) {
            assert(state.channels[index as int].enabling());
            return true;
        }
        index = index + 1;
    }
    false
}

fn is_awg_live(status: AwgStatus) -> (live: bool)
    ensures
        live == awg_live(status),
{
    matches!(status, AwgStatus::Starting | AwgStatus::Running | AwgStatus::StopRequested)
}

fn is_awg_idle(status: AwgStatus) -> (idle: bool)
    ensures
        idle == awg_idle(status),
{
    matches!(status, AwgStatus::Stopped | AwgStatus::Fault)
}

fn enter(state: &AppState, screen: Screen) -> (next: AppState)
    ensures
        next == entered(*state, screen),
{
    let mut next: AppState = *state;
    next.screen = screen;
    next.focus = ControlFocus::Unfocused;
    next.menu_selection = 0;
    next.help_scroll = 0;
    next.awg_editing = false;
    next.profile_status = ProfileStatus::Idle;
    next
}

fn request_output(channel: ChannelSnapshot, enabled: bool) -> (next: ChannelSnapshot)
    ensures
        next == requested(channel, enabled),
{
    let mut next: ChannelSnapshot = channel;
    next.operation = channel.operation.wrapping_add(1);
    next.requested_enabled = enabled;
    if enabled {
        next.fault = Fault::Clear;
        next.transition = OutputTransition::Enabling(next.operation);
    } else {
        next.transition = OutputTransition::Disabling(next.operation);
    }
    next
}

fn status_after_failure(state: &AppState, channel: u8) -> (status: AwgStatus)
    ensures
        status == awg_status_after_failure(*state, channel),
{
    if channel == state.active_awg_channel() && is_awg_live(state.awg_status) {
        AwgStatus::Fault
    } else {
        state.awg_status
    }
}

fn halt_awg(state: &AppState) -> (next: AppState)
    ensures
        next == awg_halted(*state),
{
    proof {
        reveal(awg_halted);
    }
    let mut next: AppState = *state;
    next.awg_status = AwgStatus::Stopped;
    let index: usize = state.active_awg_channel() as usize;
    if index < 5 && !state.channels[index].physical_enabled {
        let mut channel: ChannelSnapshot = state.channels[index];
        channel.drive_mv = channel.setpoint_mv;
        next.channels[index] = channel;
    }
    next
}

fn activate_settings(state: &AppState) -> (next: Option<AppState>)
    requires
        state.screen == Screen::Settings,
    ensures
        next == menu_activated(*state),
{
    if state.profile_request != ProfileRequest::Idle {
        return None;
    }
    match state.menu_selection {
        0 => {
            let mut next: AppState = *state;
            next.temperature_unit = match state.temperature_unit {
                TemperatureUnit::Celsius => TemperatureUnit::Fahrenheit,
                TemperatureUnit::Fahrenheit => TemperatureUnit::Celsius,
            };
            Some(next)
        },
        1 => Some(enter(state, Screen::ProfileSave)),
        2 => Some(enter(state, Screen::ProfileLoad)),
        3 => {
            let mut next: AppState = *state;
            if state.profile_status == ProfileStatus::ConfirmDefaults {
                next.profile_request = ProfileRequest::FactoryDefaults;
                next.profile_status = ProfileStatus::Working;
            } else {
                next.profile_status = ProfileStatus::ConfirmDefaults;
            }
            Some(next)
        },
        4 => Some(enter(state, Screen::MainMenu)),
        _ => None,
    }
}

fn activate_profile(state: &AppState, saving: bool) -> (next: Option<AppState>)
    requires
        state.screen == (if saving {
            Screen::ProfileSave
        } else {
            Screen::ProfileLoad
        }),
    ensures
        next == menu_activated(*state),
{
    let row: u8 = state.menu_selection;
    if state.profile_request != ProfileRequest::Idle || row >= PROFILE_ITEM_COUNT {
        return None;
    }
    if row == PROFILE_ITEM_COUNT - 1 {
        return Some(enter(state, Screen::Settings));
    }
    let confirmation = if saving {
        ProfileStatus::ConfirmSave(row)
    } else {
        ProfileStatus::ConfirmLoad(row)
    };
    let mut next: AppState = *state;
    if state.profile_status == confirmation {
        next.profile_request = if saving {
            ProfileRequest::Save(row)
        } else {
            ProfileRequest::Load(row)
        };
        next.profile_status = ProfileStatus::Working;
    } else {
        next.profile_status = confirmation;
    }
    Some(next)
}

fn activate_awg(state: &AppState) -> (next: Option<AppState>)
    requires
        state.screen == Screen::Awg,
    ensures
        next == menu_activated(*state),
{
    let mut next: AppState = *state;
    if state.menu_selection < 6 {
        next.awg_editing = !state.awg_editing;
        Some(next)
    } else if state.menu_selection == 6 {
        match state.awg_status {
            AwgStatus::Stopped | AwgStatus::Fault => {
                next.awg_source = AwgSource::Builtin;
                next.awg_status = AwgStatus::StartRequested;
                Some(next)
            },
            AwgStatus::Starting | AwgStatus::Running => {
                next.awg_status = AwgStatus::StopRequested;
                Some(next)
            },
            AwgStatus::StartRequested | AwgStatus::StopRequested => None,
        }
    } else if state.menu_selection == 7 {
        Some(enter(state, Screen::MainMenu))
    } else {
        None
    }
}

fn activate_menu(state: &AppState) -> (next: Option<AppState>)
    ensures
        next == menu_activated(*state),
{
    match state.screen {
        Screen::MainMenu => match state.menu_selection {
            0 => Some(enter(state, Screen::Overview)),
            1 => Some(enter(state, Screen::Awg)),
            2 => Some(enter(state, Screen::Settings)),
            3 => Some(enter(state, Screen::System)),
            4 => Some(enter(state, Screen::Help)),
            _ => None,
        },
        Screen::Settings => activate_settings(state),
        Screen::ProfileSave => activate_profile(state, true),
        Screen::ProfileLoad => activate_profile(state, false),
        Screen::Awg => activate_awg(state),
        Screen::System | Screen::Help => Some(enter(state, Screen::MainMenu)),
        _ => None,
    }
}

fn navigate_menu(state: &AppState, direction: i8) -> (next: Option<AppState>)
    ensures
        next == menu_navigated(*state, direction),
{
    let mut next: AppState = *state;
    if state.screen == Screen::Help {
        let scroll: u8 = stepped_u16(
            state.help_scroll as u16,
            direction,
            HELP_SCROLL_STEP as u16,
            0,
            HELP_MAX_SCROLL as u16,
        ) as u8;
        if scroll == state.help_scroll {
            return None;
        }
        next.help_scroll = scroll;
        return Some(next);
    }
    let count: u8 = state.screen.item_count();
    if count == 0 || (state.screen == Screen::Awg && state.awg_editing) {
        return None;
    }
    let row: u8 = stepped_u16(state.menu_selection as u16, direction, 1, 0, (count - 1) as u16)
        as u8;
    if row == state.menu_selection {
        return None;
    }
    next.menu_selection = row;
    next.profile_status = ProfileStatus::Idle;
    Some(next)
}

fn advance_control(state: &AppState) -> (next: Option<AppState>)
    ensures
        next == control_advanced(*state),
{
    let mut next: AppState = *state;
    match state.screen {
        Screen::Channel(channel) => {
            next.focus = state.focus.next(channel);
            Some(next)
        },
        Screen::UsbPdInput => {
            next.focus = if state.focus == ControlFocus::CurrentLimit {
                ControlFocus::Unfocused
            } else {
                ControlFocus::CurrentLimit
            };
            Some(next)
        },
        Screen::Overview => {
            next.focus = match state.focus {
                ControlFocus::OverviewOutput(channel) => if channel < 4 {
                    ControlFocus::OverviewOutput(channel + 1)
                } else {
                    ControlFocus::Unfocused
                },
                _ => ControlFocus::OverviewOutput(0),
            };
            Some(next)
        },
        _ => activate_menu(state),
    }
}

fn set_setpoint(channel: ChannelSnapshot, millivolts: u16) -> (next: ChannelSnapshot)
    ensures
        next == with_setpoint(channel, millivolts),
{
    let mut next: ChannelSnapshot = channel;
    next.setpoint_mv = millivolts;
    if !channel.physical_enabled {
        next.drive_mv = millivolts;
    }
    next
}

fn set_mode(channel: ChannelSnapshot, mode: RegulationMode) -> (next: ChannelSnapshot)
    ensures
        next == with_mode(channel, mode),
{
    let mut next: ChannelSnapshot = channel;
    next.regulation_mode = mode;
    if !channel.physical_enabled {
        next.drive_mv = channel.setpoint_mv;
    }
    next
}

fn adjust_channel(
    channel: ChannelSnapshot,
    index: u8,
    focus: ControlFocus,
    direction: i8,
) -> (next: Option<ChannelSnapshot>)
    ensures
        next == channel_adjusted(channel, index as int, focus, direction),
{
    if channel.transition != OutputTransition::Stable {
        return None;
    }
    match focus {
        ControlFocus::Voltage => {
            let range = voltage_range(index);
            let adjusted: u16 = stepped_u16(channel.setpoint_mv, direction, 10, range.0, range.1);
            if index < 3 || adjusted == channel.setpoint_mv {
                None
            } else {
                Some(set_setpoint(channel, adjusted))
            }
        },
        ControlFocus::CurrentLimit => {
            let adjusted: u16 = stepped_u16(
                channel.current_limit_ma,
                direction,
                10,
                0,
                CHANNEL_MAX_CURRENT_MA,
            );
            if adjusted == channel.current_limit_ma {
                None
            } else {
                let mut next: ChannelSnapshot = channel;
                next.current_limit_ma = adjusted;
                Some(next)
            }
        },
        ControlFocus::RegulationMode => if index < 3 {
            None
        } else {
            let mode = match channel.regulation_mode {
                RegulationMode::Cv => RegulationMode::Cc,
                RegulationMode::Cc => RegulationMode::Cv,
            };
            Some(set_mode(channel, mode))
        },
        _ => None,
    }
}

fn adjust_focused(state: &AppState, direction: i8) -> (next: Option<AppState>)
    requires
        direction != 0 ==> state.screen.in_range(),
    ensures
        next == focused_adjusted(*state, direction),
{
    let mut next: AppState = *state;
    if direction == 0 {
        return None;
    }
    match state.screen {
        Screen::UsbPdInput => {
            let adjusted: u16 = stepped_u16(
                state.sink_current_limit_ma,
                direction,
                10,
                0,
                SINK_MAX_CURRENT_MA,
            );
            if state.focus != ControlFocus::CurrentLimit || adjusted
                == state.sink_current_limit_ma {
                None
            } else {
                next.sink_current_limit_ma = adjusted;
                Some(next)
            }
        },
        Screen::Channel(index) => match adjust_channel(
            state.channels[index as usize],
            index,
            state.focus,
            direction,
        ) {
            Some(channel) => {
                next.channels[index as usize] = channel;
                Some(next)
            },
            None => None,
        },
        _ => None,
    }
}

fn turn_waveform(waveform: AwgWaveform, forward: bool) -> (next: AwgWaveform)
    ensures
        next == waveform_turned(waveform, forward),
{
    match (waveform, forward) {
        (AwgWaveform::Square, true) => AwgWaveform::Triangle,
        (AwgWaveform::Triangle, true) => AwgWaveform::Ramp,
        (AwgWaveform::Ramp, true) => AwgWaveform::Sine,
        (AwgWaveform::Sine, true) => AwgWaveform::Square,
        (AwgWaveform::Square, false) => AwgWaveform::Sine,
        (AwgWaveform::Triangle, false) => AwgWaveform::Square,
        (AwgWaveform::Ramp, false) => AwgWaveform::Triangle,
        (AwgWaveform::Sine, false) => AwgWaveform::Ramp,
    }
}

fn switch_awg_channel(awg: AwgConfig) -> (next: AwgConfig)
    ensures
        next == awg_channel_switched(awg),
{
    let mut next: AwgConfig = awg;
    next.channel = if awg.channel == 3 {
        4
    } else {
        3
    };
    let range = voltage_range(next.channel);
    next.low_mv = clamp_u16(awg.low_mv, range.0, range.1);
    next.high_mv = clamp_u16(awg.high_mv, next.low_mv, range.1);
    next
}

fn adjust_frequency(awg: AwgConfig, direction: i8) -> (frequency: u32)
    ensures
        frequency as int == clamped(
            awg.frequency_millihz as int + direction as int * 100,
            AWG_MIN_FREQUENCY_MILLIHZ as int,
            awg.waveform.frequency_limit() as int,
        ),
{
    let limit: u32 = awg.waveform.max_frequency_millihz();
    let moved: i64 = awg.frequency_millihz as i64 + (direction as i64) * 100;
    if moved < AWG_MIN_FREQUENCY_MILLIHZ as i64 {
        AWG_MIN_FREQUENCY_MILLIHZ
    } else if moved > limit as i64 {
        limit
    } else {
        moved as u32
    }
}

fn adjust_awg_config(awg: AwgConfig, row: u8, direction: i8) -> (next: AwgConfig)
    ensures
        next == awg_config_adjusted(awg, row, direction),
{
    let mut next: AwgConfig = awg;
    let range = voltage_range(awg.channel);
    match row {
        0 => {
            next = switch_awg_channel(awg);
        },
        1 => {
            next.waveform = turn_waveform(awg.waveform, direction > 0);
        },
        2 => {
            next.frequency_millihz = adjust_frequency(awg, direction);
        },
        3 => {
            if awg.waveform == AwgWaveform::Square {
                next.duty_percent = stepped_u16(awg.duty_percent as u16, direction, 1, 1, 99) as u8;
            }
        },
        4 => {
            next.low_mv = stepped_u16(awg.low_mv, direction, 10, range.0, awg.high_mv);
        },
        5 => {
            next.high_mv = stepped_u16(awg.high_mv, direction, 10, awg.low_mv, range.1);
        },
        _ => {},
    }
    next
}

fn adjust_awg(state: &AppState, direction: i8) -> (next: Option<AppState>)
    ensures
        next == awg_adjusted(*state, direction),
{
    if direction == 0 || state.screen != Screen::Awg || !state.awg_editing || (
    state.menu_selection == 0 && !is_awg_idle(state.awg_status)) {
        return None;
    }
    let awg = adjust_awg_config(state.awg, state.menu_selection, direction);
    if awg == state.awg {
        return None;
    }
    let mut next: AppState = *state;
    next.awg = awg;
    Some(next)
}

fn regulate_drive(channel: &ChannelSnapshot, index: u8, measured_ma: u16) -> (drive: Option<u16>)
    ensures
        drive == regulated_drive(*channel, index as int, measured_ma),
{
    if channel.drive_mv > channel.setpoint_mv {
        let lowered: u16 = channel.drive_mv.saturating_sub(VOLTAGE_SLEW_STEP_MV);
        return Some(if lowered > channel.setpoint_mv {
            lowered
        } else {
            channel.setpoint_mv
        });
    }
    if channel.regulation_mode == RegulationMode::Cv {
        if channel.drive_mv == channel.setpoint_mv {
            return None;
        }
        let raised: u16 = channel.drive_mv.saturating_add(VOLTAGE_SLEW_STEP_MV);
        return Some(if raised < channel.setpoint_mv {
            raised
        } else {
            channel.setpoint_mv
        });
    }
    let error_ma: i32 = channel.current_limit_ma as i32 - measured_ma as i32;
    if -4 <= error_ma && error_ma <= 4 {
        return None;
    }
    let magnitude: u32 = if error_ma < 0 {
        (-error_ma) as u32
    } else {
        error_ma as u32
    };
    let step_mv: u16 = if magnitude > 100 {
        200
    } else {
        (magnitude * 2) as u16
    };
    let drive_mv: u16 = if error_ma < 0 {
        let floor: u16 = voltage_range(index).0;
        let lowered: u16 = channel.drive_mv.saturating_sub(step_mv);
        if lowered > floor {
            lowered
        } else {
            floor
        }
    } else {
        let raised: u16 = channel.drive_mv.saturating_add(step_mv);
        if raised < channel.setpoint_mv {
            raised
        } else {
            channel.setpoint_mv
        }
    };
    if drive_mv == channel.drive_mv {
        None
    } else {
        Some(drive_mv)
    }
}

fn regulate_channel(state: &AppState, index: u8, measurement: Measurement) -> (next: Option<
    AppState,
>)
    ensures
        next == transition(*state, Action::RegulateChannel { channel: index, measurement }),
{
    proof {
        reveal(settings_transition);
    }
    if index >= 5 {
        return None;
    }
    let mut channel: ChannelSnapshot = state.channels[index as usize];
    if index < 3 || !channel.physical_enabled || channel.transition != OutputTransition::Stable
        || !measurement.valid {
        return None;
    }
    match regulate_drive(&channel, index, measurement.milliamps) {
        Some(drive_mv) => {
            let mut next: AppState = *state;
            channel.drive_mv = drive_mv;
            next.channels[index as usize] = channel;
            Some(next)
        },
        None => None,
    }
}

fn set_output_requested(state: &AppState, index: u8, enabled: bool) -> (next: Option<AppState>)
    ensures
        next == output_requested(*state, index, enabled),
{
    if index >= 5 {
        return None;
    }
    let channel: ChannelSnapshot = state.channels[index as usize];
    if enabled && ((channel.requested_enabled && channel.transition == OutputTransition::Stable)
        || is_other_enabling(state, index as usize)) {
        return None;
    }
    let mut next: AppState = *state;
    next.channels[index as usize] = request_output(channel, enabled);
    Some(next)
}

fn toggle_output(state: &AppState, index: u8) -> (next: Option<AppState>)
    ensures
        next == output_toggled(*state, index),
{
    if index >= 5 {
        return None;
    }
    let channel: ChannelSnapshot = state.channels[index as usize];
    if channel.transition != OutputTransition::Stable || (!channel.requested_enabled
        && is_other_enabling(state, index as usize)) {
        return None;
    }
    let mut next: AppState = *state;
    next.channels[index as usize] = request_output(channel, !channel.requested_enabled);
    Some(next)
}

fn set_voltage(state: &AppState, index: u8, millivolts: u16) -> (next: Option<AppState>)
    ensures
        next == transition(*state, Action::SetVoltage { channel: index, millivolts }),
{
    proof {
        reveal(settings_transition);
    }
    if index != 3 && index != 4 {
        return None;
    }
    let range = voltage_range(index);
    let channel: ChannelSnapshot = state.channels[index as usize];
    if millivolts < range.0 || millivolts > range.1 || channel.transition
        != OutputTransition::Stable || channel.setpoint_mv == millivolts {
        return None;
    }
    let mut next: AppState = *state;
    next.channels[index as usize] = set_setpoint(channel, millivolts);
    Some(next)
}

fn set_current_limit(state: &AppState, index: u8, milliamps: u16) -> (next: Option<AppState>)
    ensures
        next == transition(*state, Action::SetCurrentLimit { channel: index, milliamps }),
{
    proof {
        reveal(settings_transition);
    }
    if index >= 5 || milliamps > CHANNEL_MAX_CURRENT_MA {
        return None;
    }
    let mut channel: ChannelSnapshot = state.channels[index as usize];
    if channel.transition != OutputTransition::Stable || channel.current_limit_ma == milliamps {
        return None;
    }
    let mut next: AppState = *state;
    channel.current_limit_ma = milliamps;
    next.channels[index as usize] = channel;
    Some(next)
}

fn set_regulation_mode(state: &AppState, index: u8, mode: RegulationMode) -> (next: Option<
    AppState,
>)
    ensures
        next == transition(*state, Action::SetRegulationMode { channel: index, mode }),
{
    proof {
        reveal(settings_transition);
    }
    if index < 3 || index >= 5 {
        return None;
    }
    let channel: ChannelSnapshot = state.channels[index as usize];
    if channel.transition != OutputTransition::Stable || channel.regulation_mode == mode {
        return None;
    }
    let mut next: AppState = *state;
    next.channels[index as usize] = set_mode(channel, mode);
    Some(next)
}

fn energize_output(state: &AppState, index: u8, operation: u16) -> (next: Option<AppState>)
    ensures
        next == output_energized(*state, index, operation),
{
    if index >= 5 {
        return None;
    }
    let mut channel: ChannelSnapshot = state.channels[index as usize];
    if channel.transition != OutputTransition::Enabling(operation) || !channel.requested_enabled
        || channel.physical_enabled {
        return None;
    }
    let mut next: AppState = *state;
    channel.physical_enabled = true;
    next.channels[index as usize] = channel;
    Some(next)
}

fn apply_output(state: &AppState, index: u8, operation: u16, enabled: bool) -> (next: Option<
    AppState,
>)
    ensures
        next == output_applied(*state, index, operation, enabled),
{
    if index >= 5 {
        return None;
    }
    let mut channel: ChannelSnapshot = state.channels[index as usize];
    let expected = if enabled {
        OutputTransition::Enabling(operation)
    } else {
        OutputTransition::Disabling(operation)
    };
    if channel.transition != expected || channel.requested_enabled != enabled {
        return None;
    }
    let mut next: AppState = *state;
    channel.physical_enabled = enabled;
    channel.transition = OutputTransition::Stable;
    next.channels[index as usize] = channel;
    if index == state.active_awg_channel() {
        if enabled && state.awg_status == AwgStatus::Starting {
            next.awg_status = AwgStatus::Running;
        } else if !enabled && is_awg_live(state.awg_status) {
            next = halt_awg(&next);
        }
    }
    Some(next)
}

fn fail_output(state: &AppState, index: u8, operation: u16, fault: Fault) -> (next: Option<
    AppState,
>)
    ensures
        next == output_failed(*state, index, operation, fault),
{
    if index >= 5 {
        return None;
    }
    let mut channel: ChannelSnapshot = state.channels[index as usize];
    if channel.transition != OutputTransition::Enabling(operation) && channel.transition
        != OutputTransition::Disabling(operation) {
        return None;
    }
    let mut next: AppState = *state;
    channel.requested_enabled = false;
    channel.physical_enabled = false;
    channel.transition = OutputTransition::Stable;
    channel.fault = fault;
    next.channels[index as usize] = channel;
    next.awg_status = status_after_failure(state, index);
    Some(next)
}

fn trip_protection(state: &AppState, index: u8, fault: Fault) -> (next: Option<AppState>)
    ensures
        next == protection_tripped(*state, index, fault),
{
    if index >= 5 {
        return None;
    }
    let mut channel: ChannelSnapshot = state.channels[index as usize];
    if !channel.requested_enabled && !channel.physical_enabled && channel.fault == fault
        && channel.transition == OutputTransition::Stable {
        return None;
    }
    let mut next: AppState = *state;
    channel.operation = channel.operation.wrapping_add(1);
    channel.requested_enabled = false;
    channel.fault = fault;
    channel.transition = OutputTransition::Disabling(channel.operation);
    next.channels[index as usize] = channel;
    next.awg_status = status_after_failure(state, index);
    Some(next)
}

fn fail_setting(state: &AppState, index: u8, fault: Fault) -> (next: Option<AppState>)
    ensures
        next == setting_failed(*state, index, fault),
{
    if index >= 5 {
        return None;
    }
    let mut channel: ChannelSnapshot = state.channels[index as usize];
    let mut next: AppState = *state;
    channel.operation = channel.operation.wrapping_add(1);
    channel.requested_enabled = false;
    channel.physical_enabled = false;
    channel.transition = OutputTransition::Stable;
    channel.fault = fault;
    next.channels[index as usize] = channel;
    next.awg_status = status_after_failure(state, index);
    Some(next)
}

/// Marks every output as switched off.
fn all_shut_down(state: &AppState) -> (next: AppState)
    ensures
        next == state.map_channels(|i: int, channel: ChannelSnapshot| shut_down(channel)),
{
    let mut next: AppState = *state;
    let mut index: usize = 0;
    while index < 5
        invariant
            index <= 5,
            next == (AppState { channels: next.channels, ..*state }),
            forall|i: int|
                0 <= i < index ==> #[trigger] next.channels[i] == shut_down(state.channels[i]),
            forall|i: int| index <= i < 5 ==> #[trigger] next.channels[i] == state.channels[i],
        decreases 5 - index,
    {
        let mut channel: ChannelSnapshot = next.channels[index];
        channel.requested_enabled = false;
        channel.physical_enabled = false;
        channel.transition = OutputTransition::Stable;
        next.channels[index] = channel;
        index = index + 1;
    }
    assert(next.channels =~= state.map_channels(
        |i: int, channel: ChannelSnapshot| shut_down(channel),
    ).channels);
    next
}

fn shut_down_all(state: &AppState) -> (next: AppState)
    ensures
        next == globally_shut_down(*state),
{
    let off: AppState = all_shut_down(state);
    if is_awg_live(state.awg_status) {
        halt_awg(&off)
    } else {
        off
    }
}

fn fail_all(state: &AppState) -> (next: AppState)
    ensures
        next == global_shutdown_failed(*state),
{
    let mut next: AppState = *state;
    next.awg_status = AwgStatus::Fault;
    let mut index: usize = 0;
    while index < 5
        invariant
            index <= 5,
            next == (AppState {
                channels: next.channels,
                awg_status: AwgStatus::Fault,
                ..*state
            }),
            forall|i: int|
                0 <= i < index ==> #[trigger] next.channels[i] == shutdown_failed(
                    state.channels[i],
                ),
            forall|i: int| index <= i < 5 ==> #[trigger] next.channels[i] == state.channels[i],
        decreases 5 - index,
    {
        let mut channel: ChannelSnapshot = next.channels[index];
        channel.requested_enabled = false;
        channel.transition = OutputTransition::Stable;
        channel.fault = Fault::Hardware;
        next.channels[index] = channel;
        index = index + 1;
    }
    assert(next.channels =~= global_shutdown_failed(*state).channels);
    next
}

fn prepare_awg_start(state: &AppState) -> (next: Option<AppState>)
    ensures
        next == awg_start_prepared(*state),
{
    let index: usize = state.active_awg_channel() as usize;
    if state.awg_status != AwgStatus::StartRequested || index >= 5 || is_other_enabling(
        state,
        index,
    ) {
        return None;
    }
    let mut next: AppState = *state;
    let mut channel: ChannelSnapshot = request_output(state.channels[index], true);
    channel.drive_mv = match state.awg_source {
        AwgSource::Builtin => state.awg.low_mv,
        AwgSource::Arbitrary => state.arb_run.initial_mv,
    };
    next.channels[index] = channel;
    next.awg_status = AwgStatus::Starting;
    Some(next)
}

fn apply_awg_sample(state: &AppState, millivolts: u16) -> (next: Option<AppState>)
    ensures
        next == awg_sampled(*state, millivolts),
{
    let index: usize = state.active_awg_channel() as usize;
    if state.awg_status != AwgStatus::Running || index >= 5 {
        return None;
    }
    let mut channel: ChannelSnapshot = state.channels[index];
    if !channel.physical_enabled || channel.transition != OutputTransition::Stable
        || channel.drive_mv == millivolts {
        return None;
    }
    let mut next: AppState = *state;
    channel.drive_mv = millivolts;
    next.channels[index] = channel;
    Some(next)
}

fn apply_profile(state: &AppState, settings: PersistentSettings, status: ProfileStatus) -> (next:
    AppState)
    ensures
        next == profile_applied(*state, settings, status),
{
    let mut next: AppState = all_shut_down(state);
    settings.apply_to(&mut next);
    next.profile_request = ProfileRequest::Idle;
    next.profile_status = status;
    next.awg_status = if state.awg_status == AwgStatus::Fault {
        AwgStatus::Fault
    } else {
        AwgStatus::Stopped
    };
    next
}

fn finish_profile_operation(state: &AppState, status: ProfileStatus) -> (next: Option<AppState>)
    ensures
        next == transition(*state, Action::ProfileOperationFinished(status)),
{
    proof {
        reveal(record_transition);
    }
    let mut next: AppState = *state;
    next.profile_request = ProfileRequest::Idle;
    next.profile_status = status;
    if let ProfileStatus::Saved(slot) = status {
        if slot < 3 {
            next.profile_present[slot as usize] = true;
        }
    }
    Some(next)
}

fn record_temperature(state: &AppState, sample: Option<i16>) -> (next: Option<AppState>)
    ensures
        next == transition(*state, Action::Temperature(sample)),
{
    proof {
        reveal(record_transition);
    }
    let mut next: AppState = *state;
    match sample {
        Some(raw) => {
            if state.temp_valid && state.temp_sixteenths_c == raw {
                return None;
            }
            next.temp_sixteenths_c = raw;
            next.temp_valid = true;
        },
        None => {
            if !state.temp_valid {
                return None;
            }
            next.temp_valid = false;
        },
    }
    Some(next)
}

fn record_measurements(state: &AppState, measurements: [Measurement; 5]) -> (next: Option<
    AppState,
>)
    ensures
        next == transition(*state, Action::Measurements(measurements)),
{
    proof {
        reveal(record_transition);
    }
    let mut next: AppState = *state;
    let mut same: bool = true;
    let mut index: usize = 0;
    while index < 5
        invariant
            index <= 5,
            next == (AppState { channels: next.channels, ..*state }),
            same == forall|i: int|
                0 <= i < index ==> (#[trigger] state.channels[i]).measurement == measurements[i],
            forall|i: int|
                0 <= i < index ==> #[trigger] next.channels[i] == (ChannelSnapshot {
                    measurement: measurements[i],
                    ..state.channels[i]
                }),
            forall|i: int| index <= i < 5 ==> #[trigger] next.channels[i] == state.channels[i],
        decreases 5 - index,
    {
        let mut channel: ChannelSnapshot = next.channels[index];
        assert(channel == state.channels[index as int]);
        if channel.measurement != measurements[index] {
            same = false;
        }
        channel.measurement = measurements[index];
        next.channels[index] = channel;
        index = index + 1;
    }
    if same {
        return None;
    }
    assert(next.channels =~= state.map_channels(
        |i: int, channel: ChannelSnapshot|
            ChannelSnapshot { measurement: measurements[i], ..channel },
    ).channels);
    Some(next)
}

fn fail_pd(state: &AppState, error: PdError) -> (next: Option<AppState>)
    ensures
        next == transition(*state, Action::PdFailed(error)),
{
    proof {
        reveal(input_transition);
    }
    let mut next: AppState = *state;
    next.pd_contract = None;
    next.pd_error = Some(error);
    next.pd_negotiating = false;
    if state.any_output_active() {
        next.sink_fault = Fault::Hardware;
    }
    Some(next)
}

fn navigate(state: &AppState, action: Action) -> (next: Option<AppState>)
    requires
        action is NextScreen || action is PreviousScreen || action is GoOverview
            || action is GoMainMenu || action is RequestReboot,
    ensures
        next == transition(*state, action),
{
    proof {
        reveal(navigation_transition);
    }
    let mut next: AppState = *state;
    match action {
        Action::NextScreen => {
            next.screen = state.screen.next();
            next.focus = ControlFocus::Unfocused;
        },
        Action::PreviousScreen => {
            next.screen = state.screen.previous();
            next.focus = ControlFocus::Unfocused;
        },
        Action::GoOverview => {
            if state.screen == Screen::Overview && state.focus == ControlFocus::Unfocused {
                return None;
            }
            next.screen = Screen::Overview;
            next.focus = ControlFocus::Unfocused;
        },
        Action::GoMainMenu => {
            if state.screen == Screen::MainMenu && state.focus == ControlFocus::Unfocused {
                return None;
            }
            next = enter(state, Screen::MainMenu);
        },
        _ => {
            if state.reboot_requested {
                return None;
            }
            next.reboot_requested = true;
        },
    }
    Some(next)
}

fn start_arb(state: &AppState, run: ArbRun) -> (next: Option<AppState>)
    ensures
        next == transition(
            *state,
            Action::RequestArbStart {
                channel: run.channel,
                initial_mv: run.initial_mv,
                low_mv: run.low_mv,
                high_mv: run.high_mv,
            },
        ),
{
    proof {
        reveal(awg_transition);
    }
    if (run.channel != 3 && run.channel != 4) || !is_awg_idle(state.awg_status) {
        return None;
    }
    let mut next: AppState = *state;
    next.awg_source = AwgSource::Arbitrary;
    next.awg_status = AwgStatus::StartRequested;
    next.arb_run = run;
    Some(next)
}

/// Navigation: screens, menus and focus.
fn step_navigation(state: &AppState, action: Action) -> (next: Option<AppState>)
    requires
        action is NextScreen
            || action is PreviousScreen
            || action is GoOverview
            || action is GoMainMenu
            || action is RequestReboot
            || action is NavigateMenu
            || action is ActivateMenu
            || action is NextControl,
    ensures
        next == transition(*state, action),
{
    proof {
        reveal(navigation_transition);
    }
    match action {
        Action::NextScreen => navigate(state, Action::NextScreen),
        Action::PreviousScreen => navigate(state, Action::PreviousScreen),
        Action::GoOverview => navigate(state, Action::GoOverview),
        Action::GoMainMenu => navigate(state, Action::GoMainMenu),
        Action::RequestReboot => navigate(state, Action::RequestReboot),
        Action::NavigateMenu(direction) => navigate_menu(state, direction),
        Action::ActivateMenu => activate_menu(state),
        Action::NextControl => advance_control(state),
        _ => None,
    }
}

/// Edits of settings and requests to switch outputs.
fn step_settings(state: &AppState, action: Action) -> (next: Option<AppState>)
    requires
        edits_screen(action) ==> state.screen.in_range(),
        action is AdjustFocused
            || action is AdjustAwg
            || action is ToggleOutputRequested
            || action is SetVoltage
            || action is SetCurrentLimit
            || action is SetRegulationMode
            || action is RegulateChannel
            || action is SetSinkCurrentLimit
            || action is SetOutputRequested,
    ensures
        next == transition(*state, action),
{
    proof {
        reveal(settings_transition);
    }
    let mut next: AppState = *state;
    match action {
        Action::AdjustFocused(direction) => adjust_focused(state, direction),
        Action::AdjustAwg(direction) => adjust_awg(state, direction),
        Action::ToggleOutputRequested { channel } => toggle_output(state, channel),
        Action::SetVoltage { channel, millivolts } => set_voltage(state, channel, millivolts),
        Action::SetCurrentLimit { channel, milliamps } => set_current_limit(
            state,
            channel,
            milliamps,
        ),
        Action::SetRegulationMode { channel, mode } => set_regulation_mode(state, channel, mode),
        Action::RegulateChannel { channel, measurement } => regulate_channel(
            state,
            channel,
            measurement,
        ),
        Action::SetSinkCurrentLimit(milliamps) => {
            if milliamps > SINK_MAX_CURRENT_MA || state.sink_current_limit_ma == milliamps {
                return None;
            }
            next.sink_current_limit_ma = milliamps;
            Some(next)
        },
        Action::SetOutputRequested { channel, enabled } => set_output_requested(
            state,
            channel,
            enabled,
        ),
        _ => None,
    }
}

/// News from the power hardware.
fn step_hardware(state: &AppState, action: Action) -> (next: Option<AppState>)
    requires
        action is OutputEnergized
            || action is OutputApplied
            || action is OutputFailed
            || action is ProtectionTrip
            || action is HardwareSettingApplied
            || action is HardwareSettingFailed
            || action is GlobalShutdownApplied
            || action is GlobalShutdownFailed,
    ensures
        next == transition(*state, action),
{
    proof {
        reveal(hardware_transition);
    }
    match action {
        Action::OutputEnergized { channel, operation } => energize_output(
            state,
            channel,
            operation,
        ),
        Action::OutputApplied { channel, operation, enabled } => apply_output(
            state,
            channel,
            operation,
            enabled,
        ),
        Action::OutputFailed { channel, operation, fault } => fail_output(
            state,
            channel,
            operation,
            fault,
        ),
        Action::ProtectionTrip { channel, fault } => trip_protection(state, channel, fault),
        Action::HardwareSettingApplied => None,
        Action::HardwareSettingFailed { channel, fault } => fail_setting(state, channel, fault),
        Action::GlobalShutdownApplied => Some(shut_down_all(state)),
        Action::GlobalShutdownFailed => Some(fail_all(state)),
        _ => None,
    }
}

/// News from the USB PD input.
fn step_input(state: &AppState, action: Action) -> (next: Option<AppState>)
    requires
        action is PdNegotiationStarted
            || action is PdNegotiated
            || action is PdFailed
            || action is SinkProtectionTrip
            || action is SinkProtectionRecovered
            || action is SinkMeasurement,
    ensures
        next == transition(*state, action),
{
    proof {
        reveal(input_transition);
    }
    let mut next: AppState = *state;
    match action {
        Action::PdNegotiationStarted => {
            next.pd_contract = None;
            next.pd_error = None;
            next.pd_negotiating = true;
            Some(next)
        },
        Action::PdNegotiated(contract) => {
            next.pd_contract = Some(contract);
            next.pd_error = None;
            next.pd_negotiating = false;
            Some(next)
        },
        Action::PdFailed(error) => fail_pd(state, error),
        Action::SinkProtectionTrip(fault) => {
            if state.sink_fault == fault {
                return None;
            }
            next.sink_fault = fault;
            Some(next)
        },
        Action::SinkProtectionRecovered => {
            if state.sink_fault == Fault::Clear {
                return None;
            }
            next.sink_fault = Fault::Clear;
            Some(next)
        },
        Action::SinkMeasurement(measurement) => {
            if state.sink == measurement {
                return None;
            }
            next.sink = measurement;
            Some(next)
        },
        _ => None,
    }
}

/// Waveform generation.
fn step_awg(state: &AppState, action: Action) -> (next: Option<AppState>)
    requires
        action is RequestArbStart
            || action is AwgStartPrepared
            || action is AwgSample
            || action is AwgStopped
            || action is AwgLoadMeasurement,
    ensures
        next == transition(*state, action),
{
    proof {
        reveal(awg_transition);
    }
    let mut next: AppState = *state;
    match action {
        Action::RequestArbStart { channel, initial_mv, low_mv, high_mv } => start_arb(
            state,
            ArbRun { channel, initial_mv, low_mv, high_mv },
        ),
        Action::AwgStartPrepared => prepare_awg_start(state),
        Action::AwgSample(millivolts) => apply_awg_sample(state, millivolts),
        Action::AwgStopped => {
            if state.awg_status == AwgStatus::Stopped {
                return None;
            }
            Some(halt_awg(state))
        },
        Action::AwgLoadMeasurement(load) => {
            if state.awg_load == load {
                return None;
            }
            next.awg_load = load;
            Some(next)
        },
        _ => None,
    }
}

/// Profiles and sensor readings.
fn step_records(state: &AppState, action: Action) -> (next: Option<AppState>)
    requires
        action is ApplyProfile
            || action is ProfileOperationFinished
            || action is Temperature
            || action is Measurements,
    ensures
        next == transition(*state, action),
{
    proof {
        reveal(record_transition);
    }
    match action {
        Action::ApplyProfile(settings, status) => Some(apply_profile(state, settings, status)),
        Action::ProfileOperationFinished(status) => finish_profile_operation(state, status),
        Action::Temperature(sample) => record_temperature(state, sample),
        Action::Measurements(measurements) => record_measurements(state, measurements),
        _ => None,
    }
}

fn step(state: &AppState, action: Action) -> (next: Option<AppState>)
    requires
        edits_screen(action) ==> state.screen.in_range(),
    ensures
        next == transition(*state, action),
{
    match action {
        Action::NextScreen
        | Action::PreviousScreen
        | Action::GoOverview
        | Action::GoMainMenu
        | Action::RequestReboot
        | Action::NavigateMenu(_)
        | Action::ActivateMenu
        | Action::NextControl => step_navigation(state, action),
        Action::AdjustFocused(_)
        | Action::AdjustAwg(_)
        | Action::ToggleOutputRequested { .. }
        | Action::SetVoltage { .. }
        | Action::SetCurrentLimit { .. }
        | Action::SetRegulationMode { .. }
        | Action::RegulateChannel { .. }
        | Action::SetSinkCurrentLimit(_)
        | Action::SetOutputRequested { .. } => step_settings(state, action),
        Action::OutputEnergized { .. }
        | Action::OutputApplied { .. }
        | Action::OutputFailed { .. }
        | Action::ProtectionTrip { .. }
        | Action::HardwareSettingApplied
        | Action::HardwareSettingFailed { .. }
        | Action::GlobalShutdownApplied
        | Action::GlobalShutdownFailed => step_hardware(state, action),
        Action::PdNegotiationStarted
        | Action::PdNegotiated(_)
        | Action::PdFailed(_)
        | Action::SinkProtectionTrip(_)
        | Action::SinkProtectionRecovered
        | Action::SinkMeasurement(_) => step_input(state, action),
        Action::RequestArbStart { .. }
        | Action::AwgStartPrepared
        | Action::AwgSample(_)
        | Action::AwgStopped
        | Action::AwgLoadMeasurement(_) => step_awg(state, action),
        Action::ApplyProfile(_, _)
        | Action::ProfileOperationFinished(_)
        | Action::Temperature(_)
        | Action::Measurements(_) => step_records(state, action),
    }
}

impl AppReducer {
    /// The state that `action` leads to from `state`.
    pub fn reduce(state: &AppState, action: Action) -> (next: AppState)
        requires
            edits_screen(action) ==> state.screen.in_range(),
        ensures
            next == reduced(*state, action),
    {
        match step(state, action) {
            Some(changed) => {
                if is_same_but_version(&changed, state) {
                    return *state;
                }
                let mut next: AppState = changed;
                next.version = state.version.wrapping_add(1);
                next
            },
            None => *state,
        }
    }
}

} // verus!
