//! What every action does to the state, in the units that the user sees.

use crate::app::{
    Action, AppState, AwgSource, AwgStatus, AwgWaveform, ChannelSnapshot, ControlFocus, Fault,
    LoadMeasurement, Measurement, OutputTransition, ProfileRequest, ProfileStatus, RegulationMode,
    Screen,
};
use crate::pd::{Contract, PdError};
use crate::reducer::{
    awg_transition, hardware_transition, input_transition, navigation_transition,
    record_transition, reduced, settings_transition,
};
use crate::settings::PersistentSettings;
use vstd::prelude::*;

verus! {

broadcast use {crate::app::group_map_channels, crate::reducer::group_awg_halted};

/// `new` is `old` moved by `by`, or the end of `low..=high` that it ran into on
/// the way.
pub open spec fn moved(old: int, by: int, low: int, high: int, new: int) -> bool {
    &&& by >= 0 ==> old <= new <= old + by && (new == old + by || new == high)
    &&& by <= 0 ==> old + by <= new <= old && (new == old + by || new == low)
    &&& low <= new <= high
}

/// The lowest voltage of an adjustable channel, in millivolts: 0.5 V on channel
/// 4 and 0.8 V on channel 5.
pub open spec fn lowest(channel: int) -> int {
    if channel == 3 {
        500
    } else {
        800
    }
}

/// The highest voltage of an adjustable channel, in millivolts: 5 V on channel 4
/// and 22 V on channel 5.
pub open spec fn highest(channel: int) -> int {
    if channel == 3 {
        5_000
    } else {
        22_000
    }
}

/// Nothing but the waveform's settings differs.
pub open spec fn only_awg(before: AppState, after: AppState) -> bool {
    after == AppState { version: after.version, awg: after.awg, ..before }
}

/// Nothing but channel `index` differs.
pub open spec fn only_channel(before: AppState, after: AppState, index: int) -> bool {
    &&& after == AppState { version: after.version, channels: after.channels, ..before }
    &&& forall|i: int|
        0 <= i < 5 && i != index ==> #[trigger] after.channels[i] == before.channels[i]
}

/// Nothing but channel `index` and the waveform's status differs.
pub open spec fn only_channel_and_awg_status(
    before: AppState,
    after: AppState,
    index: int,
) -> bool {
    &&& after == AppState {
        version: after.version,
        channels: after.channels,
        awg_status: after.awg_status,
        ..before
    }
    &&& forall|i: int|
        0 <= i < 5 && i != index ==> #[trigger] after.channels[i] == before.channels[i]
}

/// A turn on the waveform screen moves the value of the row that is edited, in
/// the direction of the turn, and nothing else: 10 mV on the low and the high
/// level, which stay in order and inside the channel's range; 0.1 Hz on the
/// frequency, between 0.1 Hz and 120 Hz; one per cent on the duty of a square
/// wave.
pub proof fn waveform_edits_move_their_row(state: AppState, direction: i8)
    requires
        state.awg.wf(),
        state.screen == Screen::Awg,
        state.awg_editing,
    ensures
        ({
            let next = reduced(state, Action::AdjustAwg(direction));
            let old = state.awg;
            let new = next.awg;
            let by = direction as int;
            let row = state.menu_selection;
            &&& only_awg(state, next)
            &&& row == 5 ==> {
                &&& moved(
                    old.high_mv as int,
                    10 * by,
                    old.low_mv as int,
                    highest(old.channel as int),
                    new.high_mv as int,
                )
                &&& new == crate::app::AwgConfig { high_mv: new.high_mv, ..old }
            }
            &&& row == 4 ==> {
                &&& moved(
                    old.low_mv as int,
                    10 * by,
                    lowest(old.channel as int),
                    old.high_mv as int,
                    new.low_mv as int,
                )
                &&& new == crate::app::AwgConfig { low_mv: new.low_mv, ..old }
            }
            &&& row == 3 ==> {
                &&& old.waveform == AwgWaveform::Square ==> moved(
                    old.duty_percent as int,
                    by,
                    1,
                    99,
                    new.duty_percent as int,
                )
                &&& old.waveform != AwgWaveform::Square ==> new == old
                &&& new == crate::app::AwgConfig { duty_percent: new.duty_percent, ..old }
            }
            &&& row == 2 ==> {
                &&& moved(
                    old.frequency_millihz as int,
                    100 * by,
                    100,
                    120_000,
                    new.frequency_millihz as int,
                )
                &&& new == crate::app::AwgConfig {
                    frequency_millihz: new.frequency_millihz,
                    ..old
                }
            }
            &&& row == 1 ==> new == crate::app::AwgConfig { waveform: new.waveform, ..old }
            &&& row == 1 ==> (new.waveform == old.waveform <==> by == 0)
            &&& row == 0 && by != 0 && (state.awg_status is Stopped || state.awg_status is Fault)
                ==> new.channel == 7 - old.channel
            &&& row == 0 && !(state.awg_status is Stopped || state.awg_status is Fault) ==> new
                == old
            &&& row == 0 ==> {
                &&& lowest(new.channel as int) <= new.low_mv <= new.high_mv <= highest(
                    new.channel as int,
                )
                &&& lowest(new.channel as int) <= old.low_mv <= highest(new.channel as int)
                    ==> new.low_mv == old.low_mv
                &&& old.low_mv < lowest(new.channel as int) ==> new.low_mv == lowest(
                    new.channel as int,
                )
                &&& old.low_mv > highest(new.channel as int) ==> new.low_mv == highest(
                    new.channel as int,
                )
                &&& new.low_mv <= old.high_mv <= highest(new.channel as int) ==> new.high_mv
                    == old.high_mv
                &&& old.high_mv > highest(new.channel as int) ==> new.high_mv == highest(
                    new.channel as int,
                )
                &&& old.high_mv < new.low_mv ==> new.high_mv == new.low_mv
                &&& new == crate::app::AwgConfig {
                    channel: new.channel,
                    low_mv: new.low_mv,
                    high_mv: new.high_mv,
                    ..old
                }
            }
            &&& row > 5 ==> new == old
        }),
{
    reveal(settings_transition);
}

/// Turning on through the shapes passes each of the four once; turning back
/// takes the last turn back, whatever its speed.
pub proof fn shapes_come_round(state: AppState, forward: i8, backward: i8)
    requires
        state.screen == Screen::Awg,
        state.awg_editing,
        state.menu_selection == 1,
        forward > 0,
        backward < 0,
    ensures
        ({
            let one = reduced(state, Action::AdjustAwg(forward));
            let two = reduced(one, Action::AdjustAwg(forward));
            let three = reduced(two, Action::AdjustAwg(forward));
            let four = reduced(three, Action::AdjustAwg(forward));
            &&& reduced(one, Action::AdjustAwg(backward)).awg == state.awg
            &&& two.awg.waveform != state.awg.waveform
            &&& three.awg.waveform != state.awg.waveform
            &&& two.awg.waveform != one.awg.waveform
            &&& four.awg == state.awg
        }),
        state.awg.waveform == AwgWaveform::Square ==> reduced(
            state,
            Action::AdjustAwg(forward),
        ).awg.waveform == AwgWaveform::Triangle,
        state.awg.waveform == AwgWaveform::Triangle ==> reduced(
            state,
            Action::AdjustAwg(forward),
        ).awg.waveform == AwgWaveform::Ramp,
{
    reveal(settings_transition);
}

/// Off the waveform screen, and while no row is edited, a turn leaves the
/// waveform alone.
pub proof fn waveform_edits_need_an_edited_row(state: AppState, direction: i8)
    requires
        state.screen != Screen::Awg || !state.awg_editing || direction == 0,
    ensures
        reduced(state, Action::AdjustAwg(direction)) == state,
{
    reveal(settings_transition);
}

/// A turn on a channel's screen moves the value in focus: 10 mV on the voltage
/// of channel 4 and 5, inside its range, and 10 mA on the current limit, up to
/// 3 A; on the mode it switches between constant voltage and constant current.
/// Nothing of any other channel changes, and nothing at all while the output is
/// being switched.
pub proof fn channel_edits_move_the_value_in_focus(state: AppState, channel: u8, direction: i8)
    requires
        state.wf(),
        channel < 5,
        state.screen == Screen::Channel(channel),
        direction != 0,
    ensures
        ({
            let next = reduced(state, Action::AdjustFocused(direction));
            let old = state.channels[channel as int];
            let new = next.channels[channel as int];
            let by = direction as int;
            &&& only_channel(state, next, channel as int)
            &&& old.transition != OutputTransition::Stable ==> new == old
            &&& old.transition == OutputTransition::Stable ==> {
                &&& state.focus == ControlFocus::Voltage && channel >= 3 ==> {
                    &&& moved(
                        old.setpoint_mv as int,
                        10 * by,
                        lowest(channel as int),
                        highest(channel as int),
                        new.setpoint_mv as int,
                    )
                    &&& new == ChannelSnapshot {
                        setpoint_mv: new.setpoint_mv,
                        drive_mv: new.drive_mv,
                        ..old
                    }
                    &&& old.physical_enabled ==> new.drive_mv == old.drive_mv
                    &&& !old.physical_enabled && new.setpoint_mv != old.setpoint_mv
                        ==> new.drive_mv == new.setpoint_mv
                }
                &&& state.focus == ControlFocus::CurrentLimit ==> {
                    &&& moved(
                        old.current_limit_ma as int,
                        10 * by,
                        0,
                        3_000,
                        new.current_limit_ma as int,
                    )
                    &&& new == ChannelSnapshot { current_limit_ma: new.current_limit_ma, ..old }
                }
                &&& state.focus == ControlFocus::RegulationMode && channel >= 3 ==> {
                    &&& new.regulation_mode != old.regulation_mode
                    &&& new == ChannelSnapshot {
                        regulation_mode: new.regulation_mode,
                        drive_mv: new.drive_mv,
                        ..old
                    }
                    &&& old.physical_enabled ==> new.drive_mv == old.drive_mv
                    &&& !old.physical_enabled ==> new.drive_mv == old.setpoint_mv
                }
                &&& (state.focus == ControlFocus::Voltage || state.focus
                    == ControlFocus::RegulationMode) && channel < 3 ==> new == old
                &&& (state.focus == ControlFocus::Unfocused || state.focus
                    == ControlFocus::Output || state.focus is OverviewOutput) ==> new == old
            }
        }),
{
    reveal(settings_transition);
    assert(state.channels[channel as int].current_limit_ma <= 3_000);
    if channel >= 3 {
        assert(lowest(channel as int) <= state.channels[channel as int].setpoint_mv <= highest(
            channel as int,
        ));
    }
}

/// A turn on the input's screen moves the input limit by 10 mA, up to 5 A, while
/// it is in focus; on the other screens a turn edits nothing.
pub proof fn input_edits_move_the_input_limit(state: AppState, direction: i8)
    requires
        state.wf(),
        !(state.screen is Channel),
    ensures
        ({
            let next = reduced(state, Action::AdjustFocused(direction));
            let edits = state.screen == Screen::UsbPdInput && state.focus
                == ControlFocus::CurrentLimit;
            &&& next == AppState {
                version: next.version,
                sink_current_limit_ma: next.sink_current_limit_ma,
                ..state
            }
            &&& edits ==> moved(
                state.sink_current_limit_ma as int,
                10 * direction as int,
                0,
                5_000,
                next.sink_current_limit_ma as int,
            )
            &&& !edits ==> next.sink_current_limit_ma == state.sink_current_limit_ma
        }),
{
    reveal(settings_transition);
}

/// A voltage that is asked for is in force afterwards, where the channel is an
/// adjustable one, the voltage lies in its range, and the output is not being
/// switched; else nothing changes. The drive of an output that is off is there
/// at once.
pub proof fn voltages_are_set_as_asked(state: AppState, channel: u8, millivolts: u16)
    requires
        channel < 5,
    ensures
        ({
            let next = reduced(state, Action::SetVoltage { channel, millivolts });
            let old = state.channels[channel as int];
            let new = next.channels[channel as int];
            let taken = old.transition == OutputTransition::Stable && channel >= 3 && lowest(
                channel as int,
            ) <= millivolts <= highest(channel as int);
            &&& only_channel(state, next, channel as int)
            &&& !taken ==> next == state
            &&& taken ==> new.setpoint_mv == millivolts
            &&& taken && old.physical_enabled ==> new.drive_mv == old.drive_mv
            &&& taken && !old.physical_enabled && old.setpoint_mv != millivolts ==> new.drive_mv
                == millivolts
            &&& new == ChannelSnapshot {
                setpoint_mv: new.setpoint_mv,
                drive_mv: new.drive_mv,
                ..old
            }
        }),
{
    reveal(settings_transition);
}

/// A current limit that is asked for is in force afterwards, up to 3 A, where
/// the output is not being switched; else nothing changes.
pub proof fn limits_are_set_as_asked(state: AppState, channel: u8, milliamps: u16)
    requires
        channel < 5,
    ensures
        ({
            let next = reduced(state, Action::SetCurrentLimit { channel, milliamps });
            let old = state.channels[channel as int];
            let taken = old.transition == OutputTransition::Stable && milliamps <= 3_000;
            &&& only_channel(state, next, channel as int)
            &&& !taken ==> next == state
            &&& taken ==> next.channels[channel as int] == ChannelSnapshot {
                current_limit_ma: milliamps,
                ..old
            }
        }),
{
    reveal(settings_transition);
}

/// A mode that is asked for is in force afterwards on channel 4 and 5, where the
/// output is not being switched; else nothing changes.
pub proof fn modes_are_set_as_asked(state: AppState, channel: u8, mode: RegulationMode)
    requires
        channel < 5,
    ensures
        ({
            let next = reduced(state, Action::SetRegulationMode { channel, mode });
            let old = state.channels[channel as int];
            let new = next.channels[channel as int];
            let taken = old.transition == OutputTransition::Stable && channel >= 3;
            &&& only_channel(state, next, channel as int)
            &&& !taken ==> next == state
            &&& taken ==> new.regulation_mode == mode
            &&& old.physical_enabled ==> new.drive_mv == old.drive_mv
            &&& taken && !old.physical_enabled && old.regulation_mode != mode ==> new.drive_mv
                == old.setpoint_mv
            &&& new == ChannelSnapshot {
                regulation_mode: new.regulation_mode,
                drive_mv: new.drive_mv,
                ..old
            }
        }),
{
    reveal(settings_transition);
}

/// An input limit that is asked for is in force afterwards, up to 5 A.
pub proof fn the_input_limit_is_set_as_asked(state: AppState, milliamps: u16)
    ensures
        ({
            let next = reduced(state, Action::SetSinkCurrentLimit(milliamps));
            next == AppState {
                version: next.version,
                sink_current_limit_ma: if milliamps <= 5_000 {
                    milliamps
                } else {
                    state.sink_current_limit_ma
                },
                ..state
            }
        }),
{
    reveal(settings_transition);
}

/// An output that is on follows its setpoint: in constant voltage the drive
/// comes closer to the setpoint with every sample, by 200 mV at most, until it is
/// there; in constant current it goes down while the current is above the limit
/// and up, to the setpoint at most, while it is below, twice the difference in
/// millivolts per milliampere, from 10 to 200 mV, and rests within 4 mA.
pub proof fn outputs_are_regulated(state: AppState, channel: u8, measurement: Measurement)
    requires
        channel == 3 || channel == 4,
        state.channels[channel as int].physical_enabled,
        state.channels[channel as int].transition == OutputTransition::Stable,
        measurement.valid,
        lowest(channel as int) <= state.channels[channel as int].drive_mv,
        lowest(channel as int) <= state.channels[channel as int].setpoint_mv,
    ensures
        ({
            let next = reduced(state, Action::RegulateChannel { channel, measurement });
            let output = state.channels[channel as int];
            let old = output.drive_mv as int;
            let new = next.channels[channel as int].drive_mv as int;
            let setpoint = output.setpoint_mv as int;
            let over = measurement.milliamps - output.current_limit_ma;
            let distance = if over < 0 {
                -over
            } else {
                over
            };
            &&& only_channel(state, next, channel as int)
            &&& next.channels[channel as int] == ChannelSnapshot { drive_mv: new as u16, ..output }
            &&& old > setpoint ==> new == setpoint && old - setpoint <= 200 || new == old - 200
                && new > setpoint
            &&& old <= setpoint && output.regulation_mode == RegulationMode::Cv ==> new
                == setpoint && setpoint - old <= 200 || new == old + 200 && new < setpoint
            &&& old <= setpoint && output.regulation_mode == RegulationMode::Cc ==> {
                &&& distance <= 4 ==> new == old
                &&& distance > 4 && over > 0 ==> new <= old && new >= lowest(channel as int)
                    && (new == lowest(channel as int) || old - new == if 2 * distance < 10 {
                    10
                } else if 2 * distance > 200 {
                    200
                } else {
                    2 * distance
                })
                &&& distance > 4 && over < 0 ==> old <= new <= setpoint && (new == setpoint || new
                    - old == if 2 * distance < 10 {
                    10
                } else if 2 * distance > 200 {
                    200
                } else {
                    2 * distance
                })
                &&& distance > 4 && over > 0 && old > lowest(channel as int) ==> new < old
                &&& distance > 4 && over < 0 && old < setpoint ==> new > old
                &&& distance > 4 && over > 0 && new == lowest(channel as int) ==> old - new <= 2
                    * distance || old - new <= 10
                &&& distance > 4 && over < 0 && new == setpoint ==> new - old <= 2 * distance
                    || new - old <= 10
                &&& distance > 4 ==> -200 <= new - old <= 200
            }
        }),
{
    reveal(settings_transition);
}

/// An output that is off or being switched, a channel without regulation, and a
/// sample that is not valid are not regulated.
pub proof fn nothing_else_is_regulated(state: AppState, channel: u8, measurement: Measurement)
    requires
        channel < 3 || channel > 4 || !measurement.valid
            || !state.channels[channel as int].physical_enabled
            || state.channels[channel as int].transition != OutputTransition::Stable,
    ensures
        reduced(state, Action::RegulateChannel { channel, measurement }) == state,
{
    reveal(settings_transition);
}

/// True when a channel other than `channel` is on its way to go on.
pub open spec fn another_enabling(state: AppState, channel: u8) -> bool {
    exists|i: int|
        0 <= i < 5 && i != channel && (#[trigger] state.channels[i]).transition is Enabling
}

/// A request to switch an output starts a fresh operation on its channel, and
/// clears the fault of an output that is to go on; whether it is on is left to
/// the hardware's report. It is ignored where the output is on its way already,
/// and while another one goes on.
pub proof fn requests_start_an_operation(state: AppState, channel: u8, enabled: bool)
    requires
        channel < 5,
    ensures
        ({
            let next = reduced(state, Action::SetOutputRequested { channel, enabled });
            let old = state.channels[channel as int];
            let new = next.channels[channel as int];
            let ignored = enabled && (old.requested_enabled && old.transition
                == OutputTransition::Stable || another_enabling(state, channel));
            &&& ignored ==> next == state
            &&& !ignored ==> {
                &&& only_channel(state, next, channel as int)
                &&& new.requested_enabled == enabled
                &&& new.physical_enabled == old.physical_enabled
                &&& new.operation != old.operation
                &&& new.operation == (old.operation + 1) % 0x1_0000
                &&& new.transition == if enabled {
                    OutputTransition::Enabling(new.operation)
                } else {
                    OutputTransition::Disabling(new.operation)
                }
                &&& enabled ==> new.fault == Fault::Clear
                &&& !enabled ==> new.fault == old.fault
                &&& new == ChannelSnapshot {
                    requested_enabled: new.requested_enabled,
                    operation: new.operation,
                    transition: new.transition,
                    fault: new.fault,
                    ..old
                }
            }
        }),
{
    reveal(settings_transition);
}

/// A toggle asks for the opposite of what was asked for last, while the output
/// rests.
pub proof fn toggles_ask_for_the_opposite(state: AppState, channel: u8)
    requires
        channel < 5,
        state.channels[channel as int].transition == OutputTransition::Stable,
    ensures
        ({
            let old = state.channels[channel as int];
            let next = reduced(state, Action::ToggleOutputRequested { channel });
            if !old.requested_enabled && another_enabling(state, channel) {
                next == state
            } else {
                next == reduced(
                    state,
                    Action::SetOutputRequested { channel, enabled: !old.requested_enabled },
                ) && next.channels[channel as int].requested_enabled == !old.requested_enabled
            }
        }),
        forall|other: u8|
            other < 5 && state.channels[other as int].transition != OutputTransition::Stable
                ==> #[trigger] reduced(state, Action::ToggleOutputRequested { channel: other })
                == state,
{
    reveal(settings_transition);
}

/// A completed operation is what the state then says of its output: on after an
/// enable, off after a disable, and at rest.
pub proof fn completed_operations_are_believed(
    state: AppState,
    channel: u8,
    operation: u16,
    enabled: bool,
)
    requires
        channel < 5,
        state.channels[channel as int].requested_enabled == enabled,
        state.channels[channel as int].transition == if enabled {
            OutputTransition::Enabling(operation)
        } else {
            OutputTransition::Disabling(operation)
        },
    ensures
        ({
            let next = reduced(state, Action::OutputApplied { channel, operation, enabled });
            let old = state.channels[channel as int];
            let new = next.channels[channel as int];
            let plays = channel == state.awg_channel();
            &&& only_channel_and_awg_status(state, next, channel as int)
            &&& new.physical_enabled == enabled
            &&& new.requested_enabled == enabled
            &&& new.transition == OutputTransition::Stable
            &&& new.fault == old.fault
            &&& new.setpoint_mv == old.setpoint_mv
            &&& new.current_limit_ma == old.current_limit_ma
            &&& enabled ==> new.drive_mv == old.drive_mv
            &&& plays && enabled && state.awg_status is Starting ==> next.awg_status
                == AwgStatus::Running
            &&& plays && !enabled && (state.awg_status is Starting || state.awg_status is Running
                || state.awg_status is StopRequested) ==> next.awg_status == AwgStatus::Stopped
                && new.drive_mv == old.setpoint_mv
            &&& !plays ==> next.awg_status == state.awg_status && new.drive_mv == old.drive_mv
            &&& enabled && !(state.awg_status is Starting) ==> next.awg_status == state.awg_status
            &&& state.awg_status is Stopped || state.awg_status is StartRequested
                || state.awg_status is Fault ==> next.awg_status == state.awg_status && new.drive_mv
                == old.drive_mv
        }),
{
    reveal(hardware_transition);
    reveal(crate::reducer::awg_halted);
}

/// The news that an output carries voltage makes it count as on, before its
/// operation is over.
pub proof fn energized_outputs_count_as_on(state: AppState, channel: u8, operation: u16)
    requires
        channel < 5,
        state.channels[channel as int].requested_enabled,
        state.channels[channel as int].transition == OutputTransition::Enabling(operation),
    ensures
        ({
            let next = reduced(state, Action::OutputEnergized { channel, operation });
            &&& only_channel(state, next, channel as int)
            &&& next.channels[channel as int] == ChannelSnapshot {
                physical_enabled: true,
                ..state.channels[channel as int]
            }
        }),
{
    reveal(hardware_transition);
}

/// News of an operation that is not the one under way, or that is no longer
/// asked for, changes nothing.
pub proof fn stale_news_changes_nothing(
    state: AppState,
    channel: u8,
    operation: u16,
    enabled: bool,
    fault: Fault,
)
    requires
        channel < 5,
    ensures
        ({
            let output = state.channels[channel as int];
            let rising = output.transition == OutputTransition::Enabling(operation);
            let falling = output.transition == OutputTransition::Disabling(operation);
            let energized = reduced(state, Action::OutputEnergized { channel, operation });
            let applied = reduced(state, Action::OutputApplied { channel, operation, enabled });
            let failed = reduced(state, Action::OutputFailed { channel, operation, fault });
            &&& !rising || !output.requested_enabled || output.physical_enabled ==> energized
                == state
            &&& enabled && !rising || !enabled && !falling || output.requested_enabled != enabled
                ==> applied == state
            &&& !rising && !falling ==> failed == state
        }),
{
    reveal(hardware_transition);
}

/// A failed operation leaves its output off, at rest, asked for no more, and
/// with the fault; a waveform on it has failed too.
pub proof fn failed_operations_latch_their_fault(
    state: AppState,
    channel: u8,
    operation: u16,
    fault: Fault,
)
    requires
        channel < 5,
        state.channels[channel as int].transition == OutputTransition::Enabling(operation)
            || state.channels[channel as int].transition == OutputTransition::Disabling(operation),
    ensures
        ({
            let next = reduced(state, Action::OutputFailed { channel, operation, fault });
            let new = next.channels[channel as int];
            &&& only_channel_and_awg_status(state, next, channel as int)
            &&& new == ChannelSnapshot {
                requested_enabled: false,
                physical_enabled: false,
                transition: OutputTransition::Stable,
                fault,
                ..state.channels[channel as int]
            }
            &&& next.awg_status == if channel == state.awg_channel() && (state.awg_status
                is Starting || state.awg_status is Running || state.awg_status is StopRequested) {
                AwgStatus::Fault
            } else {
                state.awg_status
            }
        }),
{
    reveal(hardware_transition);
}

/// A failed setting takes its output out of service with the fault, and makes
/// every report still under way a stale one.
pub proof fn failed_settings_take_the_output_out(state: AppState, channel: u8, fault: Fault)
    requires
        channel < 5,
    ensures
        ({
            let next = reduced(state, Action::HardwareSettingFailed { channel, fault });
            let old = state.channels[channel as int];
            let new = next.channels[channel as int];
            &&& only_channel_and_awg_status(state, next, channel as int)
            &&& !new.requested_enabled
            &&& !new.physical_enabled
            &&& new.fault == fault
            &&& new.transition == OutputTransition::Stable
            &&& new.operation == (old.operation + 1) % 0x1_0000
            &&& new.setpoint_mv == old.setpoint_mv
            &&& new.drive_mv == old.drive_mv
            &&& new.current_limit_ma == old.current_limit_ma
            &&& new.regulation_mode == old.regulation_mode
            &&& next.awg_status == if channel == state.awg_channel() && (state.awg_status
                is Starting || state.awg_status is Running || state.awg_status is StopRequested) {
                AwgStatus::Fault
            } else {
                state.awg_status
            }
        }),
        reduced(state, Action::HardwareSettingApplied) == state,
{
    reveal(hardware_transition);
}

/// A trip asks its output to go off at once with a fresh operation and keeps the
/// fault; until the hardware reports, the output counts as it did.
pub proof fn trips_switch_off(state: AppState, channel: u8, fault: Fault)
    requires
        channel < 5,
        state.channels[channel as int].active(),
    ensures
        ({
            let next = reduced(state, Action::ProtectionTrip { channel, fault });
            let old = state.channels[channel as int];
            let new = next.channels[channel as int];
            &&& only_channel_and_awg_status(state, next, channel as int)
            &&& !new.requested_enabled
            &&& new.physical_enabled == old.physical_enabled
            &&& new.fault == fault
            &&& new.operation == (old.operation + 1) % 0x1_0000
            &&& new.transition == OutputTransition::Disabling(new.operation)
            &&& new.setpoint_mv == old.setpoint_mv
            &&& new.drive_mv == old.drive_mv
            &&& new.regulation_mode == old.regulation_mode
            &&& new.current_limit_ma == old.current_limit_ma
            &&& next.awg_status == if channel == state.awg_channel() && (state.awg_status
                is Starting || state.awg_status is Running || state.awg_status is StopRequested) {
                AwgStatus::Fault
            } else {
                state.awg_status
            }
        }),
{
    reveal(hardware_transition);
}

/// A trip of an output that is off and asked for nothing is kept all the same,
/// unless it is known already.
pub proof fn trips_of_a_dark_output_are_kept(state: AppState, channel: u8, fault: Fault)
    requires
        channel < 5,
        !state.channels[channel as int].physical_enabled,
        !state.channels[channel as int].requested_enabled,
    ensures
        ({
            let next = reduced(state, Action::ProtectionTrip { channel, fault });
            let old = state.channels[channel as int];
            let new = next.channels[channel as int];
            let known = old.fault == fault && old.transition == OutputTransition::Stable;
            &&& known ==> next == state
            &&& new.fault == fault
            &&& !new.physical_enabled
            &&& !new.requested_enabled
            &&& !known ==> new.transition == OutputTransition::Disabling(new.operation)
                && new.operation == (old.operation + 1) % 0x1_0000
        }),
{
    reveal(hardware_transition);
}

/// A shutdown that succeeded leaves every output off, asked for nothing and at
/// rest, with its settings and its fault; a waveform that was under way has
/// stopped, and one that waits to start still waits.
pub proof fn shutdowns_switch_everything_off(state: AppState, index: int)
    requires
        0 <= index < 5,
    ensures
        ({
            let next = reduced(state, Action::GlobalShutdownApplied);
            let old = state.channels[index];
            let new = next.channels[index];
            &&& !new.physical_enabled
            &&& !new.requested_enabled
            &&& new.transition == OutputTransition::Stable
            &&& new.fault == old.fault
            &&& new.setpoint_mv == old.setpoint_mv
            &&& new.current_limit_ma == old.current_limit_ma
            &&& new.regulation_mode == old.regulation_mode
            &&& new.operation == old.operation
            &&& new.measurement == old.measurement
            &&& index != state.awg_channel() || next.awg_status == state.awg_status ==> new.drive_mv
                == old.drive_mv
            &&& index == state.awg_channel() && next.awg_status != state.awg_status ==> new.drive_mv
                == old.setpoint_mv
            &&& next.awg_status == if state.awg_status is Starting || state.awg_status is Running
                || state.awg_status is StopRequested {
                AwgStatus::Stopped
            } else {
                state.awg_status
            }
            &&& next.screen == state.screen
            &&& next.sink_fault == state.sink_fault
            &&& next.pd_contract == state.pd_contract
        }),
{
    reveal(hardware_transition);
    reveal(crate::reducer::awg_halted);
}

/// A shutdown that failed leaves every output asked for nothing, at rest and with
/// a hardware fault, and claims nothing of what it carries; the waveform has
/// failed.
pub proof fn failed_shutdowns_latch_their_fault(state: AppState, index: int)
    requires
        0 <= index < 5,
    ensures
        ({
            let next = reduced(state, Action::GlobalShutdownFailed);
            let old = state.channels[index];
            let new = next.channels[index];
            &&& new == ChannelSnapshot {
                requested_enabled: false,
                transition: OutputTransition::Stable,
                fault: Fault::Hardware,
                ..old
            }
            &&& next.awg_status == AwgStatus::Fault
            &&& next.screen == state.screen
            &&& next.pd_contract == state.pd_contract
            &&& next.sink_fault == state.sink_fault
        }),
{
    reveal(hardware_transition);
}

/// The news from the input: a contract that was negotiated is held, and one that
/// failed or is negotiated anew is not. A failure under load is a fault of the
/// input. Faults of the input are latched until it has recovered.
pub proof fn input_news_is_held(
    state: AppState,
    contract: Contract,
    error: PdError,
    fault: Fault,
    sample: Measurement,
)
    ensures
        ({
            let negotiated = reduced(state, Action::PdNegotiated(contract));
            let failed = reduced(state, Action::PdFailed(error));
            let begun = reduced(state, Action::PdNegotiationStarted);
            let tripped = reduced(state, Action::SinkProtectionTrip(fault));
            let recovered = reduced(state, Action::SinkProtectionRecovered);
            let measured = reduced(state, Action::SinkMeasurement(sample));
            &&& negotiated == AppState {
                version: negotiated.version,
                pd_contract: Some(contract),
                pd_error: None,
                pd_negotiating: false,
                ..state
            }
            &&& failed == AppState {
                version: failed.version,
                pd_contract: None,
                pd_error: Some(error),
                pd_negotiating: false,
                sink_fault: if state.any_active() {
                    Fault::Hardware
                } else {
                    state.sink_fault
                },
                ..state
            }
            &&& begun == AppState {
                version: begun.version,
                pd_contract: None,
                pd_error: None,
                pd_negotiating: true,
                ..state
            }
            &&& tripped == AppState { version: tripped.version, sink_fault: fault, ..state }
            &&& recovered == AppState {
                version: recovered.version,
                sink_fault: Fault::Clear,
                ..state
            }
            &&& measured == AppState { version: measured.version, sink: sample, ..state }
        }),
{
    reveal(input_transition);
}

/// Each channel shows its own measurement, and the state the last temperature;
/// without an answer of the sensor the temperature is not valid.
pub proof fn measurements_reach_their_channel(
    state: AppState,
    samples: [Measurement; 5],
    raw: i16,
    index: int,
)
    requires
        0 <= index < 5,
    ensures
        ({
            let measured = reduced(state, Action::Measurements(samples));
            let warm = reduced(state, Action::Temperature(Some(raw)));
            let blind = reduced(state, Action::Temperature(None));
            &&& measured.channels[index] == ChannelSnapshot {
                measurement: samples[index],
                ..state.channels[index]
            }
            &&& measured == AppState {
                version: measured.version,
                channels: measured.channels,
                ..state
            }
            &&& warm == AppState {
                version: warm.version,
                temp_sixteenths_c: raw,
                temp_valid: true,
                ..state
            }
            &&& blind == AppState { version: blind.version, temp_valid: false, ..state }
        }),
{
    reveal(record_transition);
}

/// A waveform's load is shown as it was measured.
pub proof fn loads_are_shown_as_measured(state: AppState, load: LoadMeasurement)
    ensures
        ({
            let next = reduced(state, Action::AwgLoadMeasurement(load));
            next == AppState { version: next.version, awg_load: load, ..state }
        }),
{
    reveal(awg_transition);
}

/// Where a screen stands on the ring of power screens: the overview, the five
/// channels, the input.
pub open spec fn ring_position(screen: Screen) -> int {
    match screen {
        Screen::Overview => 0,
        Screen::Channel(index) => index + 1,
        _ => 6,
    }
}

/// A turn without a focus goes round the ring of the power screens, one screen
/// per step, and drops the focus; elsewhere it changes no screen.
pub proof fn turns_go_round_the_ring(state: AppState)
    requires
        state.screen.in_range(),
    ensures
        ({
            let next = reduced(state, Action::NextScreen);
            let previous = reduced(state, Action::PreviousScreen);
            let power = state.screen is Overview || state.screen is Channel || state.screen
                is UsbPdInput;
            &&& power ==> {
                &&& ring_position(next.screen) == (ring_position(state.screen) + 1) % 7
                &&& ring_position(previous.screen) == (ring_position(state.screen) + 6) % 7
                &&& next.screen is Overview || next.screen is Channel || next.screen is UsbPdInput
                &&& previous.screen is Overview || previous.screen is Channel || previous.screen
                    is UsbPdInput
            }
            &&& !power ==> next.screen == state.screen && previous.screen == state.screen
            &&& next == AppState {
                version: next.version,
                screen: next.screen,
                focus: ControlFocus::Unfocused,
                ..state
            }
            &&& previous == AppState {
                version: previous.version,
                screen: previous.screen,
                focus: ControlFocus::Unfocused,
                ..state
            }
        }),
{
    reveal(navigation_transition);
}

/// A screen as it is when it is entered: no focus, the first row, the first
/// line, nothing edited, nothing to confirm. Nothing else changes.
pub open spec fn enters(before: AppState, after: AppState, screen: Screen) -> bool {
    after == AppState {
        version: after.version,
        screen,
        focus: ControlFocus::Unfocused,
        menu_selection: 0,
        help_scroll: 0,
        awg_editing: false,
        profile_status: ProfileStatus::Idle,
        ..before
    }
}

/// The ways home: the overview and the main menu are reached from anywhere, and
/// a reboot is remembered.
pub proof fn the_ways_home(state: AppState)
    ensures
        ({
            let overview = reduced(state, Action::GoOverview);
            let menu = reduced(state, Action::GoMainMenu);
            let reboot = reduced(state, Action::RequestReboot);
            &&& overview == AppState {
                version: overview.version,
                screen: Screen::Overview,
                focus: ControlFocus::Unfocused,
                ..state
            }
            &&& menu.screen == Screen::MainMenu
            &&& menu.focus == ControlFocus::Unfocused
            &&& menu == state || enters(state, menu, Screen::MainMenu)
            &&& reboot == AppState { version: reboot.version, reboot_requested: true, ..state }
        }),
{
    reveal(navigation_transition);
}

/// The rows of a menu: five on the main menu and in the settings, four of
/// profiles, eight on the waveform screen, one on the system screen.
pub open spec fn rows(screen: Screen) -> int {
    match screen {
        Screen::MainMenu => 5,
        Screen::Settings => 5,
        Screen::ProfileSave => 4,
        Screen::ProfileLoad => 4,
        Screen::Awg => 8,
        Screen::System => 1,
        _ => 0,
    }
}

/// A turn on a menu moves the selection by as many rows, as far as there are
/// rows, and withdraws a confirmation that was asked for; on the help screen it
/// scrolls five lines at a time, as far as the last page. While a waveform's row
/// is edited, and on the power screens, it selects nothing.
pub proof fn turns_move_the_selection(state: AppState, direction: i8)
    requires
        state.wf(),
    ensures
        ({
            let next = reduced(state, Action::NavigateMenu(direction));
            let selects = rows(state.screen) > 0 && !(state.screen == Screen::Awg
                && state.awg_editing);
            &&& state.screen == Screen::Help ==> {
                &&& moved(
                    state.help_scroll as int,
                    5 * direction as int,
                    0,
                    17,
                    next.help_scroll as int,
                )
                &&& next == AppState {
                    version: next.version,
                    help_scroll: next.help_scroll,
                    ..state
                }
            }
            &&& selects ==> {
                &&& moved(
                    state.menu_selection as int,
                    direction as int,
                    0,
                    rows(state.screen) - 1,
                    next.menu_selection as int,
                )
                &&& next.menu_selection != state.menu_selection ==> next.profile_status
                    == ProfileStatus::Idle
                &&& next == AppState {
                    version: next.version,
                    menu_selection: next.menu_selection,
                    profile_status: next.profile_status,
                    ..state
                }
            }
            &&& !selects && state.screen != Screen::Help ==> next == state
        }),
{
    reveal(navigation_transition);
}

/// A click on the main menu enters the screen that its row names.
pub proof fn the_main_menu_leads_to_its_screens(state: AppState)
    requires
        state.screen == Screen::MainMenu,
    ensures
        ({
            let next = reduced(state, Action::ActivateMenu);
            let row = state.menu_selection;
            let names = crate::ui_content::MAIN_MENU_ITEMS;
            &&& names[0]@ == "DC Power"@ && names[1]@ == "AWG"@ && names[2]@ == "Settings"@
            &&& names[3]@ == "System"@ && names[4]@ == "Help"@
            &&& row == 0 ==> enters(state, next, Screen::Overview)
            &&& row == 1 ==> enters(state, next, Screen::Awg)
            &&& row == 2 ==> enters(state, next, Screen::Settings)
            &&& row == 3 ==> enters(state, next, Screen::System)
            &&& row == 4 ==> enters(state, next, Screen::Help)
            &&& row > 4 ==> next == state
        }),
{
    reveal(navigation_transition);
}

/// A click in the settings: the first row changes the unit of the temperature,
/// the next two enter the profiles, the fourth restores the defaults once it was
/// clicked twice, and the last goes back. While a profile is worked on, nothing.
pub proof fn the_settings_do_what_they_say(state: AppState)
    requires
        state.screen == Screen::Settings,
    ensures
        ({
            let next = reduced(state, Action::ActivateMenu);
            let row = state.menu_selection;
            let free = state.profile_request == ProfileRequest::Idle;
            &&& !free ==> next == state
            &&& free && row == 0 ==> {
                &&& next.temperature_unit != state.temperature_unit
                &&& next == AppState {
                    version: next.version,
                    temperature_unit: next.temperature_unit,
                    ..state
                }
            }
            &&& free && row == 1 ==> enters(state, next, Screen::ProfileSave)
            &&& free && row == 2 ==> enters(state, next, Screen::ProfileLoad)
            &&& free && row == 4 ==> enters(state, next, Screen::MainMenu)
            &&& free && row == 3 && state.profile_status != ProfileStatus::ConfirmDefaults ==> {
                &&& next.profile_status == ProfileStatus::ConfirmDefaults
                &&& next.profile_request == ProfileRequest::Idle
                &&& reduced(next, Action::ActivateMenu).profile_request
                    == ProfileRequest::FactoryDefaults
                &&& reduced(next, Action::ActivateMenu).profile_status == ProfileStatus::Working
            }
            &&& row > 4 ==> next == state
            &&& next.profile_request == ProfileRequest::FactoryDefaults
                && state.profile_request != ProfileRequest::FactoryDefaults ==> row == 3
                && state.profile_status == ProfileStatus::ConfirmDefaults
        }),
{
    reveal(navigation_transition);
}

/// A click on a profile's row asks first, and acts where it has asked about that
/// very row; the last row goes back. While a profile is worked on, nothing.
pub proof fn profiles_ask_before_they_act(state: AppState, saves: bool)
    requires
        state.screen == if saves {
            Screen::ProfileSave
        } else {
            Screen::ProfileLoad
        },
    ensures
        ({
            let next = reduced(state, Action::ActivateMenu);
            let row = state.menu_selection;
            let confirms = if saves {
                ProfileStatus::ConfirmSave(row)
            } else {
                ProfileStatus::ConfirmLoad(row)
            };
            let wanted = if saves {
                ProfileRequest::Save(row)
            } else {
                ProfileRequest::Load(row)
            };
            let free = state.profile_request == ProfileRequest::Idle;
            &&& !free || row > 3 ==> next == state
            &&& free && row == 3 ==> enters(state, next, Screen::Settings)
            &&& free && row < 3 && state.profile_status != confirms ==> next == AppState {
                version: next.version,
                profile_status: confirms,
                ..state
            }
            &&& free && row < 3 && state.profile_status == confirms ==> next == AppState {
                version: next.version,
                profile_request: wanted,
                profile_status: ProfileStatus::Working,
                ..state
            }
        }),
{
    reveal(navigation_transition);
}

/// A profile is saved or loaded on the second click on its row.
pub proof fn profiles_act_on_the_second_click(state: AppState, saves: bool)
    requires
        state.screen == if saves {
            Screen::ProfileSave
        } else {
            Screen::ProfileLoad
        },
        state.menu_selection < 3,
        state.profile_request == ProfileRequest::Idle,
        state.profile_status == ProfileStatus::Idle,
    ensures
        ({
            let once = reduced(state, Action::ActivateMenu);
            let twice = reduced(once, Action::ActivateMenu);
            &&& once.profile_request == ProfileRequest::Idle
            &&& twice.profile_request == if saves {
                ProfileRequest::Save(state.menu_selection)
            } else {
                ProfileRequest::Load(state.menu_selection)
            }
            &&& twice.profile_status == ProfileStatus::Working
        }),
{
    profiles_ask_before_they_act(state, saves);
    profiles_ask_before_they_act(reduced(state, Action::ActivateMenu), saves);
}

/// A click on the waveform screen: on a value it begins and ends its edit, on
/// the seventh row it starts a waveform that rests and stops one that runs, and
/// on the last row it goes back.
pub proof fn the_waveform_screen_starts_and_stops(state: AppState)
    requires
        state.screen == Screen::Awg,
    ensures
        ({
            let next = reduced(state, Action::ActivateMenu);
            let row = state.menu_selection;
            let rests = state.awg_status is Stopped || state.awg_status is Fault;
            let runs = state.awg_status is Starting || state.awg_status is Running;
            &&& row < 6 ==> next == AppState {
                version: next.version,
                awg_editing: !state.awg_editing,
                ..state
            }
            &&& row == 6 && rests ==> next == AppState {
                version: next.version,
                awg_status: AwgStatus::StartRequested,
                awg_source: AwgSource::Builtin,
                ..state
            }
            &&& row == 6 && runs ==> next == AppState {
                version: next.version,
                awg_status: AwgStatus::StopRequested,
                ..state
            }
            &&& row == 6 && !rests && !runs ==> next == state
            &&& row == 7 ==> enters(state, next, Screen::MainMenu)
            &&& row > 7 ==> next == state
        }),
{
    reveal(navigation_transition);
}

/// The system and the help screen lead back; a menu's click is the same whether
/// it comes as a click or as a choice. On the power screens a choice does
/// nothing.
pub proof fn clicks_choose(state: AppState)
    ensures
        state.screen == Screen::System || state.screen == Screen::Help ==> enters(
            state,
            reduced(state, Action::ActivateMenu),
            Screen::MainMenu,
        ),
        !(state.screen is Channel || state.screen is Overview || state.screen is UsbPdInput)
            ==> reduced(state, Action::NextControl) == reduced(state, Action::ActivateMenu),
        state.screen is Channel || state.screen is Overview || state.screen is UsbPdInput
            ==> reduced(state, Action::ActivateMenu) == state,
{
    reveal(navigation_transition);
}

/// A click on a power screen moves the focus and nothing else: on the overview
/// through the five outputs, on the input to its limit and back, and on a
/// channel through output, voltage, mode and limit, as far as it has them.
pub proof fn clicks_move_the_focus(state: AppState)
    requires
        state.screen is Channel || state.screen is Overview || state.screen is UsbPdInput,
    ensures
        ({
            let next = reduced(state, Action::NextControl);
            &&& next == AppState { version: next.version, focus: next.focus, ..state }
            &&& state.screen is Overview ==> match state.focus {
                ControlFocus::OverviewOutput(index) => if index < 4 {
                    next.focus == ControlFocus::OverviewOutput((index + 1) as u8)
                } else {
                    next.focus == ControlFocus::Unfocused
                },
                _ => next.focus == ControlFocus::OverviewOutput(0),
            }
            &&& state.screen is UsbPdInput ==> (next.focus == ControlFocus::CurrentLimit <==>
                state.focus != ControlFocus::CurrentLimit) && (next.focus
                == ControlFocus::CurrentLimit || next.focus == ControlFocus::Unfocused)
            &&& state.screen matches Screen::Channel(channel) ==> {
                &&& state.focus == ControlFocus::Unfocused ==> next.focus == ControlFocus::Output
                &&& state.focus == ControlFocus::CurrentLimit ==> next.focus
                    == ControlFocus::Unfocused
                &&& (channel == 3 || channel == 4) && state.focus == ControlFocus::Output
                    ==> next.focus == ControlFocus::Voltage
                &&& (channel == 3 || channel == 4) && state.focus == ControlFocus::Voltage
                    ==> next.focus == ControlFocus::RegulationMode
                &&& (channel == 3 || channel == 4) && state.focus == ControlFocus::RegulationMode
                    ==> next.focus == ControlFocus::CurrentLimit
                &&& channel < 3 && state.focus == ControlFocus::Output ==> next.focus
                    == ControlFocus::CurrentLimit
            }
        }),
{
    reveal(navigation_transition);
}

/// An uploaded waveform is asked for on channel 4 or 5 while nothing plays; it
/// is then the waveform that is to start, on its channel, at its own voltages.
pub proof fn uploads_are_requested(
    state: AppState,
    channel: u8,
    initial_mv: u16,
    low_mv: u16,
    high_mv: u16,
)
    ensures
        ({
            let next = reduced(
                state,
                Action::RequestArbStart { channel, initial_mv, low_mv, high_mv },
            );
            let taken = (channel == 3 || channel == 4) && (state.awg_status is Stopped
                || state.awg_status is Fault);
            &&& !taken ==> next == state
            &&& taken ==> {
                &&& next.awg_status == AwgStatus::StartRequested
                &&& next.awg_source == AwgSource::Arbitrary
                &&& next.awg_channel() == channel
                &&& next.arb_run.channel == channel
                &&& next.arb_run.initial_mv == initial_mv
                &&& next.arb_run.low_mv == low_mv
                &&& next.arb_run.high_mv == high_mv
                &&& next == AppState {
                    version: next.version,
                    awg_status: next.awg_status,
                    awg_source: next.awg_source,
                    arb_run: next.arb_run,
                    ..state
                }
            }
        }),
{
    reveal(awg_transition);
}

/// Once everything is off, the channel of a waveform that waits to start is
/// asked to go on, with a fresh operation, at the waveform's first voltage.
pub proof fn prepared_waveforms_ask_for_their_channel(state: AppState)
    requires
        state.awg_status is StartRequested,
        state.awg_channel() < 5,
        !another_enabling(state, state.awg_channel()),
    ensures
        ({
            let next = reduced(state, Action::AwgStartPrepared);
            let channel = state.awg_channel() as int;
            let old = state.channels[channel];
            let new = next.channels[channel];
            &&& only_channel_and_awg_status(state, next, channel)
            &&& next.awg_status == AwgStatus::Starting
            &&& new.requested_enabled
            &&& new.fault == Fault::Clear
            &&& new.operation == (old.operation + 1) % 0x1_0000
            &&& new.transition == OutputTransition::Enabling(new.operation)
            &&& new.drive_mv == match state.awg_source {
                AwgSource::Builtin => state.awg.low_mv,
                AwgSource::Arbitrary => state.arb_run.initial_mv,
            }
            &&& new.setpoint_mv == old.setpoint_mv
            &&& new.physical_enabled == old.physical_enabled
        }),
{
    reveal(awg_transition);
}

/// A sample of a running waveform is the drive of its channel, and a waveform
/// that stopped leaves the drive of an output that is off at its setpoint.
pub proof fn samples_drive_their_channel(state: AppState, millivolts: u16)
    requires
        state.awg_channel() < 5,
    ensures
        ({
            let channel = state.awg_channel() as int;
            let output = state.channels[channel];
            let sampled = reduced(state, Action::AwgSample(millivolts));
            let stopped = reduced(state, Action::AwgStopped);
            let plays = state.awg_status is Running && output.physical_enabled
                && output.transition == OutputTransition::Stable;
            &&& !plays ==> sampled == state
            &&& plays ==> only_channel(state, sampled, channel) && sampled.channels[channel]
                == ChannelSnapshot { drive_mv: millivolts, ..output }
            &&& stopped.awg_status == AwgStatus::Stopped
            &&& only_channel_and_awg_status(state, stopped, channel)
            &&& stopped.channels[channel] == ChannelSnapshot {
                drive_mv: stopped.channels[channel].drive_mv,
                ..output
            }
            &&& output.physical_enabled ==> stopped.channels[channel].drive_mv == output.drive_mv
            &&& !output.physical_enabled && !(state.awg_status is Stopped)
                ==> stopped.channels[channel].drive_mv == output.setpoint_mv
        }),
{
    reveal(awg_transition);
    reveal(crate::reducer::awg_halted);
}

/// A profile that is applied is in force, inside the limits of the product, with
/// every output off and no waveform under way.
pub proof fn profiles_are_applied_with_everything_off(
    state: AppState,
    settings: PersistentSettings,
    status: ProfileStatus,
    index: int,
)
    requires
        0 <= index < 5,
    ensures
        ({
            let next = reduced(state, Action::ApplyProfile(settings, status));
            let old = state.channels[index];
            let new = next.channels[index];
            let limit = settings.current_limits_ma[index];
            &&& !new.physical_enabled
            &&& !new.requested_enabled
            &&& new.transition == OutputTransition::Stable
            &&& new.fault == old.fault
            &&& new.current_limit_ma == if limit <= 3_000 {
                limit
            } else {
                3_000
            }
            &&& index < 3 ==> new.setpoint_mv == old.setpoint_mv && new.regulation_mode
                == old.regulation_mode
            &&& index == 3 ==> new.regulation_mode == settings.ch4_regulation_mode
                && restored_voltage(settings.ch4_voltage_mv, 3, new.setpoint_mv)
            &&& index == 4 ==> new.regulation_mode == settings.ch5_regulation_mode
                && restored_voltage(settings.ch5_voltage_mv, 4, new.setpoint_mv)
            &&& index >= 3 ==> new.drive_mv == new.setpoint_mv
            &&& next.sink_current_limit_ma == if settings.sink_current_limit_ma <= 5_000 {
                settings.sink_current_limit_ma
            } else {
                5_000
            }
            &&& next.temperature_unit == settings.temperature_unit
            &&& next.awg_source == AwgSource::Builtin
            &&& next.awg_status == if state.awg_status is Fault {
                AwgStatus::Fault
            } else {
                AwgStatus::Stopped
            }
            &&& next.profile_request == ProfileRequest::Idle
            &&& next.profile_status == status
            &&& next.profile_present == state.profile_present
            &&& next.screen == state.screen
        }),
{
    reveal(record_transition);
}

/// A stored voltage as it is put in force: itself, or the end of the range that
/// it lies beyond.
pub open spec fn restored_voltage(stored: u16, channel: int, restored: u16) -> bool {
    &&& lowest(channel) <= restored <= highest(channel)
    &&& lowest(channel) <= stored <= highest(channel) ==> restored == stored
    &&& stored < lowest(channel) ==> restored == lowest(channel)
    &&& stored > highest(channel) ==> restored == highest(channel)
}

/// A stored waveform comes back as it was, where it is one that can be played;
/// anything else is moved inside the limits of its channel, and a waveform for a
/// channel that plays none is the factory's.
pub proof fn waveforms_are_restored_in_range(
    state: AppState,
    settings: PersistentSettings,
    status: ProfileStatus,
)
    ensures
        ({
            let stored = settings.awg;
            let new = reduced(state, Action::ApplyProfile(settings, status)).awg;
            let known = stored.channel == 3 || stored.channel == 4;
            &&& known ==> {
                &&& new.channel == stored.channel
                &&& new.waveform == stored.waveform
                &&& restored_voltage(stored.low_mv, stored.channel as int, new.low_mv)
                &&& new.low_mv <= new.high_mv <= highest(stored.channel as int)
                &&& new.low_mv <= stored.high_mv <= highest(stored.channel as int)
                    ==> new.high_mv == stored.high_mv
                &&& 100 <= new.frequency_millihz <= 120_000
                &&& 100 <= stored.frequency_millihz <= 120_000 ==> new.frequency_millihz
                    == stored.frequency_millihz
                &&& stored.frequency_millihz < 100 ==> new.frequency_millihz == 100
                &&& stored.frequency_millihz > 120_000 ==> new.frequency_millihz == 120_000
                &&& 1 <= new.duty_percent <= 99
                &&& 1 <= stored.duty_percent <= 99 ==> new.duty_percent == stored.duty_percent
                &&& stored.duty_percent > 99 ==> new.duty_percent == 99
            }
            &&& !known ==> {
                &&& new.channel == 3
                &&& new.waveform == AwgWaveform::Square
                &&& new.frequency_millihz == 1_000
                &&& new.duty_percent == 50
                &&& new.low_mv == 1_000
                &&& new.high_mv == 5_000
            }
        }),
{
    reveal(record_transition);
}

/// The end of a profile's work is shown, and a slot that was saved holds a
/// profile from then on; the others hold what they held.
pub proof fn finished_profiles_are_shown(state: AppState, status: ProfileStatus, slot: int)
    requires
        0 <= slot < 3,
    ensures
        ({
            let next = reduced(state, Action::ProfileOperationFinished(status));
            &&& next.profile_request == ProfileRequest::Idle
            &&& next.profile_status == status
            &&& next.profile_present[slot] == (state.profile_present[slot] || status
                == ProfileStatus::Saved(slot as u8))
            &&& next == AppState {
                version: next.version,
                profile_request: next.profile_request,
                profile_status: next.profile_status,
                profile_present: next.profile_present,
                ..state
            }
        }),
{
    reveal(record_transition);
}

} // verus!
