//! What every action keeps true of the application state.

use crate::app::{
    Action, AppState, AwgStatus, ChannelSnapshot, ControlFocus, Fault, OutputTransition,
    RegulationMode,
};
use crate::limits::min_voltage;
use crate::reducer::{
    awg_transition, hardware_transition, input_transition, navigation_transition, next_version,
    other_enabling, record_transition, reduced, regulated_drive, same_but_version, settings_transition, shut_down,
    transition, VOLTAGE_SLEW_STEP_MV,
};
use crate::ui_content::HELP_MAX_SCROLL;
use vstd::prelude::*;

verus! {

broadcast use {crate::app::group_map_channels, crate::reducer::group_awg_halted};

/// Settings stay inside the product's limits, and indices stay in range,
/// whatever happens.
pub proof fn reduction_keeps_state_well_formed(state: AppState, action: Action)
    requires
        state.wf(),
    ensures
        reduced(state, action).wf(),
{
    lemma_navigation_keeps_wf(state, action);
    lemma_settings_keeps_wf(state, action);
    lemma_hardware_keeps_wf(state, action);
    lemma_input_keeps_wf(state, action);
    lemma_awg_keeps_wf(state, action);
    lemma_record_keeps_wf(state, action);
}

/// Navigation changes what is shown, the waveform's source and status, and
/// nothing that drives an output.
proof fn lemma_navigation_frame(state: AppState, action: Action)
    ensures
        navigation_transition(state, action) matches Some(next) ==> {
            &&& next.channels == state.channels
            &&& next.awg == state.awg
            &&& next.arb_run == state.arb_run
            &&& next.sink_current_limit_ma == state.sink_current_limit_ma
        },
{
    reveal(navigation_transition);
}

/// Navigation keeps the rows and screens in range.
proof fn lemma_navigation_indices(state: AppState, action: Action)
    requires
        state.wf(),
    ensures
        navigation_transition(state, action) matches Some(next) ==> {
            &&& next.screen.in_range()
            &&& (next.focus matches ControlFocus::OverviewOutput(channel) ==> channel < 5)
            &&& (next.screen.items() > 0 ==> next.menu_selection < next.screen.items())
            &&& next.help_scroll <= HELP_MAX_SCROLL
        },
{
    reveal(navigation_transition);
}

proof fn lemma_navigation_keeps_wf(state: AppState, action: Action)
    requires
        state.wf(),
    ensures
        navigation_transition(state, action) matches Some(next) ==> next.wf(),
{
    lemma_navigation_frame(state, action);
    lemma_navigation_indices(state, action);
}

proof fn lemma_settings_keeps_wf(state: AppState, action: Action)
    requires
        state.wf(),
    ensures
        settings_transition(state, action) matches Some(next) ==> next.wf(),
{
    reveal(settings_transition);
}

/// News from the power hardware changes no setting.
proof fn lemma_hardware_keeps_settings(state: AppState, action: Action, index: int)
    requires
        0 <= index < 5,
    ensures
        hardware_transition(state, action) matches Some(next) ==> {
            &&& next.channels[index].setpoint_mv == state.channels[index].setpoint_mv
            &&& next.channels[index].current_limit_ma == state.channels[index].current_limit_ma
        },
{
    reveal(hardware_transition);
}

/// News from the power hardware changes channels and the waveform status only.
proof fn lemma_hardware_frame(state: AppState, action: Action)
    ensures
        hardware_transition(state, action) matches Some(next) ==> next == (AppState {
            channels: next.channels,
            awg_status: next.awg_status,
            ..state
        }),
{
    reveal(hardware_transition);
}

proof fn lemma_hardware_keeps_wf(state: AppState, action: Action)
    requires
        state.wf(),
    ensures
        hardware_transition(state, action) matches Some(next) ==> next.wf(),
{
    lemma_hardware_frame(state, action);
    if let Some(next) = hardware_transition(state, action) {
        assert forall|i: int| 0 <= i < 5 implies {
            &&& (#[trigger] next.channels[i]).setpoint_mv == state.channels[i].setpoint_mv
            &&& next.channels[i].current_limit_ma == state.channels[i].current_limit_ma
        } by {
            lemma_hardware_keeps_settings(state, action, i);
        }
    }
}

proof fn lemma_input_keeps_wf(state: AppState, action: Action)
    requires
        state.wf(),
    ensures
        input_transition(state, action) matches Some(next) ==> next.wf(),
{
    reveal(input_transition);
}

proof fn lemma_awg_keeps_wf(state: AppState, action: Action)
    requires
        state.wf(),
    ensures
        awg_transition(state, action) matches Some(next) ==> next.wf(),
{
    reveal(awg_transition);
}

proof fn lemma_record_keeps_wf(state: AppState, action: Action)
    requires
        state.wf(),
    ensures
        record_transition(state, action) matches Some(next) ==> next.wf(),
{
    reveal(record_transition);
}

/// A screen that exists is never left for one that does not.
pub proof fn reduction_keeps_screen_in_range(state: AppState, action: Action)
    requires
        state.screen.in_range(),
    ensures
        reduced(state, action).screen.in_range(),
{
    lemma_navigation_screen(state, action);
    lemma_settings_screen(state, action);
    lemma_hardware_screen(state, action);
    lemma_input_screen(state, action);
    lemma_awg_screen(state, action);
    lemma_record_screen(state, action);
}

proof fn lemma_navigation_screen(state: AppState, action: Action)
    requires
        state.screen.in_range(),
    ensures
        navigation_transition(state, action) matches Some(next) ==> next.screen.in_range(),
{
    reveal(navigation_transition);
}

proof fn lemma_settings_screen(state: AppState, action: Action)
    requires
        state.screen.in_range(),
    ensures
        settings_transition(state, action) matches Some(next) ==> next.screen.in_range(),
{
    reveal(settings_transition);
}

proof fn lemma_hardware_screen(state: AppState, action: Action)
    requires
        state.screen.in_range(),
    ensures
        hardware_transition(state, action) matches Some(next) ==> next.screen.in_range(),
{
    reveal(hardware_transition);
}

proof fn lemma_input_screen(state: AppState, action: Action)
    requires
        state.screen.in_range(),
    ensures
        input_transition(state, action) matches Some(next) ==> next.screen.in_range(),
{
    reveal(input_transition);
}

proof fn lemma_awg_screen(state: AppState, action: Action)
    requires
        state.screen.in_range(),
    ensures
        awg_transition(state, action) matches Some(next) ==> next.screen.in_range(),
{
    reveal(awg_transition);
}

proof fn lemma_record_screen(state: AppState, action: Action)
    requires
        state.screen.in_range(),
    ensures
        record_transition(state, action) matches Some(next) ==> next.screen.in_range(),
{
    reveal(record_transition);
}

/// The version changes exactly when the state does: an action that changes the
/// version changes something else too.
pub proof fn version_tells_states_apart(state: AppState, action: Action)
    ensures
        reduced(state, action) == state || !same_but_version(reduced(state, action), state),
        reduced(state, action).version == state.version <==> reduced(state, action) == state,
        reduced(state, action) != state ==> reduced(state, action).version == next_version(
            state.version,
        ),
{
}

/// A completion, an exposure or a failure of an operation that is no longer
/// current changes nothing.
pub proof fn stale_hardware_news_is_ignored(
    state: AppState,
    channel: u8,
    operation: u16,
    enabled: bool,
    fault: Fault,
)
    requires
        channel < 5 ==> state.channels[channel as int].transition != OutputTransition::Enabling(
            operation,
        ) && state.channels[channel as int].transition != OutputTransition::Disabling(operation),
    ensures
        reduced(state, Action::OutputApplied { channel, operation, enabled }) == state,
        reduced(state, Action::OutputEnergized { channel, operation }) == state,
        reduced(state, Action::OutputFailed { channel, operation, fault }) == state,
{
    reveal(hardware_transition);
}

/// True when at most one channel is being switched on.
pub open spec fn enables_one_at_a_time(state: AppState) -> bool {
    forall|i: int, j: int|
        0 <= i < 5 && 0 <= j < 5 && (#[trigger] state.channels[i]).enabling() && (
        #[trigger] state.channels[j]).enabling() ==> i == j
}

/// Output enables are serialized: no action lets a second channel start to
/// switch on while one does.
pub proof fn reduction_keeps_enables_serialized(state: AppState, action: Action)
    requires
        state.screen.in_range(),
        enables_one_at_a_time(state),
    ensures
        enables_one_at_a_time(reduced(state, action)),
{
    let next = reduced(state, action);
    assert forall|i: int, j: int|
        0 <= i < 5 && 0 <= j < 5 && (#[trigger] next.channels[i]).enabling() && (
        #[trigger] next.channels[j]).enabling() implies i == j by {
        lemma_new_enable_is_alone(state, action, i, j);
    }
}

proof fn lemma_new_enable_is_alone(state: AppState, action: Action, i: int, j: int)
    requires
        state.screen.in_range(),
        enables_one_at_a_time(state),
        0 <= i < 5,
        0 <= j < 5,
        reduced(state, action).channels[i].enabling(),
        reduced(state, action).channels[j].enabling(),
    ensures
        i == j,
{
    lemma_enables(state, action, i);
    lemma_enables(state, action, j);
}

/// A channel is switched on only where it was before, or where no other is.
proof fn lemma_enables(state: AppState, action: Action, index: int)
    requires
        state.screen.in_range(),
        0 <= index < 5,
        reduced(state, action).channels[index].enabling(),
    ensures
        state.channels[index].enabling() || (!other_enabling(state, index) && forall|i: int|
            0 <= i < 5 && i != index ==> (#[trigger] reduced(state, action).channels[i])
                == state.channels[i]),
{
    lemma_navigation_enables(state, action, index);
    lemma_settings_enables(state, action, index);
    lemma_hardware_enables(state, action, index);
    lemma_input_enables(state, action, index);
    lemma_awg_enables(state, action, index);
    lemma_record_enables(state, action, index);
}

proof fn lemma_navigation_enables(state: AppState, action: Action, index: int)
    requires
        state.screen.in_range(),
        0 <= index < 5,
    ensures
        navigation_transition(state, action) matches Some(next) ==> next.channels[index].enabling()
            ==> state.channels[index].enabling() || (!other_enabling(state, index) && forall|
            i: int,
        |
            0 <= i < 5 && i != index ==> (#[trigger] next.channels[i]) == state.channels[i]),
{
    reveal(navigation_transition);
}

proof fn lemma_settings_enables(state: AppState, action: Action, index: int)
    requires
        state.screen.in_range(),
        0 <= index < 5,
    ensures
        settings_transition(state, action) matches Some(next) ==> next.channels[index].enabling()
            ==> state.channels[index].enabling() || (!other_enabling(state, index) && forall|
            i: int,
        |
            0 <= i < 5 && i != index ==> (#[trigger] next.channels[i]) == state.channels[i]),
{
    reveal(settings_transition);
}

proof fn lemma_hardware_enables(state: AppState, action: Action, index: int)
    requires
        state.screen.in_range(),
        0 <= index < 5,
    ensures
        hardware_transition(state, action) matches Some(next) ==> next.channels[index].enabling()
            ==> state.channels[index].enabling() || (!other_enabling(state, index) && forall|
            i: int,
        |
            0 <= i < 5 && i != index ==> (#[trigger] next.channels[i]) == state.channels[i]),
{
    reveal(hardware_transition);
}

proof fn lemma_input_enables(state: AppState, action: Action, index: int)
    requires
        state.screen.in_range(),
        0 <= index < 5,
    ensures
        input_transition(state, action) matches Some(next) ==> next.channels[index].enabling()
            ==> state.channels[index].enabling() || (!other_enabling(state, index) && forall|
            i: int,
        |
            0 <= i < 5 && i != index ==> (#[trigger] next.channels[i]) == state.channels[i]),
{
    reveal(input_transition);
}

proof fn lemma_awg_enables(state: AppState, action: Action, index: int)
    requires
        state.screen.in_range(),
        0 <= index < 5,
    ensures
        awg_transition(state, action) matches Some(next) ==> next.channels[index].enabling()
            ==> state.channels[index].enabling() || (!other_enabling(state, index) && forall|
            i: int,
        |
            0 <= i < 5 && i != index ==> (#[trigger] next.channels[i]) == state.channels[i]),
{
    reveal(awg_transition);
}

proof fn lemma_record_enables(state: AppState, action: Action, index: int)
    requires
        state.screen.in_range(),
        0 <= index < 5,
    ensures
        record_transition(state, action) matches Some(next) ==> next.channels[index].enabling()
            ==> state.channels[index].enabling() || (!other_enabling(state, index) && forall|
            i: int,
        |
            0 <= i < 5 && i != index ==> (#[trigger] next.channels[i]) == state.channels[i]),
{
    reveal(record_transition);
}

/// An output is only ever recorded as on after the hardware reported so for
/// the operation that is current.
pub proof fn outputs_go_on_only_by_hardware_report(state: AppState, action: Action, index: int)
    requires
        state.screen.in_range(),
        0 <= index < 5,
        !state.channels[index].physical_enabled,
        reduced(state, action).channels[index].physical_enabled,
    ensures
        state.channels[index].requested_enabled,
        state.channels[index].transition matches OutputTransition::Enabling(operation) && (action
            == (Action::OutputEnergized { channel: index as u8, operation }) || action == (
        Action::OutputApplied { channel: index as u8, operation, enabled: true })),
{
    lemma_navigation_keeps_off(state, action, index);
    lemma_settings_keeps_off(state, action, index);
    lemma_input_keeps_off(state, action, index);
    lemma_awg_keeps_off(state, action, index);
    lemma_record_keeps_off(state, action, index);
    reveal(hardware_transition);
}

proof fn lemma_navigation_keeps_off(state: AppState, action: Action, index: int)
    requires
        state.screen.in_range(),
        0 <= index < 5,
        !state.channels[index].physical_enabled,
    ensures
        navigation_transition(state, action) matches Some(next) ==> !next.channels[index].physical_enabled,
{
    reveal(navigation_transition);
}

proof fn lemma_settings_keeps_off(state: AppState, action: Action, index: int)
    requires
        state.screen.in_range(),
        0 <= index < 5,
        !state.channels[index].physical_enabled,
    ensures
        settings_transition(state, action) matches Some(next) ==> !next.channels[index].physical_enabled,
{
    reveal(settings_transition);
}

proof fn lemma_input_keeps_off(state: AppState, action: Action, index: int)
    requires
        state.screen.in_range(),
        0 <= index < 5,
        !state.channels[index].physical_enabled,
    ensures
        input_transition(state, action) matches Some(next) ==> !next.channels[index].physical_enabled,
{
    reveal(input_transition);
}

proof fn lemma_awg_keeps_off(state: AppState, action: Action, index: int)
    requires
        state.screen.in_range(),
        0 <= index < 5,
        !state.channels[index].physical_enabled,
    ensures
        awg_transition(state, action) matches Some(next) ==> !next.channels[index].physical_enabled,
{
    reveal(awg_transition);
}

proof fn lemma_record_keeps_off(state: AppState, action: Action, index: int)
    requires
        state.screen.in_range(),
        0 <= index < 5,
        !state.channels[index].physical_enabled,
    ensures
        record_transition(state, action) matches Some(next) ==> !next.channels[index].physical_enabled,
{
    reveal(record_transition);
}

/// A failed global shutdown never claims that an output is off: it latches a
/// hardware fault on every channel and leaves the physical state alone.
pub proof fn failed_shutdown_claims_nothing_off(state: AppState, index: int)
    requires
        0 <= index < 5,
    ensures
        ({
            let next = reduced(state, Action::GlobalShutdownFailed);
            &&& next.channels[index].physical_enabled == state.channels[index].physical_enabled
            &&& !next.channels[index].requested_enabled
            &&& next.channels[index].fault == Fault::Hardware
            &&& next.awg_status == AwgStatus::Fault
        }),
{
    reveal(hardware_transition);
}

/// A verified global shutdown leaves every output off and stable, and no
/// waveform live.
pub proof fn verified_shutdown_leaves_outputs_off(state: AppState)
    ensures
        reduced(state, Action::GlobalShutdownApplied).all_off(),
        reduced(state, Action::GlobalShutdownApplied).all_stable(),
        !reduced(state, Action::GlobalShutdownApplied).any_active(),
        !(reduced(state, Action::GlobalShutdownApplied).awg_status is Running),
{
    reveal(hardware_transition);
    let next = reduced(state, Action::GlobalShutdownApplied);
    assert forall|i: int| 0 <= i < 5 implies {
        &&& !(#[trigger] next.channels[i]).active()
        &&& next.channels[i].transition == OutputTransition::Stable
    } by {
        let off = state.map_channels(|i: int, channel: ChannelSnapshot| shut_down(channel));
        assert(off.channels[i] == shut_down(state.channels[i]));
    }
}

/// A protection trip always withdraws the request and latches its fault.
pub proof fn trip_withdraws_the_request(state: AppState, channel: u8, fault: Fault)
    requires
        channel < 5,
    ensures
        ({
            let next = reduced(state, Action::ProtectionTrip { channel, fault });
            &&& !next.channels[channel as int].requested_enabled
            &&& next.channels[channel as int].fault == fault
            &&& state.channels[channel as int].active() ==> next.channels[channel as int].transition
                is Disabling
        }),
{
    reveal(hardware_transition);
}

/// One regulation step moves the drive by at most the slew step, and never
/// past the setpoint from below.
pub proof fn regulation_slews_in_bounded_steps(
    channel: ChannelSnapshot,
    index: int,
    measured_ma: u16,
)
    requires
        channel.drive_mv >= min_voltage(index),
        channel.setpoint_mv >= min_voltage(index),
    ensures
        regulated_drive(channel, index, measured_ma) matches Some(drive) ==> {
            &&& -VOLTAGE_SLEW_STEP_MV <= drive - channel.drive_mv <= VOLTAGE_SLEW_STEP_MV
            &&& drive >= min_voltage(index)
            &&& channel.drive_mv <= channel.setpoint_mv ==> drive <= channel.setpoint_mv
        },
{
}

/// Editing a setpoint or a regulation mode never moves the drive of an output
/// that is on.
pub proof fn edits_leave_a_live_drive_alone(
    state: AppState,
    channel: u8,
    millivolts: u16,
    mode: RegulationMode,
    direction: i8,
    index: int,
)
    requires
        state.screen.in_range(),
        0 <= index < 5,
        state.channels[index].physical_enabled,
    ensures
        reduced(state, Action::SetVoltage { channel, millivolts }).channels[index].drive_mv
            == state.channels[index].drive_mv,
        reduced(state, Action::SetRegulationMode { channel, mode }).channels[index].drive_mv
            == state.channels[index].drive_mv,
        reduced(state, Action::AdjustFocused(direction)).channels[index].drive_mv
            == state.channels[index].drive_mv,
{
    reveal(settings_transition);
}

/// Navigating between screens never touches an output.
pub proof fn navigation_leaves_outputs_alone(state: AppState, direction: i8)
    ensures
        reduced(state, Action::NextScreen).channels == state.channels,
        reduced(state, Action::PreviousScreen).channels == state.channels,
        reduced(state, Action::GoOverview).channels == state.channels,
        reduced(state, Action::GoMainMenu).channels == state.channels,
        reduced(state, Action::NavigateMenu(direction)).channels == state.channels,
        reduced(state, Action::ActivateMenu).channels == state.channels,
        reduced(state, Action::NextControl).channels == state.channels,
        reduced(state, Action::RequestReboot).channels == state.channels,
{
    reveal(navigation_transition);
}

} // verus!
