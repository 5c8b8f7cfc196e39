//! What the effects of a state change do to the hardware, and what a host
//! command's answer promises.

use crate::app::{Action, AppState, Fault, OutputTransition, Screen};
use crate::arb::DataChunk;
use crate::dispatch::{carried_out, dispatched};
use crate::executor::{
    clock_after, clock_reached, executed, ran_ready, submitted, ExecutorModel, PlanModel,
};
use crate::firmware::{
    command_handled, shutdown_told, Answer, CommandOutcome, WaveformDesk,
};
use crate::power::{
    disable_script, enable_script, global_shutdown_script, planned_effect, since, Attempt,
    DriverOperation, DriverRecord, FirmwareEffect, PowerEffect,
};
use crate::protection::Rail;
use crate::reducer::reduced;
use crate::text::{ascii, decimal};
use crate::usb_command::UsbIntent;
use vstd::prelude::*;

verus! {

/// Every output goes off when the waveform screen is entered or left, when the
/// input develops a fault, when the contract is lost, and when the input limit
/// changes under a contract while an output is active; at no other time.
pub proof fn outputs_go_off_when_they_must(old_state: AppState, new_state: AppState)
    ensures
        ({
            let off = planned_effect(old_state, new_state) == Some(
                FirmwareEffect { power: None, global_shutdown: true },
            );
            let entered = old_state.screen != Screen::Awg && new_state.screen == Screen::Awg;
            let left = old_state.screen == Screen::Awg && new_state.screen != Screen::Awg;
            let faulty = new_state.sink_fault != Fault::Clear && new_state.sink_fault
                != old_state.sink_fault;
            let lost = old_state.pd_contract is Some && new_state.pd_contract is None;
            let active = exists|i: int| 0 <= i < 5 && {
                ||| (#[trigger] old_state.channels[i]).physical_enabled
                ||| old_state.channels[i].requested_enabled
            };
            let limited = old_state.pd_contract is Some && old_state.sink_current_limit_ma
                != new_state.sink_current_limit_ma;
            &&& entered ==> off
            &&& left ==> off
            &&& faulty ==> off
            &&& lost ==> off
            &&& limited && active ==> off
            &&& !entered && !left && !faulty && !lost && !(limited && active)
                ==> !off
            &&& planned_effect(old_state, new_state) matches Some(effect) ==> (
            effect.global_shutdown <==> effect.power is None)
        }),
{
}

/// Where the one thing that changed is that a channel starts to switch, the
/// effect switches that channel, under its operation's number.
pub proof fn a_channel_that_starts_to_switch_is_switched(
    state: AppState,
    next: AppState,
    channel: u8,
    operation: u16,
    enabled: bool,
)
    requires
        channel < 5,
        state.channels[channel as int].transition == OutputTransition::Stable,
        next.channels[channel as int].transition == (if enabled {
            OutputTransition::Enabling(operation)
        } else {
            OutputTransition::Disabling(operation)
        }),
        forall|i: int|
            0 <= i < 5 && i != channel ==> (#[trigger] next.channels[i]).transition
                == state.channels[i].transition,
        next.screen == state.screen,
        next.sink_fault == state.sink_fault,
        next.pd_contract == state.pd_contract,
        next.sink_current_limit_ma == state.sink_current_limit_ma,
    ensures
        planned_effect(state, next) == Some(
            FirmwareEffect {
                power: Some(PowerEffect::Output { channel, operation, enabled }),
                global_shutdown: false,
            },
        ),
{
    reveal_with_fuel(crate::power::switching_effect, 6);
}

/// Where nothing switches, a new drive voltage reaches the hardware exactly for
/// a live adjustable channel.
pub proof fn new_drives_reach_live_channels(state: AppState, next: AppState, channel: u8)
    requires
        channel < 5,
        forall|i: int|
            0 <= i < 5 ==> (#[trigger] next.channels[i]).transition
                == state.channels[i].transition,
        forall|i: int|
            0 <= i < 5 && i != channel ==> (#[trigger] next.channels[i]).drive_mv
                == state.channels[i].drive_mv,
        next.screen == state.screen,
        next.sink_fault == state.sink_fault,
        next.pd_contract == state.pd_contract,
        next.sink_current_limit_ma == state.sink_current_limit_ma,
    ensures
        ({
            let output = next.channels[channel as int];
            let live = output.physical_enabled && (channel == 3 || channel == 4);
            if live && output.drive_mv != state.channels[channel as int].drive_mv {
                planned_effect(state, next) == Some(
                    FirmwareEffect {
                        power: Some(PowerEffect::Voltage { channel, millivolts: output.drive_mv }),
                        global_shutdown: false,
                    },
                )
            } else {
                planned_effect(state, next) is None
            }
        }),
{
    reveal_with_fuel(crate::power::switching_effect, 6);
    assert(next.channels[0].transition == state.channels[0].transition);
    assert(next.channels[1].transition == state.channels[1].transition);
    assert(next.channels[2].transition == state.channels[2].transition);
    assert(next.channels[3].transition == state.channels[3].transition);
    assert(next.channels[4].transition == state.channels[4].transition);
    assert(channel != 3 ==> next.channels[3].drive_mv == state.channels[3].drive_mv);
    assert(channel != 4 ==> next.channels[4].drive_mv == state.channels[4].drive_mv);
}

/// A channel of a shared converter is switched on with its gate closed until
/// the converter is known to run: where the sibling is off, it is started and
/// set to 3 V for the first two channels and to 5.5 V for the next two. The
/// last step holds the output to the channel's drive voltage.
pub proof fn shared_channels_are_exposed_last(state: AppState, channel: u8)
    requires
        channel < 4,
    ensures
        ({
            let script = enable_script(state, channel);
            let drive = state.channels[channel as int].drive_mv;
            let sibling: int = if channel == 0 {
                1
            } else if channel == 1 {
                0
            } else if channel == 2 {
                3
            } else {
                2
            };
            let rail = if channel <= 1 {
                Rail::Dc1
            } else {
                Rail::Dc2
            };
            let shared = state.channels[sibling].physical_enabled;
            let adjusted: int = if channel == 3 {
                1
            } else {
                0
            };
            let started: int = if shared {
                0
            } else {
                2
            };
            &&& script.len() == 4 + adjusted + started
            &&& script[0] == (DriverOperation::ChannelGate { channel, enabled: false })
            &&& !shared ==> script[1] == (DriverOperation::RailEnable { rail, enabled: true })
            &&& !shared ==> script[2] == (DriverOperation::ConfigureRail {
                rail,
                millivolts: if channel <= 1 {
                    3_000
                } else {
                    5_500
                },
            })
            &&& script[1 + started] == (DriverOperation::VerifyRail { rail })
            &&& channel == 3 ==> script[2 + started] == (DriverOperation::SetAdjustableDac {
                millivolts: drive,
            })
            &&& script[2 + started + adjusted] == (DriverOperation::ChannelGate {
                channel,
                enabled: true,
            })
            &&& script[3 + started + adjusted] == (DriverOperation::VerifyOutput {
                channel,
                millivolts: drive,
            })
        }),
{
}

/// The high channel is switched on from a restarted converter that is set to
/// the channel's drive voltage and to 3 A before its output is enabled. Its
/// converter is held to fixed-frequency switching only for a waveform.
pub proof fn the_high_channel_is_exposed_last(state: AppState)
    ensures
        ({
            let script = enable_script(state, 4);
            let drive = state.channels[4].drive_mv;
            &&& script.len() == 7
            &&& script[0] == DriverOperation::Ch5Enable(false)
            &&& script[1] == DriverOperation::Ch5Enable(true)
            &&& script[2] matches DriverOperation::ConfigureCh5 {
                millivolts,
                current_limit_ma,
                forced_pwm,
            } && millivolts == drive && current_limit_ma == 3_000 && (forced_pwm
                ==> state.awg_status is Starting) && (state.awg_status is Starting
                && state.awg_channel() == 4 ==> forced_pwm)
            &&& script[3] == DriverOperation::ClearCh5Status
            &&& script[4] == DriverOperation::ClearCh5Status
            &&& script[5] == DriverOperation::Ch5OutputEnable(true)
            &&& script[6] == (DriverOperation::VerifyOutput { channel: 4, millivolts: drive })
        }),
{
}

/// Switching a channel off closes its own control first. The converter goes
/// off with it exactly where the sibling does not need it; no other control is
/// touched.
pub proof fn a_channel_goes_off_alone(state: AppState, channel: u8)
    requires
        channel < 5,
    ensures
        ({
            let script = disable_script(state, channel);
            let first = state.channels[0].physical_enabled;
            let second = state.channels[1].physical_enabled;
            let third = state.channels[2].physical_enabled;
            let fourth = state.channels[3].physical_enabled;
            let gate = DriverOperation::ChannelGate { channel, enabled: false };
            let low = DriverOperation::RailEnable { rail: Rail::Dc1, enabled: false };
            let middle = DriverOperation::RailEnable { rail: Rail::Dc2, enabled: false };
            &&& channel == 0 ==> script =~= if second {
                seq![gate]
            } else {
                seq![gate, low]
            }
            &&& channel == 1 ==> script =~= if first {
                seq![gate]
            } else {
                seq![gate, low]
            }
            &&& channel == 2 ==> script =~= if fourth {
                seq![gate]
            } else {
                seq![gate, middle]
            }
            &&& channel == 3 ==> script =~= if third {
                seq![gate]
            } else {
                seq![gate, middle]
            }
            &&& channel == 4 ==> script =~= seq![
                DriverOperation::Ch5OutputEnable(false),
                DriverOperation::Ch5Enable(false),
            ]
        }),
{
}

/// A global shutdown holds the off control of every channel and of both shared
/// converters, and nothing else: the gates before the converters behind them.
pub proof fn a_shutdown_reaches_every_control(channel: u8, rail: Rail)
    requires
        channel < 4,
    ensures
        ({
            let script = global_shutdown_script();
            let gate = DriverOperation::ChannelGate { channel, enabled: false };
            let converter = DriverOperation::RailEnable { rail, enabled: false };
            &&& script.len() == 8
            &&& exists|i: int| 0 <= i < 4 && #[trigger] script[i] == gate
            &&& exists|i: int| 6 <= i < 8 && #[trigger] script[i] == converter
            &&& script.contains(DriverOperation::Ch5OutputEnable(false))
            &&& script.contains(DriverOperation::Ch5Enable(false))
        }),
{
    let script = global_shutdown_script();
    assert(script[channel as int] == (DriverOperation::ChannelGate { channel, enabled: false }));
    assert(script[if rail == Rail::Dc1 {
        6
    } else {
        7
    }] == (DriverOperation::RailEnable { rail, enabled: false }));
    assert(script[4] == DriverOperation::Ch5OutputEnable(false));
    assert(script[5] == DriverOperation::Ch5Enable(false));
}

/// On the wrapping clock a deadline at most half a turn away is reached exactly
/// when that much time has passed.
pub proof fn deadlines_are_kept(now: u16, delay: u16, passed: u16)
    requires
        delay < 0x8000,
        passed < 0x8000,
    ensures
        clock_reached(clock_after(now, passed), clock_after(now, delay)) <==> passed >= delay,
{
}

/// A plan that goes on later does so 50 ms after a converter was started, set
/// or exposed; after any other step that succeeds it goes on at once.
pub proof fn converters_get_fifty_milliseconds(
    before: ExecutorModel,
    state: AppState,
    after: ExecutorModel,
    action: Option<Action>,
)
    requires
        before.pending is Some,
        ran_ready(before, state, after, action),
    ensures
        after.pending is Some ==> {
            let attempts = since(before.trace, after.trace);
            let last = attempts.last();
            &&& after.deadline_ms == Some(clock_after(before.now_ms, 50))
            &&& last.1
            &&& {
                ||| last.0 matches DriverOperation::RailEnable { rail, enabled } && enabled
                ||| last.0 is ConfigureRail
                ||| last.0 == DriverOperation::Ch5Enable(true)
                ||| last.0 == DriverOperation::Ch5OutputEnable(true)
            }
            &&& action is Some <==> last.0 == DriverOperation::Ch5OutputEnable(true)
        },
        after.pending is None ==> after.deadline_ms is None,
{
}

/// A channel is reported as on only once every step of its script succeeded, and
/// only where it may be on; one that fails on the way is reported as failed, with
/// every off control of it attempted last.
pub proof fn on_means_every_step_succeeded(
    state: AppState,
    channel: u8,
    operation: u16,
    attempts: Seq<Attempt>,
    action: Action,
)
    requires
        channel < 5,
        executed(
            state,
            (PowerEffect::Output { channel, operation, enabled: true }),
            attempts,
            action,
        ),
    ensures
        ({
            let script = enable_script(state, channel);
            let off = disable_script(state, channel);
            let done = Action::OutputApplied { channel, operation, enabled: true };
            let start = attempts.len() - off.len();
            &&& action == done ==> {
                &&& attempts.len() == script.len()
                &&& forall|i: int|
                    0 <= i < script.len() ==> (#[trigger] attempts[i]).0 == script[i]
                        && attempts[i].1
                &&& state.recovery_armed && state.temp_valid
                &&& state.channels[channel as int].measurement.valid
                &&& state.sink_fault == Fault::Clear
                &&& state.pd_contract is Some
                &&& state.temp_sixteenths_c < 1_120
            }
            &&& action != done ==> {
                &&& action matches Action::OutputFailed { channel: own, operation: token, fault }
                &&& own == channel && token == operation && fault != Fault::Clear
                &&& start >= 0
                &&& forall|i: int|
                    0 <= i < off.len() ==> (#[trigger] attempts[start + i]).0 == off[i]
            }
        }),
{
    let off = disable_script(state, channel);
    let start = attempts.len() - off.len();
    if action != (Action::OutputApplied { channel, operation, enabled: true }) {
        let last = attempts.skip(start);
        assert forall|i: int| 0 <= i < off.len() implies (#[trigger] attempts[start + i]).0
            == off[i] by {
            assert(last[i] == attempts[start + i]);
        }
    }
}

/// A shared channel is reported as off only once its gate is off, and its
/// converter where it goes off too; the high one once its converter is.
pub proof fn off_means_the_controls_are_off(
    state: AppState,
    channel: u8,
    operation: u16,
    attempts: Seq<Attempt>,
    action: Action,
)
    requires
        channel < 5,
        executed(
            state,
            (PowerEffect::Output { channel, operation, enabled: false }),
            attempts,
            action,
        ),
    ensures
        ({
            let done = Action::OutputApplied { channel, operation, enabled: false };
            let off = disable_script(state, channel);
            &&& action == done ==> {
                &&& attempts.len() == off.len()
                &&& forall|i: int|
                    0 <= i < off.len() ==> (#[trigger] attempts[i]).0 == off[i]
                &&& channel < 4 ==> forall|i: int|
                    0 <= i < off.len() ==> (#[trigger] attempts[i]).1
                &&& channel == 4 ==> attempts[1].1
            }
            &&& action != done ==> action == (Action::OutputFailed {
                channel,
                operation,
                fault: Fault::Hardware,
            })
        }),
{
}

/// A new voltage goes to the channel's own converter; where it is refused, the
/// channel is taken out of service and reported as failed.
pub proof fn voltages_go_to_their_own_converter(
    state: AppState,
    channel: u8,
    millivolts: u16,
    attempts: Seq<Attempt>,
    action: Action,
)
    requires
        channel == 3 || channel == 4,
        executed(state, (PowerEffect::Voltage { channel, millivolts }), attempts, action),
    ensures
        ({
            let operation = if channel == 3 {
                DriverOperation::SetAdjustableDac { millivolts }
            } else {
                DriverOperation::Ch5Voltage(millivolts)
            };
            let off = disable_script(state, channel);
            &&& attempts.len() > 0
            &&& attempts[0].0 == operation
            &&& attempts[0].1 <==> action == Action::HardwareSettingApplied
            &&& attempts[0].1 ==> attempts.len() == 1
            &&& !attempts[0].1 ==> attempts.len() == 1 + off.len() && action
                == (Action::HardwareSettingFailed { channel, fault: Fault::Hardware })
        }),
{
}

/// While a channel is being switched, another one is not switched on; only
/// switching the same channel off gets in between.
pub proof fn one_channel_is_switched_at_a_time(
    before: ExecutorModel,
    state: AppState,
    channel: u8,
    operation: u16,
    after: ExecutorModel,
    action: Option<Action>,
)
    requires
        before.pending is Some,
        submitted(
            before,
            state,
            (PowerEffect::Output { channel, operation, enabled: true }),
            after,
            action,
        ),
    ensures
        action == Some(
            Action::OutputFailed { channel, operation, fault: Fault::Hardware },
        ),
        after.pending == before.pending,
        after.deadline_ms == before.deadline_ms,
{
}

/// A plan goes on only as long as the state still asks for it and the channel
/// may be on. A plan that is no longer wanted is taken back without a word; one
/// that may not go on is taken back and reported.
pub proof fn plans_need_the_state_behind_them(
    before: ExecutorModel,
    state: AppState,
    after: ExecutorModel,
    action: Option<Action>,
    plan: PlanModel,
)
    requires
        before.pending == Some(plan),
        plan.enabled,
        plan.channel < 5,
        ran_ready(before, state, after, action),
    ensures
        ({
            let output = state.channels[plan.channel as int];
            let wanted = output.requested_enabled && output.transition
                == OutputTransition::Enabling(plan.operation);
            let hot = state.temp_sixteenths_c >= 1_120;
            let allowed = state.recovery_armed && state.temp_valid && output.measurement.valid
                && state.sink_fault == Fault::Clear && state.pd_contract is Some && !hot
                && output.current_limit_ma <= 3_000;
            &&& !wanted ==> action is None && after.pending is None
            &&& wanted && !allowed ==> after.pending is None && (action
                matches Some(Action::OutputFailed { channel, operation, fault }) && channel
                == plan.channel && operation == plan.operation)
            &&& !wanted || !allowed ==> since(before.trace, after.trace).len()
                == plan.retreat().len()
            &&& action == Some(
                Action::OutputApplied {
                    channel: plan.channel,
                    operation: plan.operation,
                    enabled: true,
                },
            ) ==> wanted && allowed && plan.cursor + since(before.trace, after.trace).len()
                == plan.script.len()
        }),
{
}

/// A text that says all is well begins with "OK", one that refuses begins with
/// "ERR:" and goes on with the reason; every text ends its line.
pub proof fn answers_are_worded()
    ensures
        Answer::Done.wording() == ascii("OK\r\n"@),
        Answer::Busy.wording() == ascii("ERR:BUSY\r\n"@),
        Answer::Hardware.wording() == ascii("ERR:HARDWARE\r\n"@),
        Answer::OverCurrent.wording() == ascii("ERR:OVERCURRENT\r\n"@),
        Answer::OverTemperature.wording() == ascii("ERR:OVERTEMP\r\n"@),
        Answer::Sensor.wording() == ascii("ERR:SENSOR\r\n"@),
        Answer::Range.wording() == ascii("ERR:RANGE\r\n"@),
        Answer::Sequence.wording() == ascii("ERR:SEQUENCE\r\n"@),
        Answer::Incomplete.wording() == ascii("ERR:INCOMPLETE\r\n"@),
        Answer::Flash.wording() == ascii("ERR:FLASH\r\n"@),
        Answer::Rebooting.wording() == ascii("OK:REBOOTING\r\n"@),
        Answer::Jumping.wording() == ascii("OK:JUMPING_TO_BOOTLOADER\r\n"@),
        forall|channel: u8| #[trigger]
            Answer::Stored(channel).wording() == ascii("OK:ACK:CH"@) + decimal(
                (channel + 1) as nat,
            ) + ascii("\r\n"@),
        forall|channel: u8, points: u16| #[trigger]
            (Answer::Started { channel, points }).wording() == ascii("OK:CH"@) + decimal(
                (channel + 1) as nat,
            ) + ascii("_ARB_STARTED_PTS:"@) + decimal(points as nat) + ascii("\r\n"@),
{
}

/// A command that is answered "OK" has been carried out: an output stands as
/// asked, without a fault where it is on, and a setting has the value that was
/// asked for.
pub proof fn done_means_done(
    state: AppState,
    before: DriverRecord,
    desk: WaveformDesk,
    intent: UsbIntent,
    settled: AppState,
    after: DriverRecord,
    desk_after: WaveformDesk,
    outcome: CommandOutcome,
)
    requires
        command_handled(state, before, desk, intent, settled, after, desk_after, outcome),
        outcome == CommandOutcome::Reply(Answer::Done),
    ensures
        (match intent {
            UsbIntent::SetOutput { channel, enabled } => {
                let output = settled.channels[channel as int];
                channel < 5 ==> {
                    &&& output.physical_enabled == enabled
                    &&& output.requested_enabled == enabled
                    &&& enabled ==> output.fault == Fault::Clear
                }
            },
            UsbIntent::SetVoltage { channel, millivolts } => {
                &&& settled.channels[channel as int].setpoint_mv == millivolts
                &&& settled.channels[channel as int].fault != Fault::Hardware
            },
            UsbIntent::SetCurrentLimit { channel, milliamps } => {
                &&& settled.channels[channel as int].current_limit_ma == milliamps
                &&& settled.channels[channel as int].fault != Fault::Hardware
            },
            UsbIntent::SetRegulationMode { channel, mode } => {
                &&& settled.channels[channel as int].regulation_mode == mode
                &&& settled.channels[channel as int].fault != Fault::Hardware
            },
            UsbIntent::SetSinkCurrentLimit(milliamps) => settled.sink_current_limit_ma == milliamps,
            UsbIntent::ArbStop(channel) => channel < 5 ==> !(settled.awg_source is Arbitrary
                && settled.awg_channel() == channel && settled.awg_status is Running),
            _ => false,
        }),
{
    match intent {
        UsbIntent::SetOutput { channel, enabled } => {
            if !enabled && channel < 5 && channel == state.awg_channel() && state.awg_status
                is Running {
                a_stopped_waveform_is_off(state, before, settled, after, channel);
            }
        },
        UsbIntent::ArbStop(channel) => {
            if channel < 5 && state.awg_source is Arbitrary && state.awg_channel() == channel && !(
            state.awg_status is Stopped) {
                a_stopped_waveform_is_off(state, before, settled, after, 0);
            }
        },
        _ => {},
    }
}

/// A waveform that was stopped has left every output off.
pub proof fn a_stopped_waveform_is_off(
    state: AppState,
    before: DriverRecord,
    settled: AppState,
    after: DriverRecord,
    channel: u8,
)
    requires
        channel < 5,
        state.awg_channel() < 5,
        crate::firmware::waveform_stopped(state, before, true, settled, after),
    ensures
        !settled.channels[channel as int].physical_enabled,
        !settled.channels[channel as int].requested_enabled,
        settled.awg_status is Stopped,
{
    let (off, silent) = choose|off: AppState, silent: DriverRecord| #[trigger]
        shutdown_told(state, before, true, off, silent) && crate::firmware::dispatched_at_once(
            off,
            silent,
            Action::AwgStopped,
            settled,
            after,
        );
    assert(off == reduced(state, Action::GlobalShutdownApplied));
    reveal(crate::reducer::hardware_transition);
    reveal(crate::reducer::awg_halted);
    reveal(AppState::map_channels);
    let next = reduced(off, Action::AwgStopped);
    let played = state.awg_channel();
    crate::action_laws::shutdowns_switch_everything_off(state, channel as int);
    crate::action_laws::shutdowns_switch_everything_off(state, played as int);
    crate::action_laws::samples_drive_their_channel(off, 0);
    new_drives_reach_live_channels(off, next, played);
}

/// A command that is refused says why: "BUSY" comes only while a waveform is
/// under way or cannot be started, and names of faults only with that fault on
/// the channel.
pub proof fn refusals_name_the_reason(
    state: AppState,
    before: DriverRecord,
    desk: WaveformDesk,
    channel: u8,
    enabled: bool,
    settled: AppState,
    after: DriverRecord,
    desk_after: WaveformDesk,
    answer: Answer,
)
    requires
        channel < 5,
        command_handled(
            state,
            before,
            desk,
            UsbIntent::SetOutput { channel, enabled },
            settled,
            after,
            desk_after,
            CommandOutcome::Reply(answer),
        ),
    ensures
        ({
            let under_way = state.awg_status is StartRequested || state.awg_status is Starting
                || state.awg_status is Running || state.awg_status is StopRequested;
            let output = settled.channels[channel as int];
            &&& answer == Answer::Busy <==> enabled && under_way
            &&& answer == Answer::OverCurrent ==> output.fault == Fault::OverCurrent
            &&& answer == Answer::OverTemperature ==> output.fault == Fault::OverTemperature
            &&& answer == Answer::Sensor ==> output.fault == Fault::Sensor
            &&& !under_way && output.fault == Fault::OverCurrent && enabled ==> answer
                == Answer::OverCurrent
            &&& !under_way && output.fault == Fault::OverTemperature && enabled ==> answer
                == Answer::OverTemperature
            &&& !under_way && output.fault == Fault::Sensor && enabled ==> answer
                == Answer::Sensor
            &&& !under_way && enabled && output.fault == Fault::Clear && output.physical_enabled
                && output.requested_enabled ==> answer == Answer::Done
        }),
{
}

/// A chunk that begins an upload, or goes on where the last one of its channel
/// ended, is acknowledged and its samples stand at its offset; every other
/// sample stays. Any other chunk, and any chunk while a waveform is under way,
/// leaves everything as it is.
pub proof fn chunks_are_stored_in_sequence(
    state: AppState,
    before: DriverRecord,
    desk: WaveformDesk,
    chunk: DataChunk,
    settled: AppState,
    after: DriverRecord,
    desk_after: WaveformDesk,
    outcome: CommandOutcome,
)
    requires
        chunk.len <= 8,
        chunk.offset + chunk.len <= 256,
        chunk.wf(),
        command_handled(
            state,
            before,
            desk,
            UsbIntent::ArbData(chunk),
            settled,
            after,
            desk_after,
            outcome,
        ),
    ensures
        ({
            let resting = state.awg_status is Stopped || state.awg_status is Fault;
            let next = chunk.offset == 0 || (chunk.channel == desk.upload.channel && chunk.offset
                == desk.upload.received);
            &&& settled == state
            &&& after == before
            &&& desk_after.service == desk.service
            &&& !resting ==> outcome == CommandOutcome::Reply(Answer::Busy) && desk_after == desk
            &&& resting && !next ==> outcome == CommandOutcome::Reply(Answer::Sequence)
                && desk_after == desk
            &&& resting && next ==> {
                &&& outcome == CommandOutcome::Reply(Answer::Stored(chunk.channel))
                &&& desk_after.upload.channel == chunk.channel
                &&& desk_after.upload.received == chunk.offset + chunk.len
                &&& forall|i: int|
                    0 <= i < chunk.len ==> #[trigger] desk_after.buffer.millivolts[chunk.offset
                        + i] == chunk.millivolts[i]
                &&& forall|i: int|
                    0 <= i < desk.buffer.millivolts@.len() && !(chunk.offset <= i < chunk.offset
                        + chunk.len) ==> #[trigger] desk_after.buffer.millivolts[i]
                        == desk.buffer.millivolts[i]
            }
        }),
{
}

/// An uploaded waveform is started only from a complete upload for its channel;
/// what is refused changes nothing, and what is accepted is answered once it
/// runs.
pub proof fn runs_need_a_complete_upload(
    state: AppState,
    before: DriverRecord,
    desk: WaveformDesk,
    start: crate::arb::Start,
    settled: AppState,
    after: DriverRecord,
    desk_after: WaveformDesk,
    outcome: CommandOutcome,
)
    requires
        command_handled(
            state,
            before,
            desk,
            UsbIntent::ArbStart(start),
            settled,
            after,
            desk_after,
            outcome,
        ),
    ensures
        ({
            let resting = state.awg_status is Stopped || state.awg_status is Fault;
            let complete = desk.upload.channel == start.channel && desk.upload.received
                >= start.count;
            let accepted = outcome == CommandOutcome::Silent;
            &&& accepted ==> resting && complete
            &&& accepted ==> desk_after.service.runtime.active == Some(start)
                && desk_after.service.runtime.pending_ack == Some(start)
            &&& accepted ==> settled.awg_status is StartRequested && settled.awg_source
                is Arbitrary
            &&& !accepted ==> desk_after == desk
            &&& resting && !complete ==> outcome == CommandOutcome::Reply(Answer::Incomplete)
                && settled == state && after == before
            &&& !resting ==> outcome == CommandOutcome::Reply(Answer::Busy) && settled == state
                && after == before
            &&& desk_after.upload == desk.upload
            &&& desk_after.buffer == desk.buffer
        }),
{
}

/// A run is refused where one of its samples does not fit its channel: from
/// 0.5 V to 5 V on the low one, from 0.8 V to 22 V on the high one.
pub proof fn runs_fit_their_channel(
    state: AppState,
    before: DriverRecord,
    desk: WaveformDesk,
    start: crate::arb::Start,
    settled: AppState,
    after: DriverRecord,
    desk_after: WaveformDesk,
    outcome: CommandOutcome,
    index: int,
)
    requires
        start.channel == 3 || start.channel == 4,
        0 <= index < start.count,
        state.awg_status is Stopped,
        desk.upload.channel == start.channel,
        desk.upload.received >= start.count,
        command_handled(
            state,
            before,
            desk,
            UsbIntent::ArbStart(start),
            settled,
            after,
            desk_after,
            outcome,
        ),
    ensures
        ({
            let sample = desk.buffer.millivolts[index];
            let low: int = if start.channel == 3 {
                500
            } else {
                800
            };
            let high: int = if start.channel == 3 {
                5_000
            } else {
                22_000
            };
            let fits = forall|i: int|
                0 <= i < start.count ==> low <= (#[trigger] desk.buffer.millivolts[i]) <= high;
            &&& !(low <= sample <= high) ==> outcome == CommandOutcome::Reply(Answer::Range)
            &&& fits <==> outcome != CommandOutcome::Reply(Answer::Range)
        }),
{
}

/// A run that was accepted is acknowledged once, with its channel and its
/// length, when it runs, and as failed when it has come to nothing.
pub proof fn runs_are_acknowledged(state: AppState, desk: WaveformDesk, start: crate::arb::Start)
    requires
        desk.service.runtime.pending_ack == Some(start),
    ensures
        ({
            let answer = crate::firmware_service::run_answer(state, desk.service.runtime);
            &&& state.awg_status is Running && state.awg_source is Arbitrary ==> answer == Some(
                Answer::Started { channel: start.channel, points: start.count },
            )
            &&& state.awg_status is Stopped || state.awg_status is Fault ==> answer == Some(
                Answer::Hardware,
            )
            &&& state.awg_status is StartRequested || state.awg_status is Starting
                || state.awg_status is StopRequested ==> answer is None
        }),
{
}

/// The system bootloader is entered, and the device restarts, only with every
/// output off.
pub proof fn the_bootloader_is_entered_with_everything_off(
    state: AppState,
    before: DriverRecord,
    desk: WaveformDesk,
    settled: AppState,
    after: DriverRecord,
    desk_after: WaveformDesk,
    outcome: CommandOutcome,
    channel: u8,
)
    requires
        channel < 5,
        command_handled(
            state,
            before,
            desk,
            UsbIntent::JumpToBootloader,
            settled,
            after,
            desk_after,
            outcome,
        ),
    ensures
        outcome == CommandOutcome::Jump || outcome == CommandOutcome::Reply(Answer::Hardware),
        outcome == CommandOutcome::Jump ==> !settled.channels[channel as int].physical_enabled,
        outcome == CommandOutcome::Jump ==> forall|i: int|
            0 <= i < 8 && i != 4 ==> (#[trigger] since(before.trace, after.trace)[i]).1,
        since(before.trace, after.trace).len() == 8,
{
    if outcome == CommandOutcome::Jump {
        crate::action_laws::shutdowns_switch_everything_off(state, channel as int);
    }
}

/// True of the switches that have to be off for everything to be off.
pub open spec fn switches_off(operation: DriverOperation) -> bool {
    ||| operation is ChannelGate
    ||| operation is Ch5Enable
    ||| operation is RailEnable
}

/// A global shutdown throws every gate and both rails, whatever becomes of each;
/// it is reported done where all of them moved, and failed otherwise, and leaves
/// nothing pending.
pub proof fn a_global_shutdown_leaves_nothing_on(
    before: ExecutorModel,
    state: AppState,
    effect: FirmwareEffect,
    after: ExecutorModel,
    report: Option<Action>,
    channel: u8,
)
    requires
        carried_out(before, state, effect, after, report),
        effect.global_shutdown,
        channel < 4,
    ensures
        ({
            let attempts = since(before.trace, after.trace);
            &&& exists|i: int|
                0 <= i < attempts.len() && (#[trigger] attempts[i]).0 == (
                DriverOperation::ChannelGate { channel, enabled: false })
            &&& exists|i: int|
                0 <= i < attempts.len() && (#[trigger] attempts[i]).0 == DriverOperation::Ch5Enable(
                    false,
                )
            &&& exists|i: int|
                0 <= i < attempts.len() && (#[trigger] attempts[i]).0 == (
                DriverOperation::RailEnable { rail: Rail::Dc1, enabled: false })
            &&& exists|i: int|
                0 <= i < attempts.len() && (#[trigger] attempts[i]).0 == (
                DriverOperation::RailEnable { rail: Rail::Dc2, enabled: false })
            &&& report == Some(Action::GlobalShutdownApplied) <==> (forall|i: int|
                0 <= i < attempts.len() && switches_off((#[trigger] attempts[i]).0)
                    ==> attempts[i].1)
            &&& report == Some(Action::GlobalShutdownFailed) <==> (exists|i: int|
                0 <= i < attempts.len() && switches_off((#[trigger] attempts[i]).0)
                    && !attempts[i].1)
            &&& after.pending is None
            &&& after.deadline_ms is None
        }),
{
    let attempts = since(before.trace, after.trace);
    let script = global_shutdown_script();
    assert(attempts.len() == 8);
    assert(attempts[channel as int].0 == script[channel as int]);
    assert(attempts[5].0 == script[5]);
    assert(attempts[6].0 == script[6]);
    assert(attempts[7].0 == script[7]);
    assert(attempts[4].0 == script[4]);
    assert forall|i: int| 0 <= i < 8 implies switches_off((#[trigger] attempts[i]).0) == (i
        != 4) by {
        assert(attempts[i].0 == script[i]);
    }
}

/// An action that changes nothing in the state moves no hardware.
pub proof fn what_changes_nothing_moves_nothing(
    state: AppState,
    before: ExecutorModel,
    action: Action,
    settled: AppState,
    after: ExecutorModel,
)
    requires
        dispatched(state, before, action, settled, after),
        reduced(state, action) == state,
    ensures
        settled == state,
        after == before,
{
    crate::dispatch::quiet_transitions_have_no_effect(state, state);
}

} // verus!
