//! Action dispatch: runs the reducer, derives effects, and feeds completion
//! and failure actions back in until the state settles.

use crate::app::{Action, AppReducer, AppState, OutputTransition};
use crate::executor::{execute_global_shutdown, submitted, ExecutorModel, PowerExecutor};
use crate::power::{
    attempted, continues, demands_shutdown, global_shutdown_script, planned_effect, since,
    switching_effect, voltage_effect, FirmwareEffect, FirmwareEffectPlanner, PowerDriver,
};
use crate::reducer::{edits_screen, hardware_transition, reduced, transition};
use vstd::prelude::*;

verus! {

broadcast use {crate::app::group_map_channels, crate::reducer::group_awg_halted};

/// True of the actions that report what became of an effect.
pub open spec fn reports_effect(action: Action) -> bool {
    ||| action is OutputApplied
    ||| action is OutputFailed
    ||| action is OutputEnergized
    ||| action is HardwareSettingApplied
    ||| action is HardwareSettingFailed
    ||| action is GlobalShutdownApplied
    ||| action is GlobalShutdownFailed
}

/// What carrying out `effect` makes of an executor, and the action that
/// reports it.
pub open spec fn carried_out(
    before: ExecutorModel,
    state: AppState,
    effect: FirmwareEffect,
    after: ExecutorModel,
    report: Option<Action>,
) -> bool {
    if effect.global_shutdown {
        let attempts = since(before.trace, after.trace);
        &&& continues(before.trace, after.trace)
        &&& attempted(global_shutdown_script(), attempts)
        &&& after == (ExecutorModel {
            trace: after.trace,
            cancels: before.cancels.push(before.trace.len()),
            pending: None,
            deadline_ms: None,
            now_ms: before.now_ms,
        })
        &&& report == Some(
            if forall|i: int| 0 <= i < 8 && i != 4 ==> (#[trigger] attempts[i]).1 {
                Action::GlobalShutdownApplied
            } else {
                Action::GlobalShutdownFailed
            },
        )
    } else {
        match effect.power {
            Some(power) => submitted(before, state, power, after, report),
            None => after == before && report is None,
        }
    }
}

/// Carries out an effect and returns the action that reports it, if any.
pub fn carry_out<D: PowerDriver>(
    power_driver: &mut PowerExecutor<D>,
    state: &AppState,
    effect: FirmwareEffect,
) -> (report: Option<Action>)
    requires
        old(power_driver).wf(),
    ensures
        final(power_driver).wf(),
        carried_out(old(power_driver).model(), *state, effect, final(power_driver).model(), report),
        report matches Some(action) ==> reports_effect(action),
{
    if effect.global_shutdown {
        if execute_global_shutdown(power_driver).is_ok() {
            Some(Action::GlobalShutdownApplied)
        } else {
            Some(Action::GlobalShutdownFailed)
        }
    } else {
        match effect.power {
            Some(power) => power_driver.submit(state, power),
            None => None,
        }
    }
}

/// `settled` and the executor `after` are what dispatching `action` makes of
/// `state` and `before`: the action is reduced, the effect of that transition
/// is carried out, and its report is reduced in turn.
pub open spec fn dispatched(
    state: AppState,
    before: ExecutorModel,
    action: Action,
    settled: AppState,
    after: ExecutorModel,
) -> bool {
    let next = reduced(state, action);
    match planned_effect(state, next) {
        None => settled == next && after == before,
        Some(effect) => exists|report: Option<Action>| #[trigger]
            carried_out(before, next, effect, after, report) && settled == (match report {
                Some(report) => reduced(next, report),
                None => next,
            }),
    }
}

/// Nothing starts to switch, no live drive moves, and nothing demands a
/// shutdown on the way from `old` to `new`.
pub open spec fn quiet(old: AppState, new: AppState) -> bool {
    &&& !demands_shutdown(old, new)
    &&& forall|i: int|
        0 <= i < 5 ==> (#[trigger] new.channels[i]).transition == OutputTransition::Stable
            || new.channels[i].transition == old.channels[i].transition
    &&& forall|i: int|
        0 <= i < 5 ==> (#[trigger] new.channels[i]).physical_enabled ==> new.channels[i].drive_mv
            == old.channels[i].drive_mv
}

proof fn lemma_no_switching(old: AppState, new: AppState, from: int)
    requires
        0 <= from <= 5,
        forall|i: int|
            0 <= i < 5 ==> (#[trigger] new.channels[i]).transition == OutputTransition::Stable
                || new.channels[i].transition == old.channels[i].transition,
    ensures
        switching_effect(old, new, from) is None,
    decreases 5 - from,
{
    if from < 5 {
        assert(new.channels[from].transition == OutputTransition::Stable
            || new.channels[from].transition == old.channels[from].transition);
        lemma_no_switching(old, new, from + 1);
    }
}

/// A quiet transition has no effect.
pub proof fn quiet_transitions_have_no_effect(old: AppState, new: AppState)
    requires
        quiet(old, new),
    ensures
        planned_effect(old, new) is None,
{
    lemma_no_switching(old, new, 0);
    assert(voltage_effect(old, new, 3) is None) by {
        assert(new.channels[3].physical_enabled ==> new.channels[3].drive_mv
            == old.channels[3].drive_mv);
    }
    assert(voltage_effect(old, new, 4) is None) by {
        assert(new.channels[4].physical_enabled ==> new.channels[4].drive_mv
            == old.channels[4].drive_mv);
    }
}

/// Reports settle the state: reducing the report of an effect never plans
/// another effect, so dispatch always comes to an end.
pub proof fn reports_plan_no_further_effect(state: AppState, report: Action)
    requires
        reports_effect(report),
    ensures
        planned_effect(state, reduced(state, report)) is None,
{
    let next = reduced(state, report);
    lemma_report_frame(state, report);
    assert forall|i: int| 0 <= i < 5 implies {
        &&& (#[trigger] next.channels[i]).transition == OutputTransition::Stable
            || next.channels[i].transition == state.channels[i].transition
        &&& next.channels[i].physical_enabled ==> next.channels[i].drive_mv
            == state.channels[i].drive_mv
    } by {
        lemma_report_channel(state, report, i);
    }
    quiet_transitions_have_no_effect(state, next);
}

proof fn lemma_report_frame(state: AppState, report: Action)
    requires
        reports_effect(report),
    ensures
        ({
            let next = reduced(state, report);
            &&& next.screen == state.screen
            &&& next.sink_fault == state.sink_fault
            &&& next.pd_contract == state.pd_contract
            &&& next.sink_current_limit_ma == state.sink_current_limit_ma
        }),
{
    reveal(hardware_transition);
}

proof fn lemma_report_channel(state: AppState, report: Action, index: int)
    requires
        reports_effect(report),
        0 <= index < 5,
    ensures
        ({
            let old = state.channels[index];
            let new = reduced(state, report).channels[index];
            &&& new.transition == OutputTransition::Stable || new.transition == old.transition
            &&& new.physical_enabled ==> new.drive_mv == old.drive_mv
        }),
{
    reveal(hardware_transition);
    reveal(crate::reducer::awg_halted);
}

/// Dispatches one action: reduces it, carries out the effect of the
/// transition, and reduces the report. Says whether the state changed.
pub fn dispatch_app<D: PowerDriver>(
    state: &mut AppState,
    power_driver: &mut PowerExecutor<D>,
    action: Action,
) -> (changed: bool)
    requires
        edits_screen(action) ==> old(state).screen.in_range(),
        old(power_driver).wf(),
    ensures
        old(state).screen.in_range() ==> final(state).screen.in_range(),
        old(state).wf() ==> final(state).wf(),
        final(power_driver).wf(),
        dispatched(
            *old(state),
            old(power_driver).model(),
            action,
            *final(state),
            final(power_driver).model(),
        ),
        changed <==> reduced(*old(state), action) != *old(state),
{
    let ghost start = *state;
    proof {
        if start.screen.in_range() {
            crate::reducer_laws::reduction_keeps_screen_in_range(start, action);
        }
        if start.wf() {
            crate::reducer_laws::reduction_keeps_state_well_formed(start, action);
        }
        crate::reducer_laws::version_tells_states_apart(start, action);
    }
    let next: AppState = AppReducer::reduce(state, action);
    let changed: bool = next.version != state.version;
    let effect = FirmwareEffectPlanner::plan(state, &next);
    *state = next;
    match effect {
        None => {},
        Some(effect) => {
            match carry_out(power_driver, state, effect) {
                None => {},
                Some(report) => {
                    proof {
                        if next.screen.in_range() {
                            crate::reducer_laws::reduction_keeps_screen_in_range(next, report);
                        }
                        if next.wf() {
                            crate::reducer_laws::reduction_keeps_state_well_formed(next, report);
                        }
                        reports_plan_no_further_effect(next, report);
                    }
                    *state = AppReducer::reduce(state, report);
                },
            }
        },
    }
    changed
}

} // verus!
