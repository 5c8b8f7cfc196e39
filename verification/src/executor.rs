//! Execution of power effects: at once, or staged by settle deadlines.

use crate::app::{Action, AppState, AwgStatus, ChannelSnapshot, Fault, OutputTransition};
use crate::power::{
    attempted, continues, disable_script, enable_is_eligible, enable_script, followed,
    global_shutdown_script, ineligibility, lemma_trace_concat, lemma_trace_push, off_script,
    rail_for, rail_setpoint, rail_to_drop, sibling_is_on, since, undisturbed, Attempt,
    DriverOperation, PowerDriver, PowerEffect, CH5_TPS_CONFIGURATION_LIMIT_MA, HARDWARE_SETTLE_MS,
};
use crate::protection::Rail;
use vstd::prelude::*;

verus! {

pub const POWER_PLAN_CAPACITY: usize = 7;

/// A switching operation in progress: its script, and how far it has come.
#[derive(Clone, Copy)]
pub struct PowerPlan {
    pub operations: [DriverOperation; POWER_PLAN_CAPACITY],
    pub len: u8,
    pub cursor: u8,
    pub channel: u8,
    pub operation: u16,
    pub enabled: bool,
    pub rail_to_disable_on_failure: Option<Rail>,
}

/// What a plan stands for.
pub struct PlanModel {
    pub script: Seq<DriverOperation>,
    pub cursor: nat,
    pub channel: u8,
    pub operation: u16,
    pub enabled: bool,
    pub rail: Option<Rail>,
}

impl PlanModel {
    /// The operations that take the plan's channel out of service.
    pub open spec fn retreat(self) -> Seq<DriverOperation> {
        off_script(self.channel, self.rail)
    }

    /// The action that reports the plan's completion.
    pub open spec fn completion(self) -> Action {
        Action::OutputApplied {
            channel: self.channel,
            operation: self.operation,
            enabled: self.enabled,
        }
    }

    /// The action that reports the plan's failure.
    pub open spec fn failure(self, fault: Fault) -> Action {
        Action::OutputFailed { channel: self.channel, operation: self.operation, fault }
    }

    /// True when an attempt breaks the plan off. Clearing the output enable of
    /// channel 5 is best effort on the way off.
    pub open spec fn broken_by(self, attempt: Attempt) -> bool {
        !attempt.1 && !(!self.enabled && attempt.0 == DriverOperation::Ch5OutputEnable(false))
    }

    /// True when the plan pauses after an attempt.
    pub open spec fn paused_by(self, attempt: Attempt) -> bool {
        attempt.1 && settles(attempt.0)
    }

    /// `run` is the plan's next stage: it goes on from the cursor until an
    /// attempt breaks or pauses the plan, or the script is at its end.
    pub open spec fn stage(self, run: Seq<Attempt>) -> bool {
        &&& self.cursor + run.len() <= self.script.len()
        &&& forall|i: int|
            0 <= i < run.len() ==> (#[trigger] run[i]).0 == self.script[self.cursor + i]
        &&& forall|i: int|
            0 <= i < run.len() - 1 ==> !self.broken_by(#[trigger] run[i]) && !self.paused_by(run[i])
        &&& self.cursor + run.len() == self.script.len() || (run.len() > 0 && (self.broken_by(
            run.last(),
        ) || self.paused_by(run.last())))
    }

    /// What `state` says of the plan: it may go on, it is no longer wanted, or
    /// it must fail.
    pub open spec fn standing(self, state: AppState) -> Result<bool, Fault> {
        if self.channel >= 5 {
            Err(Fault::Hardware)
        } else {
            let output = state.channels[self.channel as int];
            let expected = if self.enabled {
                OutputTransition::Enabling(self.operation)
            } else {
                OutputTransition::Disabling(self.operation)
            };
            if output.transition != expected || output.requested_enabled != self.enabled {
                Ok(false)
            } else if !self.enabled {
                Ok(true)
            } else {
                match ineligibility(state, self.channel) {
                    Some(fault) => Err(fault),
                    None => Ok(true),
                }
            }
        }
    }
}

/// True of the operations after which the hardware needs time.
pub open spec fn settles(operation: DriverOperation) -> bool {
    match operation {
        DriverOperation::RailEnable { rail, enabled } => enabled,
        DriverOperation::ConfigureRail { rail, millivolts } => true,
        DriverOperation::Ch5Enable(enabled) => enabled,
        DriverOperation::Ch5OutputEnable(enabled) => enabled,
        _ => false,
    }
}

/// The plan for switching a channel, or why there is none.
pub open spec fn plan_for(
    state: AppState,
    channel: u8,
    operation: u16,
    enabled: bool,
) -> Result<PlanModel, Fault> {
    if channel >= 5 {
        Err(Fault::Hardware)
    } else if enabled && ineligibility(state, channel) is Some {
        Err(ineligibility(state, channel)->Some_0)
    } else {
        Ok(
            PlanModel {
                script: if enabled {
                    enable_script(state, channel)
                } else {
                    disable_script(state, channel)
                },
                cursor: 0,
                channel,
                operation,
                enabled,
                rail: rail_to_drop(state, channel),
            },
        )
    }
}

/// `now + delay` on the wrapping millisecond clock.
pub open spec fn clock_after(now: u16, delay: u16) -> u16 {
    ((now + delay) % 0x1_0000) as u16
}

/// True when the wrapping clock has come to `deadline`: `now` lies at most
/// half a turn after it.
pub open spec fn clock_reached(now: u16, deadline: u16) -> bool {
    (now - deadline) % 0x1_0000 < 0x8000
}

/// What an executor stands for.
pub struct ExecutorModel {
    pub trace: Seq<Attempt>,
    pub cancels: Seq<nat>,
    pub pending: Option<PlanModel>,
    pub deadline_ms: Option<u16>,
    pub now_ms: u16,
}

/// `after` is `before` with further attempts and nothing pending.
pub open spec fn retired(before: ExecutorModel, after: ExecutorModel) -> bool {
    &&& continues(before.trace, after.trace)
    &&& after.cancels == before.cancels
    &&& after.pending is None
    &&& after.deadline_ms is None
    &&& after.now_ms == before.now_ms
}

/// The pending plan failed after a stage: the retreat was attempted.
pub open spec fn stage_failed(
    plan: PlanModel,
    before: ExecutorModel,
    after: ExecutorModel,
    action: Option<Action>,
) -> bool {
    let attempts = since(before.trace, after.trace);
    let split = attempts.len() - plan.retreat().len();
    &&& retired(before, after)
    &&& split > 0
    &&& plan.stage(attempts.take(split))
    &&& plan.broken_by(attempts[split - 1])
    &&& attempted(plan.retreat(), attempts.skip(split))
    &&& action == Some(plan.failure(Fault::Hardware))
}

/// The pending plan paused after a stage: it goes on after the deadline. An
/// exposed channel 5 is reported at once.
pub open spec fn stage_paused(
    plan: PlanModel,
    before: ExecutorModel,
    after: ExecutorModel,
    action: Option<Action>,
) -> bool {
    let attempts = since(before.trace, after.trace);
    &&& continues(before.trace, after.trace)
    &&& attempts.len() > 0
    &&& plan.stage(attempts)
    &&& plan.paused_by(attempts.last())
    &&& after.pending == Some(PlanModel { cursor: plan.cursor + attempts.len(), ..plan })
    &&& after.deadline_ms == Some(clock_after(before.now_ms, HARDWARE_SETTLE_MS))
    &&& after.cancels == before.cancels
    &&& after.now_ms == before.now_ms
    &&& action == (if attempts.last().0 == DriverOperation::Ch5OutputEnable(true) {
        Some(Action::OutputEnergized { channel: plan.channel, operation: plan.operation })
    } else {
        None
    })
}

/// The pending plan came to its end.
pub open spec fn stage_completed(
    plan: PlanModel,
    before: ExecutorModel,
    after: ExecutorModel,
    action: Option<Action>,
) -> bool {
    let attempts = since(before.trace, after.trace);
    &&& retired(before, after)
    &&& plan.stage(attempts)
    &&& attempts.len() > 0 ==> !plan.broken_by(attempts.last()) && !plan.paused_by(attempts.last())
    &&& action == Some(plan.completion())
}

/// `after` and `action` are what running the pending plan makes of `before`.
pub open spec fn ran_ready(
    before: ExecutorModel,
    state: AppState,
    after: ExecutorModel,
    action: Option<Action>,
) -> bool {
    match before.pending {
        None => after == before && action is None,
        Some(plan) => match plan.standing(state) {
            Ok(true) => {
                ||| stage_failed(plan, before, after, action)
                ||| stage_paused(plan, before, after, action)
                ||| stage_completed(plan, before, after, action)
            },
            Ok(false) => {
                &&& retired(before, after)
                &&& attempted(plan.retreat(), since(before.trace, after.trace))
                &&& action is None
            },
            Err(fault) => {
                &&& retired(before, after)
                &&& attempted(plan.retreat(), since(before.trace, after.trace))
                &&& action == Some(plan.failure(fault))
            },
        },
    }
}

/// What a disable at once attempts, and whether it succeeds.
pub open spec fn disabled_at_once(
    state: AppState,
    channel: u8,
    attempts: Seq<Attempt>,
    ok: bool,
) -> bool {
    if channel == 4 {
        &&& attempted(disable_script(state, channel), attempts)
        &&& ok == attempts[1].1
    } else if channel > 4 {
        &&& attempted(disable_script(state, channel), attempts)
        &&& !ok
    } else {
        followed(disable_script(state, channel), attempts, ok)
    }
}

/// What an enable at once attempts, and what comes of it.
pub open spec fn enabled_at_once(
    state: AppState,
    channel: u8,
    attempts: Seq<Attempt>,
    result: Result<(), Fault>,
) -> bool {
    match ineligibility(state, channel) {
        Some(fault) => attempts.len() == 0 && result == Err::<(), Fault>(fault),
        None => {
            &&& followed(enable_script(state, channel), attempts, result is Ok)
            &&& result is Err ==> result == Err::<(), Fault>(Fault::Hardware)
        },
    }
}

/// What a voltage command attempts, and the action that reports it. A failed
/// command takes the channel out of service.
pub open spec fn voltage_commanded(
    state: AppState,
    channel: u8,
    millivolts: u16,
    attempts: Seq<Attempt>,
    action: Action,
) -> bool {
    if channel != 3 && channel != 4 {
        attempts.len() == 0 && action == Action::HardwareSettingApplied
    } else {
        let operation = if channel == 3 {
            DriverOperation::SetAdjustableDac { millivolts }
        } else {
            DriverOperation::Ch5Voltage(millivolts)
        };
        ||| attempts == seq![(operation, true)] && action == Action::HardwareSettingApplied
        ||| {
            &&& attempts.len() > 0
            &&& attempts[0] == (operation, false)
            &&& attempted(disable_script(state, channel), attempts.skip(1))
            &&& action == (Action::HardwareSettingFailed { channel, fault: Fault::Hardware })
        }
    }
}

/// A disable at once, followed by every off control where it failed.
pub open spec fn disable_reported(
    state: AppState,
    channel: u8,
    operation: u16,
    attempts: Seq<Attempt>,
    action: Action,
) -> bool {
    let split = attempts.len() - disable_script(state, channel).len();
    ||| {
        &&& disabled_at_once(state, channel, attempts, true)
        &&& action == (Action::OutputApplied { channel, operation, enabled: false })
    }
    ||| {
        &&& split > 0
        &&& disabled_at_once(state, channel, attempts.take(split), false)
        &&& attempted(disable_script(state, channel), attempts.skip(split))
        &&& action == (Action::OutputFailed { channel, operation, fault: Fault::Hardware })
    }
}

/// A request to switch a channel, given to an executor with nothing pending.
pub open spec fn output_started(
    before: ExecutorModel,
    state: AppState,
    channel: u8,
    operation: u16,
    enabled: bool,
    after: ExecutorModel,
    action: Option<Action>,
) -> bool {
    match plan_for(state, channel, operation, enabled) {
        Ok(plan) => ran_ready(
            ExecutorModel { pending: Some(plan), ..before },
            state,
            after,
            action,
        ),
        Err(fault) => {
            &&& continues(before.trace, after.trace)
            &&& attempted(disable_script(state, channel), since(before.trace, after.trace))
            &&& after == ExecutorModel { trace: after.trace, ..before }
            &&& action == Some(Action::OutputFailed { channel, operation, fault })
        },
    }
}

/// A request to switch a channel, given to an executor that works on
/// `active`. Only switching the same channel off preempts an enable; a second
/// enable is refused, and another disable is carried out at once.
pub open spec fn output_interposed(
    active: PlanModel,
    before: ExecutorModel,
    state: AppState,
    channel: u8,
    operation: u16,
    enabled: bool,
    after: ExecutorModel,
    action: Option<Action>,
) -> bool {
    if active.enabled && active.channel == channel && !enabled {
        let halted = ExecutorModel {
            trace: after.trace.take((before.trace.len() + active.retreat().len()) as int),
            pending: None,
            deadline_ms: None,
            ..before
        };
        &&& before.trace.len() + active.retreat().len() <= after.trace.len()
        &&& continues(before.trace, halted.trace)
        &&& attempted(active.retreat(), since(before.trace, halted.trace))
        &&& output_started(halted, state, channel, operation, enabled, after, action)
    } else {
        &&& continues(before.trace, after.trace)
        &&& after == ExecutorModel { trace: after.trace, ..before }
        &&& if enabled {
            &&& attempted(disable_script(state, channel), since(before.trace, after.trace))
            &&& action == Some(
                Action::OutputFailed { channel, operation, fault: Fault::Hardware },
            )
        } else {
            action matches Some(reported) && disable_reported(
                state,
                channel,
                operation,
                since(before.trace, after.trace),
                reported,
            )
        }
    }
}

/// `after` and `action` are what submitting `effect` makes of `before`.
pub open spec fn submitted(
    before: ExecutorModel,
    state: AppState,
    effect: PowerEffect,
    after: ExecutorModel,
    action: Option<Action>,
) -> bool {
    match effect {
        PowerEffect::Voltage { channel, millivolts } => {
            &&& continues(before.trace, after.trace)
            &&& after == ExecutorModel { trace: after.trace, ..before }
            &&& action matches Some(reported) && voltage_commanded(
                state,
                channel,
                millivolts,
                since(before.trace, after.trace),
                reported,
            )
        },
        PowerEffect::Output { channel, operation, enabled } => match before.pending {
            Some(active) => output_interposed(
                active,
                before,
                state,
                channel,
                operation,
                enabled,
                after,
                action,
            ),
            None => output_started(before, state, channel, operation, enabled, after, action),
        },
    }
}

impl PowerPlan {
    pub open spec fn wf(self) -> bool {
        self.cursor <= self.len <= POWER_PLAN_CAPACITY
    }

    pub open spec fn model(self) -> PlanModel {
        PlanModel {
            script: self.operations@.take(self.len as int),
            cursor: self.cursor as nat,
            channel: self.channel,
            operation: self.operation,
            enabled: self.enabled,
            rail: self.rail_to_disable_on_failure,
        }
    }

    fn new(
        channel: u8,
        operation: u16,
        enabled: bool,
        rail_to_disable_on_failure: Option<Rail>,
    ) -> (plan: Self)
        ensures
            plan.wf(),
            plan.len == 0,
            plan.model() == (PlanModel {
                script: Seq::empty(),
                cursor: 0,
                channel,
                operation,
                enabled,
                rail: rail_to_disable_on_failure,
            }),
    {
        let plan = PowerPlan {
            operations: [DriverOperation::Ch5Enable(false);POWER_PLAN_CAPACITY],
            len: 0,
            cursor: 0,
            channel,
            operation,
            enabled,
            rail_to_disable_on_failure,
        };
        assert(plan.model().script =~= Seq::empty());
        plan
    }

    fn push(&mut self, operation: DriverOperation)
        requires
            old(self).wf(),
            old(self).len < POWER_PLAN_CAPACITY,
        ensures
            final(self).wf(),
            final(self).len == old(self).len + 1,
            final(self).model() == (PlanModel {
                script: old(self).model().script.push(operation),
                ..old(self).model()
            }),
    {
        let ghost before = self.model().script;
        self.operations[self.len as usize] = operation;
        self.len = self.len + 1;
        assert(self.model().script =~= before.push(operation));
    }

    fn next(&mut self) -> (operation: Option<DriverOperation>)
        requires
            old(self).wf(),
        ensures
            final(self).wf(),
            operation is None <==> old(self).model().cursor == old(self).model().script.len(),
            operation is None ==> *final(self) == *old(self),
            operation matches Some(found) ==> {
                &&& found == old(self).model().script[old(self).model().cursor as int]
                &&& final(self).model() == (PlanModel {
                    cursor: old(self).model().cursor + 1,
                    ..old(self).model()
                })
            },
    {
        if self.cursor == self.len {
            return None;
        }
        let operation = self.operations[self.cursor as usize];
        self.cursor = self.cursor + 1;
        Some(operation)
    }
}

/// Runs power-up sequencing one bounded stage at a time. Hardware settling is
/// represented by a deadline, leaving the firmware loop free to service USB,
/// PD, watchdog, and protection between stages.
pub struct PowerExecutor<D> {
    pub driver: D,
    pub pending: Option<PowerPlan>,
    pub deadline_ms: Option<u16>,
    pub now_ms: u16,
}

impl<D> PowerExecutor<D> {
    pub fn new(driver: D, now_ms: u16) -> (executor: Self)
        ensures
            executor.driver == driver,
            executor.pending is None,
            executor.deadline_ms is None,
            executor.now_ms == now_ms,
    {
        PowerExecutor { driver, pending: None, deadline_ms: None, now_ms }
    }

    pub fn is_busy(&self) -> (busy: bool)
        ensures
            busy == self.pending is Some,
    {
        self.pending.is_some()
    }
}

fn operation_settle_ms(operation: DriverOperation) -> (settle_ms: u16)
    ensures
        settle_ms == (if settles(operation) {
            HARDWARE_SETTLE_MS
        } else {
            0
        }),
{
    match operation {
        DriverOperation::RailEnable { enabled: true, .. }
        | DriverOperation::ConfigureRail { .. }
        | DriverOperation::Ch5Enable(true)
        | DriverOperation::Ch5OutputEnable(true) => HARDWARE_SETTLE_MS,
        _ => 0,
    }
}

fn deadline_reached(now_ms: u16, deadline_ms: u16) -> (reached: bool)
    ensures
        reached == clock_reached(now_ms, deadline_ms),
{
    now_ms.wrapping_sub(deadline_ms) < 0x8000
}

/// Plans to switch a channel, or says why that may not be.
pub fn plan_output(state: &AppState, channel: u8, operation: u16, enabled: bool) -> (result: Result<
    PowerPlan,
    Fault,
>)
    ensures
        match plan_for(*state, channel, operation, enabled) {
            Ok(model) => result matches Ok(plan) && plan.wf() && plan.model() == model,
            Err(fault) => result matches Err(found) && found == fault,
        },
{
    if channel >= 5 {
        return Err(Fault::Hardware);
    }
    let output: ChannelSnapshot = state.channels[channel as usize];
    let sibling_on: bool = sibling_is_on(state, channel);
    let rail = rail_for(channel);
    let mut plan = PowerPlan::new(
        channel,
        operation,
        enabled,
        if sibling_on {
            None
        } else {
            rail
        },
    );
    if enabled {
        match enable_is_eligible(state, channel) {
            Ok(()) => {},
            Err(fault) => {
                return Err(fault);
            },
        }
        match rail {
            None => {
                plan.push(DriverOperation::Ch5Enable(false));
                plan.push(DriverOperation::Ch5Enable(true));
                plan.push(
                    DriverOperation::ConfigureCh5 {
                        millivolts: output.drive_mv,
                        current_limit_ma: CH5_TPS_CONFIGURATION_LIMIT_MA,
                        forced_pwm: state.awg_status == AwgStatus::Starting
                            && state.active_awg_channel() == 4,
                    },
                );
                plan.push(DriverOperation::ClearCh5Status);
                plan.push(DriverOperation::ClearCh5Status);
                plan.push(DriverOperation::Ch5OutputEnable(true));
            },
            Some(rail) => {
                plan.push(DriverOperation::ChannelGate { channel, enabled: false });
                if !sibling_on {
                    plan.push(DriverOperation::RailEnable { rail, enabled: true });
                    plan.push(
                        DriverOperation::ConfigureRail { rail, millivolts: rail_setpoint(rail) },
                    );
                }
                plan.push(DriverOperation::VerifyRail { rail });
                if channel == 3 {
                    plan.push(DriverOperation::SetAdjustableDac { millivolts: output.drive_mv });
                }
                plan.push(DriverOperation::ChannelGate { channel, enabled: true });
            },
        }
        plan.push(DriverOperation::VerifyOutput { channel, millivolts: output.drive_mv });
        assert(plan.model().script =~= enable_script(*state, channel));
    } else {
        match rail {
            None => {
                plan.push(DriverOperation::Ch5OutputEnable(false));
                plan.push(DriverOperation::Ch5Enable(false));
            },
            Some(rail) => {
                plan.push(DriverOperation::ChannelGate { channel, enabled: false });
                if !sibling_on {
                    plan.push(DriverOperation::RailEnable { rail, enabled: false });
                }
            },
        }
        assert(plan.model().script =~= disable_script(*state, channel));
    }
    Ok(plan)
}


/// Attempts every off control of a channel, whatever comes of each.
fn switch_off<D: PowerDriver>(driver: &mut D, channel: u8, rail: Option<Rail>)
    ensures
        continues(old(driver).trace(), final(driver).trace()),
        attempted(off_script(channel, rail), since(old(driver).trace(), final(driver).trace())),
        undisturbed(*old(driver), *final(driver)),
        old(driver).idle() ==> final(driver).idle(),
{
    let ghost before = driver.trace();
    if channel == 4 {
        let _ = driver.apply(DriverOperation::Ch5OutputEnable(false));
        let _ = driver.apply(DriverOperation::Ch5Enable(false));
    } else {
        let _ = driver.apply(DriverOperation::ChannelGate { channel, enabled: false });
        if let Some(rail) = rail {
            let _ = driver.apply(DriverOperation::RailEnable { rail, enabled: false });
        }
    }
}

fn best_effort_shutdown<D: PowerDriver>(driver: &mut D, state: &AppState, channel: u8)
    ensures
        continues(old(driver).trace(), final(driver).trace()),
        attempted(
            disable_script(*state, channel),
            since(old(driver).trace(), final(driver).trace()),
        ),
        undisturbed(*old(driver), *final(driver)),
        old(driver).idle() ==> final(driver).idle(),
{
    let rail = if sibling_is_on(state, channel) {
        None
    } else {
        rail_for(channel)
    };
    switch_off(driver, channel, rail);
}

/// Switches a channel on without waiting between the operations.
pub fn run_enable<D: PowerDriver>(driver: &mut D, state: &AppState, channel: u8) -> (result: Result<
    (),
    Fault,
>)
    ensures
        continues(old(driver).trace(), final(driver).trace()),
        enabled_at_once(
            *state,
            channel,
            since(old(driver).trace(), final(driver).trace()),
            result,
        ),
        undisturbed(*old(driver), *final(driver)),
        old(driver).idle() ==> final(driver).idle(),
{
    let ghost before = driver.trace();
    let mut plan = match plan_output(state, channel, 0, true) {
        Ok(plan) => plan,
        Err(fault) => {
            assert(since(before, driver.trace()).len() == 0);
            return Err(fault);
        },
    };
    let ghost script = plan.model().script;
    loop
        invariant
            plan.wf(),
            plan.model().script == script,
            script == enable_script(*state, channel),
            ineligibility(*state, channel) is None,
            before == old(driver).trace(),
            continues(before, driver.trace()),
            since(before, driver.trace()).len() == plan.model().cursor,
            forall|i: int|
                0 <= i < plan.model().cursor ==> (#[trigger] since(before, driver.trace())[i])
                    == (script[i], true),
            undisturbed(*old(driver), *driver),
            old(driver).idle() ==> driver.idle(),
        ensures
            plan.model().cursor == script.len(),
        decreases script.len() - plan.model().cursor,
    {
        let operation = match plan.next() {
            Some(operation) => operation,
            None => {
                break;
            },
        };
        let ghost so_far = driver.trace();
        let result = driver.apply(operation);
        proof {
            lemma_trace_push(before, so_far, (operation, result is Ok));
        }
        if result.is_err() {
            return Err(Fault::Hardware);
        }
    }
    Ok(())
}

/// Switches a channel off at once, and its converter unless the sibling needs
/// it.
pub fn run_disable<D: PowerDriver>(driver: &mut D, state: &AppState, channel: u8) -> (result:
    Result<(), Fault>)
    ensures
        continues(old(driver).trace(), final(driver).trace()),
        disabled_at_once(
            *state,
            channel,
            since(old(driver).trace(), final(driver).trace()),
            result is Ok,
        ),
        result is Err ==> result == Err::<(), Fault>(Fault::Hardware),
        undisturbed(*old(driver), *final(driver)),
        old(driver).idle() ==> final(driver).idle(),
{
    if channel == 4 {
        // OE is best effort: it can NACK when the converter is already held in
        // reset. Verified EN low is the authoritative physical shutdown.
        let _ = driver.apply(DriverOperation::Ch5OutputEnable(false));
        return match driver.apply(DriverOperation::Ch5Enable(false)) {
            Ok(()) => Ok(()),
            Err(_) => Err(Fault::Hardware),
        };
    }
    if driver.apply(DriverOperation::ChannelGate { channel, enabled: false }).is_err() {
        return Err(Fault::Hardware);
    }
    if !sibling_is_on(state, channel) {
        match rail_for(channel) {
            Some(rail) => {
                if driver.apply(DriverOperation::RailEnable { rail, enabled: false }).is_err() {
                    return Err(Fault::Hardware);
                }
            },
            None => {
                return Err(Fault::Hardware);
            },
        }
    }
    Ok(())
}

/// Sends a new voltage to an adjustable channel, and takes the channel out of
/// service where that fails.
fn command_voltage<D: PowerDriver>(
    driver: &mut D,
    state: &AppState,
    channel: u8,
    millivolts: u16,
) -> (action: Action)
    ensures
        continues(old(driver).trace(), final(driver).trace()),
        voltage_commanded(
            *state,
            channel,
            millivolts,
            since(old(driver).trace(), final(driver).trace()),
            action,
        ),
        undisturbed(*old(driver), *final(driver)),
        old(driver).idle() ==> final(driver).idle(),
{
    let ghost before = driver.trace();
    let operation = match channel {
        3 => DriverOperation::SetAdjustableDac { millivolts },
        4 => DriverOperation::Ch5Voltage(millivolts),
        _ => {
            return Action::HardwareSettingApplied;
        },
    };
    if driver.apply(operation).is_ok() {
        assert(since(before, driver.trace()) =~= seq![(operation, true)]);
        Action::HardwareSettingApplied
    } else {
        let ghost failed = driver.trace();
        best_effort_shutdown(driver, state, channel);
        proof {
            lemma_trace_concat(before, failed, driver.trace());
            assert(since(before, driver.trace()).skip(1) =~= since(failed, driver.trace()));
        }
        Action::HardwareSettingFailed { channel, fault: Fault::Hardware }
    }
}

/// Switches a channel off at once and says what came of it; after a failure
/// every off control is attempted again.
fn disable_and_report<D: PowerDriver>(
    driver: &mut D,
    state: &AppState,
    channel: u8,
    operation: u16,
) -> (action: Action)
    ensures
        continues(old(driver).trace(), final(driver).trace()),
        disable_reported(
            *state,
            channel,
            operation,
            since(old(driver).trace(), final(driver).trace()),
            action,
        ),
        undisturbed(*old(driver), *final(driver)),
        old(driver).idle() ==> final(driver).idle(),
{
    let ghost before = driver.trace();
    match run_disable(driver, state, channel) {
        Ok(()) => Action::OutputApplied { channel, operation, enabled: false },
        Err(fault) => {
            let ghost failed = driver.trace();
            best_effort_shutdown(driver, state, channel);
            proof {
                lemma_trace_concat(before, failed, driver.trace());
                let attempts = since(before, driver.trace());
                let split = attempts.len() - disable_script(*state, channel).len();
                assert(attempts.take(split) =~= since(before, failed));
                assert(attempts.skip(split) =~= since(failed, driver.trace()));
            }
            Action::OutputFailed { channel, operation, fault }
        },
    }
}

/// What executing `effect` at once attempts, and the action that reports it.
pub open spec fn executed(
    state: AppState,
    effect: PowerEffect,
    attempts: Seq<Attempt>,
    action: Action,
) -> bool {
    match effect {
        PowerEffect::Voltage { channel, millivolts } => voltage_commanded(
            state,
            channel,
            millivolts,
            attempts,
            action,
        ),
        PowerEffect::Output { channel, operation, enabled } => if enabled {
            enable_reported(state, channel, operation, attempts, action)
        } else {
            disable_reported(state, channel, operation, attempts, action)
        },
    }
}

/// An enable at once, followed by every off control where it failed.
pub open spec fn enable_reported(
    state: AppState,
    channel: u8,
    operation: u16,
    attempts: Seq<Attempt>,
    action: Action,
) -> bool {
    let split = attempts.len() - disable_script(state, channel).len();
    ||| {
        &&& enabled_at_once(state, channel, attempts, Ok(()))
        &&& action == (Action::OutputApplied { channel, operation, enabled: true })
    }
    ||| {
        &&& split >= 0
        &&& attempted(disable_script(state, channel), attempts.skip(split))
        &&& action matches Action::OutputFailed { channel: found, operation: token, fault }
            && found == channel && token == operation && enabled_at_once(
            state,
            channel,
            attempts.take(split),
            Err(fault),
        )
    }
}

/// Executes an effect at once and says what came of it. Whatever fails, every
/// off control of the channel has been attempted in the end.
pub fn execute_effect<D: PowerDriver>(
    driver: &mut D,
    state: &AppState,
    effect: PowerEffect,
) -> (action: Action)
    ensures
        continues(old(driver).trace(), final(driver).trace()),
        executed(
            *state,
            effect,
            since(old(driver).trace(), final(driver).trace()),
            action,
        ),
        undisturbed(*old(driver), *final(driver)),
        old(driver).idle() ==> final(driver).idle(),
{
    match effect {
        PowerEffect::Output { channel, operation, enabled } => {
            if !enabled {
                return disable_and_report(driver, state, channel, operation);
            }
            let ghost before = driver.trace();
            match run_enable(driver, state, channel) {
                Ok(()) => Action::OutputApplied { channel, operation, enabled },
                Err(fault) => {
                    let ghost failed = driver.trace();
                    best_effort_shutdown(driver, state, channel);
                    proof {
                        lemma_trace_concat(before, failed, driver.trace());
                        let attempts = since(before, driver.trace());
                        let split = attempts.len() - disable_script(*state, channel).len();
                        assert(attempts.take(split) =~= since(before, failed));
                        assert(attempts.skip(split) =~= since(failed, driver.trace()));
                    }
                    Action::OutputFailed { channel, operation, fault }
                },
            }
        },
        PowerEffect::Voltage { channel, millivolts } => command_voltage(
            driver,
            state,
            channel,
            millivolts,
        ),
    }
}

/// Immediate, best-effort physical shutdown used by global safety interlocks.
/// Pending work is cancelled first, once. Then every independent off control is
/// attempted even if an earlier driver call fails. The output enable of channel
/// 5 can NACK when the converter is already held in reset, so its outcome does
/// not count.
pub fn execute_global_shutdown<D: PowerDriver>(driver: &mut D) -> (result: Result<(), Fault>)
    ensures
        continues(old(driver).trace(), final(driver).trace()),
        attempted(
            global_shutdown_script(),
            since(old(driver).trace(), final(driver).trace()),
        ),
        final(driver).cancels() == old(driver).cancels().push(old(driver).trace().len()),
        final(driver).clock() == old(driver).clock(),
        final(driver).idle(),
        result is Ok <==> forall|i: int|
            0 <= i < 8 && i != 4 ==> (#[trigger] since(
                old(driver).trace(),
                final(driver).trace(),
            )[i]).1,
        result is Err ==> result == Err::<(), Fault>(Fault::Hardware),
{
    driver.cancel_pending();
    let ghost before = driver.trace();
    let mut failed: bool = false;
    let mut channel: u8 = 0;
    while channel < 4
        invariant
            channel <= 4,
            continues(before, driver.trace()),
            driver.cancels() == old(driver).cancels().push(old(driver).trace().len()),
            driver.clock() == old(driver).clock(),
            driver.idle(),
            since(before, driver.trace()).len() == channel,
            forall|i: int|
                0 <= i < channel ==> (#[trigger] since(before, driver.trace())[i]).0
                    == global_shutdown_script()[i],
            failed == exists|i: int|
                0 <= i < channel && !(#[trigger] since(before, driver.trace())[i]).1,
        decreases 4 - channel,
    {
        let ghost so_far = driver.trace();
        let ghost failed_so_far = failed;
        let result = driver.apply(DriverOperation::ChannelGate { channel, enabled: false });
        proof {
            lemma_trace_push(
                before,
                so_far,
                (DriverOperation::ChannelGate { channel, enabled: false }, result is Ok),
            );
            if result is Err {
                assert(!since(before, driver.trace())[channel as int].1);
            }
            if failed_so_far {
                let i = choose|i: int| 0 <= i < channel && !(#[trigger] since(before, so_far)[i]).1;
                assert(!since(before, driver.trace())[i].1);
            }
        }
        if result.is_err() {
            failed = true;
        }
        channel = channel + 1;
    }
    let ghost gates = driver.trace();
    let _ = driver.apply(DriverOperation::Ch5OutputEnable(false));
    let enable = driver.apply(DriverOperation::Ch5Enable(false));
    let dc1 = driver.apply(DriverOperation::RailEnable { rail: Rail::Dc1, enabled: false });
    let dc2 = driver.apply(DriverOperation::RailEnable { rail: Rail::Dc2, enabled: false });
    proof {
        let attempts = since(before, driver.trace());
        assert(attempts.len() == 8);
        assert forall|i: int| 0 <= i < 4 implies #[trigger] attempts[i] == since(
            before,
            gates,
        )[i] by {}
        if failed {
            let i = choose|i: int| 0 <= i < 4 && !(#[trigger] since(before, gates)[i]).1;
            assert(!attempts[i].1);
        } else {
            assert forall|i: int| 0 <= i < 4 implies (#[trigger] attempts[i]).1 by {
                assert(since(before, gates)[i].1);
            }
        }
        assert(attempts[5].1 == enable is Ok);
        assert(attempts[6].1 == dc1 is Ok);
        assert(attempts[7].1 == dc2 is Ok);
    }
    if failed || enable.is_err() || dc1.is_err() || dc2.is_err() {
        Err(Fault::Hardware)
    } else {
        Ok(())
    }
}

impl<D: PowerDriver> PowerExecutor<D> {
    pub open spec fn wf(self) -> bool {
        self.pending matches Some(plan) ==> plan.wf()
    }

    pub open spec fn model(self) -> ExecutorModel {
        ExecutorModel {
            trace: self.driver.trace(),
            cancels: self.driver.cancels(),
            pending: match self.pending {
                Some(plan) => Some(plan.model()),
                None => None,
            },
            deadline_ms: self.deadline_ms,
            now_ms: self.now_ms,
        }
    }

    fn plan_matches_state(plan: PowerPlan, state: &AppState) -> (result: Result<bool, Fault>)
        ensures
            result == plan.model().standing(*state),
    {
        if plan.channel >= 5 {
            return Err(Fault::Hardware);
        }
        let output: ChannelSnapshot = state.channels[plan.channel as usize];
        let expected = if plan.enabled {
            OutputTransition::Enabling(plan.operation)
        } else {
            OutputTransition::Disabling(plan.operation)
        };
        if output.transition != expected || output.requested_enabled != plan.enabled {
            return Ok(false);
        }
        if plan.enabled {
            match enable_is_eligible(state, plan.channel) {
                Ok(()) => {},
                Err(fault) => {
                    return Err(fault);
                },
            }
        }
        Ok(true)
    }

    fn shutdown_failed_plan(&mut self, plan: PowerPlan)
        ensures
            continues(old(self).driver.trace(), final(self).driver.trace()),
            attempted(
                plan.model().retreat(),
                since(old(self).driver.trace(), final(self).driver.trace()),
            ),
            final(self).driver.cancels() == old(self).driver.cancels(),
            final(self).pending == old(self).pending,
            final(self).deadline_ms == old(self).deadline_ms,
            final(self).now_ms == old(self).now_ms,
    {
        switch_off(&mut self.driver, plan.channel, plan.rail_to_disable_on_failure);
    }

    fn completion(plan: PowerPlan) -> (action: Action)
        ensures
            action == plan.model().completion(),
    {
        Action::OutputApplied {
            channel: plan.channel,
            operation: plan.operation,
            enabled: plan.enabled,
        }
    }

    fn failure(plan: PowerPlan, fault: Fault) -> (action: Action)
        ensures
            action == plan.model().failure(fault),
    {
        Action::OutputFailed { channel: plan.channel, operation: plan.operation, fault }
    }

    /// Runs the pending plan to its next pause or its end.
    fn run_ready(&mut self, state: &AppState) -> (action: Option<Action>)
        requires
            old(self).wf(),
        ensures
            final(self).wf(),
            ran_ready(old(self).model(), *state, final(self).model(), action),
    {
        let mut plan = match self.pending {
            Some(plan) => plan,
            None => {
                return None;
            },
        };
        self.pending = None;
        match Self::plan_matches_state(plan, state) {
            Ok(true) => {},
            Ok(false) => {
                self.deadline_ms = None;
                self.shutdown_failed_plan(plan);
                return None;
            },
            Err(fault) => {
                self.deadline_ms = None;
                self.shutdown_failed_plan(plan);
                return Some(Self::failure(plan, fault));
            },
        }
        let ghost start = plan.model();
        let ghost before = self.driver.trace();
        loop
            invariant
                plan.wf(),
                start.cursor <= plan.model().cursor,
                plan.model() == (PlanModel { cursor: plan.model().cursor, ..start }),
                continues(before, self.driver.trace()),
                since(before, self.driver.trace()).len() == plan.model().cursor - start.cursor,
                forall|i: int|
                    0 <= i < plan.model().cursor - start.cursor ==> {
                        &&& (#[trigger] since(before, self.driver.trace())[i]).0
                            == start.script[start.cursor + i]
                        &&& !start.broken_by(since(before, self.driver.trace())[i])
                        &&& !start.paused_by(since(before, self.driver.trace())[i])
                    },
                self.pending is None,
                self.now_ms == old(self).now_ms,
                self.driver.cancels() == old(self).driver.cancels(),
                before == old(self).driver.trace(),
                old(self).model().pending == Some(start),
                start.standing(*state) == Ok::<bool, Fault>(true),
            ensures
                plan.model().cursor == start.script.len(),
            decreases start.script.len() - plan.model().cursor,
        {
            let operation = match plan.next() {
                Some(operation) => operation,
                None => {
                    break;
                },
            };
            let ghost so_far = self.driver.trace();
            let ok: bool = self.driver.apply(operation).is_ok();
            proof {
                lemma_trace_push(before, so_far, (operation, ok));
            }
            let ghost attempts = since(before, self.driver.trace());
            assert(attempts.last() == (operation, ok));
            if !ok {
                if !plan.enabled && matches!(operation, DriverOperation::Ch5OutputEnable(false)) {
                    continue;
                }
                let ghost broken = self.driver.trace();
                self.deadline_ms = None;
                self.shutdown_failed_plan(plan);
                proof {
                    lemma_trace_concat(before, broken, self.driver.trace());
                    let all = since(before, self.driver.trace());
                    let split = all.len() - start.retreat().len();
                    assert(all.take(split) =~= attempts);
                    assert(all.skip(split) =~= since(broken, self.driver.trace()));
                    assert(all[split - 1] == attempts.last());
                    assert(start.stage(attempts));
                }
                return Some(Self::failure(plan, Fault::Hardware));
            }
            let settle_ms: u16 = operation_settle_ms(operation);
            if settle_ms != 0 {
                self.deadline_ms = Some(self.now_ms.wrapping_add(settle_ms));
                self.pending = Some(plan);
                assert(start.stage(attempts));
                return if matches!(operation, DriverOperation::Ch5OutputEnable(true)) {
                    Some(
                        Action::OutputEnergized { channel: plan.channel, operation: plan.operation },
                    )
                } else {
                    None
                };
            }
        }
        self.deadline_ms = None;
        assert(start.stage(since(before, self.driver.trace())));
        Some(Self::completion(plan))
    }

    /// Starts a switching operation, with nothing pending.
    fn start_output(&mut self, state: &AppState, channel: u8, operation: u16, enabled: bool) -> (
    action: Option<Action>)
        requires
            old(self).pending is None,
        ensures
            final(self).wf(),
            output_started(
                old(self).model(),
                *state,
                channel,
                operation,
                enabled,
                final(self).model(),
                action,
            ),
    {
        match plan_output(state, channel, operation, enabled) {
            Ok(plan) => {
                self.pending = Some(plan);
                self.run_ready(state)
            },
            Err(fault) => {
                best_effort_shutdown(&mut self.driver, state, channel);
                Some(Action::OutputFailed { channel, operation, fault })
            },
        }
    }

    /// Takes on an effect. Voltages are commanded at once; switching runs up
    /// to its first settle time and goes on in `service`.
    pub fn submit(&mut self, state: &AppState, effect: PowerEffect) -> (action: Option<Action>)
        requires
            old(self).wf(),
        ensures
            final(self).wf(),
            submitted(old(self).model(), *state, effect, final(self).model(), action),
    {
        match effect {
            PowerEffect::Voltage { channel, millivolts } => Some(
                command_voltage(&mut self.driver, state, channel, millivolts),
            ),
            PowerEffect::Output { channel, operation, enabled } => {
                let active = match self.pending {
                    Some(active) => active,
                    None => {
                        return self.start_output(state, channel, operation, enabled);
                    },
                };
                if active.enabled && active.channel == channel && !enabled {
                    let ghost before = self.driver.trace();
                    self.pending = None;
                    self.deadline_ms = None;
                    self.shutdown_failed_plan(active);
                    let ghost halted = self.model();
                    let action = self.start_output(state, channel, operation, enabled);
                    proof {
                        lemma_started_continues(
                            halted,
                            *state,
                            channel,
                            operation,
                            enabled,
                            self.model(),
                            action,
                        );
                        lemma_trace_concat(before, halted.trace, self.driver.trace());
                        assert(halted.trace.len() == before.len()
                            + active.model().retreat().len());
                        assert(self.driver.trace().take(halted.trace.len() as int)
                            =~= halted.trace);
                    }
                    return action;
                }
                if enabled {
                    best_effort_shutdown(&mut self.driver, state, channel);
                    Some(Action::OutputFailed { channel, operation, fault: Fault::Hardware })
                } else {
                    Some(disable_and_report(&mut self.driver, state, channel, operation))
                }
            },
        }
    }

    /// Advances the clock and goes on with a plan whose deadline has come.
    pub fn service(&mut self, now_ms: u16, state: &AppState) -> (action: Option<Action>)
        requires
            old(self).wf(),
        ensures
            final(self).wf(),
            old(self).deadline_ms matches Some(deadline) && !clock_reached(now_ms, deadline) ==> {
                &&& action is None
                &&& final(self).model() == (ExecutorModel { now_ms, ..old(self).model() })
            },
            (old(self).deadline_ms matches Some(deadline) ==> clock_reached(now_ms, deadline))
                ==> ran_ready(
                ExecutorModel { now_ms, ..old(self).model() },
                *state,
                final(self).model(),
                action,
            ),
    {
        self.now_ms = now_ms;
        match self.deadline_ms {
            Some(deadline) => if deadline_reached(now_ms, deadline) {
                self.run_ready(state)
            } else {
                None
            },
            None => self.run_ready(state),
        }
    }
}

impl<D: PowerDriver> PowerDriver for PowerExecutor<D> {
    type Error = D::Error;

    open spec fn trace(&self) -> Seq<Attempt> {
        self.driver.trace()
    }

    open spec fn cancels(&self) -> Seq<nat> {
        self.driver.cancels()
    }

    open spec fn clock(&self) -> u16 {
        self.now_ms
    }

    open spec fn idle(&self) -> bool {
        self.pending is None && self.deadline_ms is None && self.driver.idle()
    }

    fn apply(&mut self, operation: DriverOperation) -> (result: Result<(), Self::Error>)
        ensures
            final(self).pending == old(self).pending,
            final(self).deadline_ms == old(self).deadline_ms,
    {
        self.driver.apply(operation)
    }

    fn cancel_pending(&mut self) {
        self.pending = None;
        self.deadline_ms = None;
        self.driver.cancel_pending();
    }
}

/// The operations of a run, without what came of them.
pub open spec fn handed(attempts: Seq<Attempt>) -> Seq<DriverOperation> {
    Seq::new(attempts.len(), |i: int| attempts[i].0)
}

/// The staged sequence is the immediate one. With a driver whose every call
/// succeeds, switching a channel at once hands over exactly the operations of
/// the channel's plan, in order, and reports completion; where there is no plan,
/// it hands over the channel's off controls (twice where they were what was asked
/// for) and reports the same fault, and where it reports a fault, there is no
/// plan.
pub proof fn the_staged_sequence_is_the_immediate_one(
    state: AppState,
    channel: u8,
    operation: u16,
    enabled: bool,
    attempts: Seq<Attempt>,
    action: Action,
    fault: Fault,
)
    requires
        executed(state, PowerEffect::Output { channel, operation, enabled }, attempts, action),
        forall|i: int| 0 <= i < attempts.len() ==> (#[trigger] attempts[i]).1,
    ensures
        match plan_for(state, channel, operation, enabled) {
            Ok(plan) => {
                &&& handed(attempts) == plan.script
                &&& plan.cursor == 0
                &&& action == plan.completion()
            },
            Err(found) => {
                &&& handed(attempts) == if enabled {
                    disable_script(state, channel)
                } else {
                    disable_script(state, channel) + disable_script(state, channel)
                }
                &&& action == (Action::OutputFailed { channel, operation, fault: found })
            },
        },
        (plan_for(state, channel, operation, enabled) == Err::<PlanModel, Fault>(fault)) <==> (
        action == (Action::OutputFailed { channel, operation, fault })),
{
    let split = attempts.len() - disable_script(state, channel).len();
    if plan_for(state, channel, operation, enabled) is Ok {
        if split > 0 {
            assert(attempts.take(split)[split - 1].1);
            if split > 1 {
                assert(attempts.take(split)[1].1);
            }
        }
        assert(handed(attempts) =~= plan_for(state, channel, operation, enabled)->Ok_0.script);
    } else {
        assert(handed(attempts) =~= handed(attempts.take(split)) + handed(attempts.skip(split)));
        assert(handed(attempts.skip(split)) =~= disable_script(state, channel));
        assert(handed(attempts.take(split)) =~= if enabled {
            Seq::empty()
        } else {
            disable_script(state, channel)
        });
        assert(enabled ==> handed(attempts) =~= handed(attempts.skip(split)));
    }
}

/// A plan that meets no failure hands its script over to the end, pause by
/// pause: a stage that neither completes nor fails stops behind an operation
/// that needs time, and goes on from there.
pub proof fn stages_follow_the_script(plan: PlanModel, run: Seq<Attempt>)
    requires
        plan.cursor <= plan.script.len(),
        plan.stage(run),
        forall|i: int| 0 <= i < run.len() ==> (#[trigger] run[i]).1,
    ensures
        handed(run) == plan.script.skip(plan.cursor as int).take(run.len() as int),
        plan.cursor + run.len() < plan.script.len() ==> run.len() > 0 && settles(run.last().0),
{
    assert(handed(run) =~= plan.script.skip(plan.cursor as int).take(run.len() as int));
}

/// Starting a switching operation only adds to the trace.
proof fn lemma_started_continues(
    before: ExecutorModel,
    state: AppState,
    channel: u8,
    operation: u16,
    enabled: bool,
    after: ExecutorModel,
    action: Option<Action>,
)
    requires
        output_started(before, state, channel, operation, enabled, after, action),
    ensures
        continues(before.trace, after.trace),
{
}

} // verus!
