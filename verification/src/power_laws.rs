//! What every power script keeps true of the hardware.

use crate::app::{Action, AppState, OutputTransition};
use crate::executor::{disable_reported, enable_reported, executed, voltage_commanded};
use crate::power::{
    attempted, disable_script, enable_script, followed, global_shutdown_script, ineligibility,
    off_script, rail_to_drop, sibling_of, sibling_on, switching_effect, transition_effect, Attempt,
    DriverOperation, PowerEffect,
};
use crate::protection::{rail_index, Rail};
use crate::reducer::{hardware_transition, reduced, settings_transition};
use vstd::prelude::*;

verus! {

broadcast use {crate::app::group_map_channels, crate::reducer::group_awg_halted};

/// The hardware as the interlocks see it.
pub struct HardwareModel {
    pub gates: Seq<bool>,
    pub rail_enabled: Seq<bool>,
    pub rail_configured: Seq<bool>,
    pub ch5_enable: bool,
    pub ch5_configured: bool,
    pub ch5_output: bool,
}

impl HardwareModel {
    pub open spec fn wf(self) -> bool {
        &&& self.gates.len() == 4
        &&& self.rail_enabled.len() == 2
        &&& self.rail_configured.len() == 2
    }

    /// True when a rail exposes no voltage that was not configured.
    pub open spec fn rail_safe(self, rail: int) -> bool {
        ||| !self.gates[2 * rail] && !self.gates[2 * rail + 1]
        ||| !self.rail_enabled[rail]
        ||| self.rail_configured[rail]
    }

    /// No output is exposed while its converter runs without a configuration.
    pub open spec fn safe(self) -> bool {
        &&& self.rail_safe(0)
        &&& self.rail_safe(1)
        &&& !self.ch5_output || !self.ch5_enable || self.ch5_configured
    }

    /// True when nothing is exposed at all.
    pub open spec fn dark(self) -> bool {
        &&& forall|i: int| 0 <= i < 4 ==> !(#[trigger] self.gates[i])
        &&& forall|i: int| 0 <= i < 2 ==> !(#[trigger] self.rail_enabled[i])
        &&& !self.ch5_enable
        &&& !self.ch5_output
    }

    /// The hardware after an operation took effect.
    pub open spec fn after(self, operation: DriverOperation) -> Self {
        match operation {
            DriverOperation::ChannelGate { channel, enabled } => if channel < 4 {
                HardwareModel { gates: self.gates.update(channel as int, enabled), ..self }
            } else {
                self
            },
            DriverOperation::RailEnable { rail, enabled } => HardwareModel {
                rail_enabled: self.rail_enabled.update(rail_index(rail), enabled),
                rail_configured: self.rail_configured.update(
                    rail_index(rail),
                    self.rail_configured[rail_index(rail)] && enabled,
                ),
                ..self
            },
            DriverOperation::ConfigureRail { rail, millivolts } => HardwareModel {
                rail_configured: self.rail_configured.update(rail_index(rail), true),
                ..self
            },
            DriverOperation::Ch5Enable(enabled) => HardwareModel {
                ch5_enable: enabled,
                ch5_configured: self.ch5_configured && enabled,
                ch5_output: self.ch5_output && enabled,
                ..self
            },
            DriverOperation::ConfigureCh5 { millivolts, current_limit_ma, forced_pwm } =>
                HardwareModel { ch5_configured: true, ..self },
            DriverOperation::Ch5OutputEnable(enabled) => HardwareModel {
                ch5_output: enabled,
                ..self
            },
            _ => self,
        }
    }

    /// The hardware after the first `count` operations of `script`.
    pub open spec fn following(self, script: Seq<DriverOperation>, count: nat) -> Self
        decreases count,
    {
        if count == 0 {
            self
        } else {
            self.following(script, (count - 1) as nat).after(script[count - 1])
        }
    }

    /// The hardware after a run of attempts: those that succeeded took effect.
    pub open spec fn performed(self, attempts: Seq<Attempt>) -> Self
        decreases attempts.len(),
    {
        if attempts.len() == 0 {
            self
        } else {
            let before = self.performed(attempts.drop_last());
            if attempts.last().1 {
                before.after(attempts.last().0)
            } else {
                before
            }
        }
    }

    /// True when the hardware is what `on` says of the five outputs: a gate is
    /// open and a converter runs exactly where an output needs it, and what runs
    /// has been configured.
    pub open spec fn shows(self, on: Seq<bool>) -> bool {
        &&& self.wf()
        &&& on.len() == 5
        &&& forall|i: int| 0 <= i < 4 ==> #[trigger] self.gates[i] == on[i]
        &&& self.rail_enabled[0] == (on[0] || on[1])
        &&& self.rail_enabled[1] == (on[2] || on[3])
        &&& self.rail_enabled[0] ==> self.rail_configured[0]
        &&& self.rail_enabled[1] ==> self.rail_configured[1]
        &&& self.ch5_enable == on[4]
        &&& self.ch5_output == on[4]
        &&& self.ch5_enable ==> self.ch5_configured
    }
}

/// Which outputs the application holds to be on.
pub open spec fn outputs_on(state: AppState) -> Seq<bool> {
    Seq::new(5, |i: int| state.channels[i].physical_enabled)
}

/// True when at most one of the attempts failed.
pub open spec fn at_most_one_failure(attempts: Seq<Attempt>) -> bool {
    forall|i: int, j: int|
        0 <= i < attempts.len() && 0 <= j < attempts.len() && !(#[trigger] attempts[i]).1 && !(
        #[trigger] attempts[j]).1 ==> i == j
}

/// True of the operations that only ever take an output out of service.
pub open spec fn de_energizing(operation: DriverOperation) -> bool {
    match operation {
        DriverOperation::ChannelGate { channel, enabled } => !enabled,
        DriverOperation::RailEnable { rail, enabled } => !enabled,
        DriverOperation::Ch5Enable(enabled) => !enabled,
        DriverOperation::Ch5OutputEnable(enabled) => !enabled,
        _ => false,
    }
}

/// The hardware agrees with the application about a channel's sibling: where
/// the sibling is on, the shared converter runs as configured, and where it is
/// off, its gate is.
pub open spec fn agrees(hardware: HardwareModel, state: AppState, channel: u8) -> bool {
    sibling_of(channel) matches Some(sibling) ==> if sibling_on(state, channel) {
        &&& hardware.rail_enabled[sibling / 2]
        &&& hardware.rail_configured[sibling / 2]
    } else {
        !hardware.gates[sibling]
    }
}

/// Disabling a channel, and every retreat, only takes outputs out of service.
pub proof fn off_scripts_only_de_energize(channel: u8, rail: Option<Rail>)
    ensures
        forall|i: int|
            0 <= i < off_script(channel, rail).len() ==> de_energizing(
                #[trigger] off_script(channel, rail)[i],
            ),
        forall|i: int|
            0 <= i < global_shutdown_script().len() ==> de_energizing(
                #[trigger] global_shutdown_script()[i],
            ),
{
}

/// A de-energizing operation never breaks an interlock.
pub proof fn de_energizing_is_safe(hardware: HardwareModel, operation: DriverOperation)
    requires
        hardware.wf(),
        hardware.safe(),
        de_energizing(operation),
    ensures
        hardware.after(operation).wf(),
        hardware.after(operation).safe(),
{
    let next = hardware.after(operation);
    assert(next.wf());
    assert(next.rail_safe(0));
    assert(next.rail_safe(1));
}

/// A complete global shutdown leaves nothing exposed, whatever came before.
pub proof fn global_shutdown_goes_dark(hardware: HardwareModel)
    requires
        hardware.wf(),
    ensures
        hardware.following(global_shutdown_script(), 8).dark(),
{
    reveal_with_fuel(HardwareModel::following, 9);
}

/// At no point while a channel is switched on does an output carry a voltage
/// that was not configured.
pub proof fn enabling_keeps_the_interlocks(
    hardware: HardwareModel,
    state: AppState,
    channel: u8,
    count: nat,
)
    requires
        hardware.wf(),
        hardware.safe(),
        channel < 5,
        agrees(hardware, state, channel),
        count <= enable_script(state, channel).len(),
    ensures
        hardware.following(enable_script(state, channel), count).wf(),
        hardware.following(enable_script(state, channel), count).safe(),
{
    lemma_enable_step(hardware, state, channel, count);
}

/// How far the converter of `channel` has come after `count` operations of its
/// enable script.
proof fn lemma_enable_step(hardware: HardwareModel, state: AppState, channel: u8, count: nat)
    requires
        hardware.wf(),
        hardware.safe(),
        channel < 5,
        agrees(hardware, state, channel),
        count <= enable_script(state, channel).len(),
    ensures
        hardware.following(enable_script(state, channel), count).wf(),
        hardware.following(enable_script(state, channel), count).safe(),
        channel == 4 && count >= 1 && count < 6 ==> !hardware.following(
            enable_script(state, channel),
            count,
        ).ch5_output,
        channel == 4 && count >= 3 ==> hardware.following(
            enable_script(state, channel),
            count,
        ).ch5_configured,
        sibling_of(channel) matches Some(sibling) ==> {
            let now = hardware.following(enable_script(state, channel), count);
            if sibling_on(state, channel) {
                now.rail_enabled[sibling / 2] && now.rail_configured[sibling / 2]
            } else {
                &&& !now.gates[sibling]
                &&& 1 <= count < 3 ==> !now.gates[channel as int]
                &&& count >= 3 ==> now.rail_configured[sibling / 2]
            }
        },
    decreases count,
{
    let script = enable_script(state, channel);
    if count > 0 {
        lemma_enable_step(hardware, state, channel, (count - 1) as nat);
        let before = hardware.following(script, (count - 1) as nat);
        let now = hardware.following(script, count);
        assert(now == before.after(script[count - 1]));
        assert(now.wf());
    }
}

/// The effect is the one that the state waits for: its report is not stale.
pub open spec fn awaits(state: AppState, effect: PowerEffect) -> bool {
    effect matches PowerEffect::Output { channel, operation, enabled } ==> {
        &&& channel < 5
        &&& state.channels[channel as int].requested_enabled == enabled
        &&& state.channels[channel as int].transition == if enabled {
            OutputTransition::Enabling(operation)
        } else {
            OutputTransition::Disabling(operation)
        }
    }
}

/// True of an enable that is refused while its output is on.
pub open spec fn refused_while_on(state: AppState, effect: PowerEffect) -> bool {
    effect matches PowerEffect::Output { channel, operation, enabled } && enabled && ineligibility(
        state,
        channel,
    ) is Some && state.channels[channel as int].physical_enabled
}

proof fn lemma_performed_concat(hardware: HardwareModel, first: Seq<Attempt>, second: Seq<Attempt>)
    ensures
        hardware.performed(first + second) == hardware.performed(first).performed(second),
    decreases second.len(),
{
    if second.len() == 0 {
        assert(first + second =~= first);
    } else {
        assert((first + second).drop_last() =~= first + second.drop_last());
        lemma_performed_concat(hardware, first, second.drop_last());
    }
}

/// Attempts that all succeeded did what their script says.
proof fn lemma_performed_follows(
    hardware: HardwareModel,
    script: Seq<DriverOperation>,
    attempts: Seq<Attempt>,
    count: nat,
)
    requires
        count <= attempts.len() <= script.len(),
        forall|i: int| 0 <= i < count ==> (#[trigger] attempts[i]) == (script[i], true),
    ensures
        hardware.performed(attempts.take(count as int)) == hardware.following(script, count),
    decreases count,
{
    if count > 0 {
        lemma_performed_follows(hardware, script, attempts, (count - 1) as nat);
        assert(attempts.take(count as int).drop_last() =~= attempts.take(count - 1));
        assert(attempts.take(count as int).last() == attempts[count - 1]);
    }
}

/// Attempts to take outputs out of service never break an interlock, whatever
/// comes of them.
proof fn lemma_retreat_is_safe(hardware: HardwareModel, attempts: Seq<Attempt>, count: nat)
    requires
        hardware.wf(),
        hardware.safe(),
        count <= attempts.len(),
        forall|i: int| 0 <= i < attempts.len() ==> de_energizing((#[trigger] attempts[i]).0),
    ensures
        hardware.performed(attempts.take(count as int)).wf(),
        hardware.performed(attempts.take(count as int)).safe(),
    decreases count,
{
    if count > 0 {
        lemma_retreat_is_safe(hardware, attempts, (count - 1) as nat);
        assert(attempts.take(count as int).drop_last() =~= attempts.take(count - 1));
        assert(attempts.take(count as int).last() == attempts[count - 1]);
        de_energizing_is_safe(hardware.performed(attempts.take(count - 1)), attempts[count - 1].0);
    }
}

/// True when everything that `channel` does not use alone is as it was.
spec fn others_kept(
    before: HardwareModel,
    after: HardwareModel,
    state: AppState,
    channel: u8,
) -> bool {
    &&& after.wf()
    &&& forall|i: int| 0 <= i < 4 && i != channel ==> #[trigger] after.gates[i] == before.gates[i]
    &&& (channel > 1 || sibling_on(state, channel)) ==> {
        &&& after.rail_enabled[0] == before.rail_enabled[0]
        &&& after.rail_configured[0] == before.rail_configured[0]
    }
    &&& (channel < 2 || channel > 3 || sibling_on(state, channel)) ==> {
        &&& after.rail_enabled[1] == before.rail_enabled[1]
        &&& after.rail_configured[1] == before.rail_configured[1]
    }
    &&& channel != 4 ==> {
        &&& after.ch5_enable == before.ch5_enable
        &&& after.ch5_configured == before.ch5_configured
        &&& after.ch5_output == before.ch5_output
    }
}

proof fn lemma_enable_keeps_others(
    hardware: HardwareModel,
    state: AppState,
    channel: u8,
    count: nat,
)
    requires
        hardware.wf(),
        channel < 5,
        count <= enable_script(state, channel).len(),
    ensures
        others_kept(
            hardware,
            hardware.following(enable_script(state, channel), count),
            state,
            channel,
        ),
    decreases count,
{
    if count > 0 {
        lemma_enable_keeps_others(hardware, state, channel, (count - 1) as nat);
        let script = enable_script(state, channel);
        let before = hardware.following(script, (count - 1) as nat);
        let now = hardware.following(script, count);
        assert(now == before.after(script[count - 1]));
        assert(now.wf());
    }
}

/// An enable that is followed to its end leaves the output on.
proof fn lemma_enabled(hardware: HardwareModel, state: AppState, channel: u8)
    requires
        hardware.shows(outputs_on(state)),
        channel < 5,
    ensures
        hardware.following(
            enable_script(state, channel),
            enable_script(state, channel).len(),
        ).shows(outputs_on(state).update(channel as int, true)),
{
    reveal_with_fuel(HardwareModel::following, 8);
    lemma_enable_keeps_others(
        hardware,
        state,
        channel,
        enable_script(state, channel).len(),
    );
}

/// Off controls that all succeed leave the output off.
proof fn lemma_switched_off(
    hardware: HardwareModel,
    now: HardwareModel,
    state: AppState,
    channel: u8,
    attempts: Seq<Attempt>,
)
    requires
        hardware.shows(outputs_on(state)),
        channel < 5,
        others_kept(hardware, now, state, channel),
        attempted(disable_script(state, channel), attempts),
        channel == 4 ==> attempts[1].1,
        channel < 4 ==> forall|i: int| 0 <= i < attempts.len() ==> (#[trigger] attempts[i]).1,
    ensures
        now.performed(attempts).shows(outputs_on(state).update(channel as int, false)),
{
    reveal_with_fuel(HardwareModel::performed, 3);
    let script = disable_script(state, channel);
    assert(attempts[0].0 == script[0]);
    if script.len() == 2 {
        assert(attempts[1].0 == script[1]);
        assert(attempts.drop_last().last() == attempts[0]);
        assert(attempts.drop_last().drop_last().len() == 0);
    } else {
        assert(attempts.drop_last().len() == 0);
    }
}

/// What is safe up to a point stays so while outputs are taken out of service.
proof fn lemma_retreat_after(hardware: HardwareModel, attempts: Seq<Attempt>, split: int)
    requires
        0 <= split <= attempts.len(),
        forall|count: int|
            0 <= count <= split ==> {
                &&& (#[trigger] hardware.performed(attempts.take(count))).wf()
                &&& hardware.performed(attempts.take(count)).safe()
            },
        forall|i: int| split <= i < attempts.len() ==> de_energizing((#[trigger] attempts[i]).0),
    ensures
        forall|count: int|
            0 <= count <= attempts.len() ==> (#[trigger] hardware.performed(
                attempts.take(count),
            )).safe(),
        hardware.performed(attempts) == hardware.performed(attempts.take(split)).performed(
            attempts.skip(split),
        ),
{
    let middle = hardware.performed(attempts.take(split));
    let rest = attempts.skip(split);
    assert forall|count: int| 0 <= count <= attempts.len() implies (#[trigger] hardware.performed(
        attempts.take(count),
    )).safe() by {
        if count > split {
            assert(attempts.take(count) =~= attempts.take(split) + rest.take(count - split));
            lemma_performed_concat(hardware, attempts.take(split), rest.take(count - split));
            lemma_retreat_is_safe(middle, rest, (count - split) as nat);
        }
    }
    assert(attempts =~= attempts.take(split) + rest);
    lemma_performed_concat(hardware, attempts.take(split), rest);
}

/// A script that was followed up to its first failure took effect up to there.
proof fn lemma_followed(
    hardware: HardwareModel,
    script: Seq<DriverOperation>,
    attempts: Seq<Attempt>,
    ok: bool,
    count: nat,
)
    requires
        followed(script, attempts, ok),
        count <= attempts.len(),
    ensures
        hardware.performed(attempts.take(count as int)) == hardware.following(
            script,
            if !ok && count == attempts.len() {
                (count - 1) as nat
            } else {
                count
            },
        ),
{
    if !ok && count == attempts.len() {
        lemma_performed_follows(hardware, script, attempts, (count - 1) as nat);
        assert(attempts.take(count as int) =~= attempts);
        assert(attempts.drop_last() =~= attempts.take(count - 1));
    } else {
        lemma_performed_follows(hardware, script, attempts, count);
    }
}

proof fn lemma_enable_keeps_step(
    hardware: HardwareModel,
    state: AppState,
    channel: u8,
    operation: u16,
    attempts: Seq<Attempt>,
    report: Action,
)
    requires
        hardware.shows(outputs_on(state)),
        channel < 5,
        enable_reported(state, channel, operation, attempts, report),
        at_most_one_failure(attempts),
        ineligibility(state, channel) is Some && state.channels[channel as int].physical_enabled
            ==> forall|i: int| 0 <= i < attempts.len() ==> (#[trigger] attempts[i]).1,
    ensures
        hardware.performed(attempts).shows(
            outputs_on(state).update(
                channel as int,
                report == (Action::OutputApplied { channel, operation, enabled: true }),
            ),
        ),
{
    let script = enable_script(state, channel);
    let off = disable_script(state, channel);
    let done = report == (Action::OutputApplied { channel, operation, enabled: true });
    let split = if done {
        attempts.len() as int
    } else {
        attempts.len() - off.len()
    };
    let first = attempts.take(split);
    assert(attempts =~= first + attempts.skip(split));
    lemma_performed_concat(hardware, first, attempts.skip(split));
    if done {
        assert(first =~= attempts);
        lemma_followed(hardware, script, first, true, first.len());
        assert(first.take(first.len() as int) =~= attempts);
        lemma_enabled(hardware, state, channel);
    } else {
        let now = hardware.performed(first);
        let rest = attempts.skip(split);
        if ineligibility(state, channel) is None {
            lemma_followed(hardware, script, first, false, first.len());
            assert(first.take(first.len() as int) =~= first);
            lemma_enable_keeps_others(hardware, state, channel, (first.len() - 1) as nat);
            assert(!attempts[split - 1].1) by {
                assert(first.last() == attempts[split - 1]);
            }
            assert forall|i: int| 0 <= i < rest.len() implies (#[trigger] rest[i]).1 by {
                assert(rest[i] == attempts[split + i]);
            }
            lemma_switched_off(hardware, now, state, channel, rest);
        } else {
            assert(split == 0);
            assert(rest =~= attempts);
            if state.channels[channel as int].physical_enabled {
                lemma_switched_off(hardware, hardware, state, channel, attempts);
            } else {
                lemma_off_stays_off(hardware, state, channel, attempts);
            }
        }
    }
}

/// Off controls of an output that is off change nothing, whatever comes of them.
proof fn lemma_off_stays_off(
    hardware: HardwareModel,
    state: AppState,
    channel: u8,
    attempts: Seq<Attempt>,
)
    requires
        hardware.shows(outputs_on(state)),
        channel < 5,
        !state.channels[channel as int].physical_enabled,
        attempted(disable_script(state, channel), attempts),
    ensures
        hardware.performed(attempts).shows(outputs_on(state).update(channel as int, false)),
{
    reveal_with_fuel(HardwareModel::performed, 3);
    let script = disable_script(state, channel);
    assert(attempts[0].0 == script[0]);
    if script.len() == 2 {
        assert(attempts[1].0 == script[1]);
        assert(attempts.drop_last().last() == attempts[0]);
        assert(attempts.drop_last().drop_last().len() == 0);
    } else {
        assert(attempts.drop_last().len() == 0);
    }
}

proof fn lemma_off_keeps_others(
    hardware: HardwareModel,
    state: AppState,
    channel: u8,
    attempts: Seq<Attempt>,
)
    requires
        hardware.wf(),
        channel < 5,
        attempts.len() <= disable_script(state, channel).len(),
        forall|i: int|
            0 <= i < attempts.len() ==> (#[trigger] attempts[i]).0 == disable_script(
                state,
                channel,
            )[i],
    ensures
        others_kept(hardware, hardware.performed(attempts), state, channel),
{
    reveal_with_fuel(HardwareModel::performed, 3);
    if attempts.len() == 2 {
        assert(attempts.drop_last().last() == attempts[0]);
        assert(attempts.drop_last().drop_last().len() == 0);
    } else if attempts.len() == 1 {
        assert(attempts.drop_last().len() == 0);
    }
}

proof fn lemma_disable_keeps_step(
    hardware: HardwareModel,
    state: AppState,
    channel: u8,
    operation: u16,
    attempts: Seq<Attempt>,
    report: Action,
)
    requires
        hardware.shows(outputs_on(state)),
        channel < 5,
        disable_reported(state, channel, operation, attempts, report),
        at_most_one_failure(attempts),
    ensures
        hardware.performed(attempts).shows(outputs_on(state).update(channel as int, false)),
{
    let off = disable_script(state, channel);
    let split = attempts.len() - off.len();
    let first = attempts.take(split);
    let rest = attempts.skip(split);
    if report == (Action::OutputApplied { channel, operation, enabled: false }) {
        lemma_switched_off(hardware, hardware, state, channel, attempts);
    } else {
        let failed = if channel == 4 {
            1int
        } else {
            split - 1
        };
        assert(!first[failed].1);
        assert forall|i: int| 0 <= i < rest.len() implies (#[trigger] rest[i]).1 by {
            assert(rest[i] == attempts[split + i]);
            assert(first[failed] == attempts[failed]);
        }
        lemma_off_keeps_others(hardware, state, channel, first);
        lemma_switched_off(hardware, hardware.performed(first), state, channel, rest);
        assert(attempts =~= first + rest);
        lemma_performed_concat(hardware, first, rest);
    }
}

proof fn lemma_voltage_keeps_step(
    hardware: HardwareModel,
    state: AppState,
    channel: u8,
    millivolts: u16,
    attempts: Seq<Attempt>,
    report: Action,
)
    requires
        hardware.shows(outputs_on(state)),
        voltage_commanded(state, channel, millivolts, attempts, report),
        at_most_one_failure(attempts),
    ensures
        report == Action::HardwareSettingApplied ==> hardware.performed(attempts) == hardware,
        report != Action::HardwareSettingApplied ==> hardware.performed(attempts).shows(
            outputs_on(state).update(channel as int, false),
        ),
{
    reveal_with_fuel(HardwareModel::performed, 2);
    if attempts.len() > 0 {
        let rest = attempts.skip(1);
        assert(attempts.take(1).drop_last() =~= Seq::empty());
        assert(attempts.take(1).last() == attempts[0]);
        assert(hardware.performed(attempts.take(1)) == hardware);
        if report == Action::HardwareSettingApplied {
            assert(attempts.take(1) =~= attempts);
        }
        assert(attempts =~= attempts.take(1) + rest);
        lemma_performed_concat(hardware, attempts.take(1), rest);
        if report != Action::HardwareSettingApplied {
            assert forall|i: int| 0 <= i < rest.len() implies (#[trigger] rest[i]).1 by {
                assert(rest[i] == attempts[1 + i]);
                assert(!attempts[0].1);
            }
            lemma_switched_off(hardware, hardware, state, channel, rest);
        }
    }
}

/// What a report says of its channel is what the state then holds to be on.
proof fn lemma_reported(state: AppState, effect: PowerEffect, report: Action)
    requires
        awaits(state, effect),
    ensures
        effect matches PowerEffect::Output { channel, operation, enabled } ==> {
            &&& report == (Action::OutputApplied { channel, operation, enabled }) ==> outputs_on(
                reduced(state, report),
            ) == outputs_on(state).update(channel as int, enabled)
            &&& (report matches Action::OutputFailed { channel: found, operation: token, fault }
                && found == channel && token == operation) ==> outputs_on(reduced(state, report))
                == outputs_on(state).update(channel as int, false)
        },
        report == Action::HardwareSettingApplied ==> reduced(state, report) == state,
        report matches Action::HardwareSettingFailed { channel, fault } ==> channel < 5
            ==> outputs_on(reduced(state, report)) == outputs_on(state).update(
            channel as int,
            false,
        ),
{
    reveal(hardware_transition);
    let next = reduced(state, report);
    match report {
        Action::OutputApplied { channel, operation, enabled } => {
            assert(channel < 5 ==> outputs_on(next) =~= outputs_on(state).update(
                channel as int,
                next.channels[channel as int].physical_enabled,
            ));
        },
        Action::OutputFailed { channel, operation, fault } => {
            assert(channel < 5 ==> outputs_on(next) =~= outputs_on(state).update(
                channel as int,
                next.channels[channel as int].physical_enabled,
            ));
        },
        Action::HardwareSettingFailed { channel, fault } => {
            assert(channel < 5 ==> outputs_on(next) =~= outputs_on(state).update(
                channel as int,
                false,
            ));
        },
        _ => {},
    }
}

/// The channel that an effect is about.
pub open spec fn channel_of(effect: PowerEffect) -> u8 {
    match effect {
        PowerEffect::Output { channel, operation, enabled } => channel,
        PowerEffect::Voltage { channel, millivolts } => channel,
    }
}

/// At no point of an effect does an output carry a voltage that was not
/// configured, whichever of its operations fail, where the hardware agrees with
/// the state about the channel's sibling.
pub proof fn effects_keep_the_interlocks(
    hardware: HardwareModel,
    state: AppState,
    effect: PowerEffect,
    attempts: Seq<Attempt>,
    report: Action,
    count: int,
)
    requires
        hardware.wf(),
        hardware.safe(),
        agrees(hardware, state, channel_of(effect)),
        executed(state, effect, attempts, report),
        0 <= count <= attempts.len(),
    ensures
        hardware.performed(attempts.take(count)).safe(),
{
    reveal_with_fuel(HardwareModel::performed, 2);
    let channel = channel_of(effect);
    let script = enable_script(state, channel);
    let off = disable_script(state, channel);
    let enables = effect matches PowerEffect::Output { channel: _, operation: _, enabled }
        && enabled;
    let done = report is OutputApplied;
    let split = if enables {
        if done {
            attempts.len() as int
        } else {
            attempts.len() - off.len()
        }
    } else if effect is Voltage {
        if attempts.len() > 0 {
            1int
        } else {
            0int
        }
    } else {
        0int
    };
    let first = attempts.take(split);
    let rest = attempts.skip(split);
    let retreat = attempts.len() - off.len();
    assert(attempts.take(0) =~= Seq::empty());
    if enables && done {
        assert(first =~= attempts);
    }
    if effect is Voltage && attempts.len() > 0 {
        assert(attempts.take(1).drop_last() =~= Seq::empty());
        assert(attempts.take(1).last() == attempts[0]);
    }
    assert forall|reached: int| 0 <= reached <= split implies {
        &&& (#[trigger] hardware.performed(attempts.take(reached))).wf()
        &&& hardware.performed(attempts.take(reached)).safe()
    } by {
        if enables && ineligibility(state, channel) is None {
            assert(attempts.take(reached) =~= first.take(reached));
            lemma_followed(hardware, script, first, done, reached as nat);
            enabling_keeps_the_interlocks(
                hardware,
                state,
                channel,
                if !done && reached == split {
                    (reached - 1) as nat
                } else {
                    reached as nat
                },
            );
        }
    }
    off_scripts_only_de_energize(channel, rail_to_drop(state, channel));
    assert forall|i: int| split <= i < attempts.len() implies de_energizing(
        (#[trigger] attempts[i]).0,
    ) by {
        if enables || effect is Voltage {
            assert(rest[i - split].0 == off[i - split]);
        } else if done {
            assert(attempts[i].0 == off[i]);
        } else if i < retreat {
            assert(attempts.take(retreat)[i].0 == off[i]);
        } else {
            assert(attempts.skip(retreat)[i - retreat].0 == off[i - retreat]);
        }
    }
    lemma_retreat_after(hardware, attempts, split);
}

/// Hardware that is what the state says of the outputs is so again once an
/// effect that the state waits for is over and its report is in. One operation
/// of the effect may fail; where an enable is refused while its output is on,
/// none may.
pub proof fn effects_leave_the_hardware_in_step(
    hardware: HardwareModel,
    state: AppState,
    effect: PowerEffect,
    attempts: Seq<Attempt>,
    report: Action,
)
    requires
        hardware.shows(outputs_on(state)),
        awaits(state, effect),
        executed(state, effect, attempts, report),
        at_most_one_failure(attempts),
        refused_while_on(state, effect) ==> forall|i: int|
            0 <= i < attempts.len() ==> (#[trigger] attempts[i]).1,
    ensures
        hardware.performed(attempts).shows(outputs_on(reduced(state, report))),
        hardware.performed(attempts).safe(),
        forall|channel: u8|
            channel < 5 ==> #[trigger] agrees(
                hardware.performed(attempts),
                reduced(state, report),
                channel,
            ),
{
    lemma_reported(state, effect, report);
    match effect {
        PowerEffect::Output { channel, operation, enabled } => if enabled {
            lemma_enable_keeps_step(hardware, state, channel, operation, attempts, report);
        } else {
            lemma_disable_keeps_step(hardware, state, channel, operation, attempts, report);
        },
        PowerEffect::Voltage { channel, millivolts } => {
            lemma_voltage_keeps_step(hardware, state, channel, millivolts, attempts, report);
        },
    }
    lemma_in_step(hardware.performed(attempts), reduced(state, report));
}

/// Hardware that is what the state says is safe, and agrees about every
/// channel.
proof fn lemma_in_step(hardware: HardwareModel, state: AppState)
    requires
        hardware.shows(outputs_on(state)),
    ensures
        hardware.safe(),
        forall|channel: u8| #[trigger] agrees(hardware, state, channel),
{
}

/// A verified shutdown keeps the interlocks at every point, and leaves the
/// hardware dark, as the state then says.
pub proof fn a_verified_shutdown_keeps_the_interlocks(
    hardware: HardwareModel,
    state: AppState,
    attempts: Seq<Attempt>,
)
    requires
        hardware.wf(),
        hardware.safe(),
        attempted(global_shutdown_script(), attempts),
        forall|i: int| 0 <= i < 8 && i != 4 ==> (#[trigger] attempts[i]).1,
    ensures
        forall|count: int|
            0 <= count <= attempts.len() ==> (#[trigger] hardware.performed(
                attempts.take(count),
            )).safe(),
        hardware.performed(attempts).dark(),
        hardware.performed(attempts).shows(
            outputs_on(reduced(state, Action::GlobalShutdownApplied)),
        ),
{
    let script = global_shutdown_script();
    off_scripts_only_de_energize(0, None);
    assert(attempts.take(0) =~= Seq::empty());
    assert forall|i: int| 0 <= i < attempts.len() implies de_energizing(
        (#[trigger] attempts[i]).0,
    ) by {
        assert(attempts[i].0 == script[i]);
    }
    lemma_retreat_after(hardware, attempts, 0);
    let early = attempts.take(5);
    let late = attempts.skip(5);
    let middle = hardware.performed(early);
    lemma_performed_follows(hardware, script, attempts, 4);
    assert(early.drop_last() =~= attempts.take(4));
    assert(early.last() == attempts[4]);
    assert forall|i: int| 0 <= i < 3 implies (#[trigger] late[i]) == (script.skip(5)[i], true) by {
        assert(late[i] == attempts[5 + i]);
    }
    lemma_performed_follows(middle, script.skip(5), late, 3);
    assert(late.take(3) =~= late);
    assert(attempts =~= early + late);
    lemma_performed_concat(hardware, early, late);
    reveal_with_fuel(HardwareModel::following, 5);
    crate::reducer_laws::verified_shutdown_leaves_outputs_off(state);
}

/// One request to switch an output, with what came of it.
pub struct Round {
    pub channel: u8,
    pub enabled: bool,
    pub attempts: Seq<Attempt>,
    pub report: Action,
}

impl Round {
    /// The state once the request is in.
    pub open spec fn asked(self, state: AppState) -> AppState {
        reduced(
            state,
            Action::SetOutputRequested { channel: self.channel, enabled: self.enabled },
        )
    }

    /// The round goes as the power effect of the request does, and one operation
    /// of it fails at most. Without an effect nothing is attempted.
    pub open spec fn fits(self, state: AppState) -> bool {
        match transition_effect(state, self.asked(state)) {
            Some(effect) => {
                &&& executed(self.asked(state), effect, self.attempts, self.report)
                &&& at_most_one_failure(self.attempts)
            },
            None => self.attempts.len() == 0,
        }
    }

    /// The state once the report is in.
    pub open spec fn settled(self, state: AppState) -> AppState {
        match transition_effect(state, self.asked(state)) {
            Some(effect) => reduced(self.asked(state), self.report),
            None => self.asked(state),
        }
    }
}

/// The state after some rounds.
pub open spec fn state_after(state: AppState, rounds: Seq<Round>) -> AppState
    decreases rounds.len(),
{
    if rounds.len() == 0 {
        state
    } else {
        rounds.last().settled(state_after(state, rounds.drop_last()))
    }
}

/// Everything that some rounds attempted, in order.
pub open spec fn attempts_of(rounds: Seq<Round>) -> Seq<Attempt>
    decreases rounds.len(),
{
    if rounds.len() == 0 {
        Seq::empty()
    } else {
        attempts_of(rounds.drop_last()) + rounds.last().attempts
    }
}

/// True when every round fits the state that the rounds before it led to.
pub open spec fn all_fit(state: AppState, rounds: Seq<Round>) -> bool
    decreases rounds.len(),
{
    rounds.len() > 0 ==> {
        &&& all_fit(state, rounds.drop_last())
        &&& rounds.last().fits(state_after(state, rounds.drop_last()))
    }
}

/// True when nothing is being switched, and what is on is what was asked for.
pub open spec fn at_rest(state: AppState) -> bool {
    forall|i: int|
        0 <= i < 5 ==> {
            &&& (#[trigger] state.channels[i]).transition == OutputTransition::Stable
            &&& state.channels[i].requested_enabled == state.channels[i].physical_enabled
        }
}

/// True when all channels but one are at rest.
spec fn others_at_rest(state: AppState, channel: u8) -> bool {
    forall|i: int|
        0 <= i < 5 && i != channel ==> {
            &&& (#[trigger] state.channels[i]).transition == OutputTransition::Stable
            &&& state.channels[i].requested_enabled == state.channels[i].physical_enabled
        }
}

/// A request from rest starts the switching of its channel, or nothing.
proof fn lemma_asked(state: AppState, channel: u8, enabled: bool)
    requires
        at_rest(state),
    ensures
        ({
            let asked = reduced(state, Action::SetOutputRequested { channel, enabled });
            ||| asked == state && transition_effect(state, asked) is None
            ||| {
                let operation = asked.channels[channel as int].operation;
                let effect = PowerEffect::Output { channel, operation, enabled };
                &&& transition_effect(state, asked) == Some(effect)
                &&& awaits(asked, effect)
                &&& enabled ==> !asked.channels[channel as int].physical_enabled
                &&& outputs_on(asked) == outputs_on(state)
                &&& others_at_rest(asked, channel)
            }
        }),
{
    reveal(settings_transition);
    reveal_with_fuel(switching_effect, 6);
    let asked = reduced(state, Action::SetOutputRequested { channel, enabled });
    if asked != state {
        assert(channel < 5);
        assert(state.channels[channel as int].transition == OutputTransition::Stable);
        assert(forall|i: int|
            0 <= i < 5 && i != channel ==> (#[trigger] asked.channels[i]) == state.channels[i]);
        assert(outputs_on(asked) =~= outputs_on(state));
    }
}

/// A report brings its channel to rest.
proof fn lemma_rest_again(
    state: AppState,
    channel: u8,
    operation: u16,
    enabled: bool,
    attempts: Seq<Attempt>,
    report: Action,
)
    requires
        awaits(state, PowerEffect::Output { channel, operation, enabled }),
        others_at_rest(state, channel),
        executed(state, PowerEffect::Output { channel, operation, enabled }, attempts, report),
    ensures
        at_rest(reduced(state, report)),
{
    reveal(hardware_transition);
    let next = reduced(state, report);
    assert(forall|i: int|
        0 <= i < 5 && i != channel ==> {
            &&& (#[trigger] next.channels[i]).transition == state.channels[i].transition
            &&& next.channels[i].requested_enabled == state.channels[i].requested_enabled
            &&& next.channels[i].physical_enabled == state.channels[i].physical_enabled
        });
}

proof fn lemma_round(hardware: HardwareModel, state: AppState, round: Round)
    requires
        hardware.shows(outputs_on(state)),
        at_rest(state),
        round.fits(state),
    ensures
        forall|count: int|
            0 <= count <= round.attempts.len() ==> (#[trigger] hardware.performed(
                round.attempts.take(count),
            )).safe(),
        hardware.performed(round.attempts).shows(outputs_on(round.settled(state))),
        at_rest(round.settled(state)),
{
    let asked = round.asked(state);
    lemma_asked(state, round.channel, round.enabled);
    if let Some(effect) = transition_effect(state, asked) {
        let operation = asked.channels[round.channel as int].operation;
        assert forall|count: int| 0 <= count <= round.attempts.len() implies (
        #[trigger] hardware.performed(round.attempts.take(count))).safe() by {
            lemma_in_step(hardware, asked);
            effects_keep_the_interlocks(
                hardware,
                asked,
                effect,
                round.attempts,
                round.report,
                count,
            );
        }
        effects_leave_the_hardware_in_step(
            hardware,
            asked,
            effect,
            round.attempts,
            round.report,
        );
        lemma_rest_again(
            asked,
            round.channel,
            operation,
            round.enabled,
            round.attempts,
            round.report,
        );
    } else {
        assert(hardware.safe());
        assert(round.attempts.take(0) =~= round.attempts);
    }
}

/// Any sequence of requests to switch outputs on and off keeps the interlocks
/// at every point, though an operation of each may fail: no output carries a
/// voltage that was not configured, and in the end the hardware is what the
/// state says of the outputs.
pub proof fn requests_keep_the_interlocks(
    hardware: HardwareModel,
    state: AppState,
    rounds: Seq<Round>,
)
    requires
        hardware.shows(outputs_on(state)),
        at_rest(state),
        all_fit(state, rounds),
    ensures
        forall|count: int|
            0 <= count <= attempts_of(rounds).len() ==> (#[trigger] hardware.performed(
                attempts_of(rounds).take(count),
            )).safe(),
        hardware.performed(attempts_of(rounds)).shows(outputs_on(state_after(state, rounds))),
        at_rest(state_after(state, rounds)),
    decreases rounds.len(),
{
    let all = attempts_of(rounds);
    if rounds.len() == 0 {
        assert(hardware.safe());
        assert(all.take(0) =~= all);
    } else {
        let before = attempts_of(rounds.drop_last());
        let last = rounds.last().attempts;
        requests_keep_the_interlocks(hardware, state, rounds.drop_last());
        let middle = hardware.performed(before);
        lemma_round(middle, state_after(state, rounds.drop_last()), rounds.last());
        lemma_performed_concat(hardware, before, last);
        assert forall|count: int| 0 <= count <= all.len() implies (#[trigger] hardware.performed(
            all.take(count),
        )).safe() by {
            if count <= before.len() {
                assert(all.take(count) =~= before.take(count));
            } else {
                assert(all.take(count) =~= before + last.take(count - before.len()));
                lemma_performed_concat(hardware, before, last.take(count - before.len()));
            }
        }
    }
}

} // verus!
