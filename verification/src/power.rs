//! Power effects: what a state transition asks of the hardware, and how the
//! hardware is driven through it.
//!
//! Every contract here speaks of a driver's trace: the operations it was
//! handed, in order, each with whether it succeeded.

pub use crate::executor::{
    execute_effect, execute_global_shutdown, run_disable, run_enable, PowerExecutor, PowerPlan,
};
pub use crate::protection::{
    protection_output, ProtectionMonitor, ProtectionSnapshot, Rail, SharedRailProtectionMonitor,
    SinkProtectionEvent, SinkProtectionMonitor, FAULT_CONFIRM_SAMPLES, HARD_OVERCURRENT_CEILING_MA,
    SHARED_RAIL_LIMIT_MA, SINK_RECOVERY_SAMPLES, STARTUP_GRACE_SAMPLES,
    VOLTAGE_SETTING_SETTLE_SAMPLES,
};
pub use crate::tps55289::{
    tps55289_configuration_registers, tps55289_current_code, tps55289_output_acknowledged,
    tps55289_output_mode, tps55289_status_fault, tps55289_voltage_code,
};

use crate::app::{AppState, ChannelSnapshot, Fault, OutputTransition, Screen};
use crate::limits::CHANNEL_MAX_CURRENT_MA;
use vstd::prelude::*;

verus! {

// Board tests show IOUT_LIMIT is not a usable CH5 regulation loop. Keep this
// fixed; user CC is implemented only by ADC feedback and voltage side effects.
pub const CH5_TPS_CONFIGURATION_LIMIT_MA: u16 = 3_000;

pub const OVERTEMPERATURE_TRIP_SIXTEENTHS_C: i16 = 75 * 16;

pub const OVERTEMPERATURE_REENABLE_SIXTEENTHS_C: i16 = 70 * 16;

pub const HARDWARE_SETTLE_MS: u16 = 50;

#[derive(Clone, Copy, Debug, PartialEq, Eq, Structural)]
pub enum PowerEffect {
    Output { channel: u8, operation: u16, enabled: bool },
    Voltage { channel: u8, millivolts: u16 },
}

#[derive(Clone, Copy, Debug, PartialEq, Eq, Structural)]
pub struct FirmwareEffect {
    pub power: Option<PowerEffect>,
    pub global_shutdown: bool,
}

/// One command to the power hardware.
#[derive(Clone, Copy, Debug, PartialEq, Eq, Structural)]
pub enum DriverOperation {
    ChannelGate { channel: u8, enabled: bool },
    RailEnable { rail: Rail, enabled: bool },
    ConfigureRail { rail: Rail, millivolts: u16 },
    VerifyRail { rail: Rail },
    SetAdjustableDac { millivolts: u16 },
    Ch5Enable(bool),
    ConfigureCh5 { millivolts: u16, current_limit_ma: u16, forced_pwm: bool },
    ClearCh5Status,
    Ch5OutputEnable(bool),
    Ch5Voltage(u16),
    VerifyOutput { channel: u8, millivolts: u16 },
}

/// One entry of a trace: an operation, and whether it succeeded.
pub type Attempt = (DriverOperation, bool);

/// What drives the power hardware.
pub trait PowerDriver {
    type Error;

    /// The operations handed to the hardware so far. A verified implementation
    /// has to say here what its trace is, and to keep it: with this body, a
    /// trace that is always empty, it cannot meet the contract of `apply`.
    open spec fn trace(&self) -> Seq<Attempt> {
        Seq::empty()
    }

    /// The cancellations of pending work so far, each by the length that the
    /// trace had. As with the trace, a verified implementation has to say here
    /// what they are: with this body it cannot meet the contract of
    /// `cancel_pending`.
    open spec fn cancels(&self) -> Seq<nat> {
        Seq::empty()
    }

    /// The time that the driver goes by. One without a clock stands at zero.
    open spec fn clock(&self) -> u16 {
        0
    }

    /// True when nothing is left to be done later.
    open spec fn idle(&self) -> bool {
        true
    }

    fn apply(&mut self, operation: DriverOperation) -> (result: Result<(), Self::Error>)
        ensures
            final(self).trace() == old(self).trace().push((operation, result is Ok)),
            final(self).cancels() == old(self).cancels(),
            final(self).clock() == old(self).clock(),
            old(self).idle() ==> final(self).idle(),
    ;

    fn cancel_pending(&mut self)
        ensures
            final(self).trace() == old(self).trace(),
            final(self).cancels() == old(self).cancels().push(old(self).trace().len()),
            final(self).clock() == old(self).clock(),
            final(self).idle(),
    ;
}

/// What a driver has been asked for: the operations and the cancellations, and
/// the time that it goes by.
pub struct DriverRecord {
    pub trace: Seq<Attempt>,
    pub cancels: Seq<nat>,
    pub clock: u16,
}

/// The record of a driver.
pub open spec fn record_of<D: PowerDriver>(driver: D) -> DriverRecord {
    DriverRecord { trace: driver.trace(), cancels: driver.cancels(), clock: driver.clock() }
}

/// True when a driver was handed operations at most: nothing was cancelled, and
/// its clock stands.
pub open spec fn undisturbed<D: PowerDriver>(before: D, after: D) -> bool {
    after.cancels() == before.cancels() && after.clock() == before.clock()
}

/// The first channel at or after `from` that starts to switch on the way from
/// `old` to `new`, as an effect.
pub open spec fn switching_effect(old: AppState, new: AppState, from: int) -> Option<PowerEffect>
    decreases 5 - from,
{
    if from >= 5 {
        None
    } else if old.channels[from].transition == new.channels[from].transition {
        switching_effect(old, new, from + 1)
    } else {
        match new.channels[from].transition {
            OutputTransition::Enabling(operation) => Some(
                PowerEffect::Output { channel: from as u8, operation, enabled: true },
            ),
            OutputTransition::Disabling(operation) => Some(
                PowerEffect::Output { channel: from as u8, operation, enabled: false },
            ),
            OutputTransition::Stable => switching_effect(old, new, from + 1),
        }
    }
}

/// The new drive voltage of an adjustable channel that is on.
pub open spec fn voltage_effect(old: AppState, new: AppState, channel: int) -> Option<PowerEffect> {
    if old.channels[channel].drive_mv != new.channels[channel].drive_mv
        && new.channels[channel].physical_enabled {
        Some(
            PowerEffect::Voltage {
                channel: channel as u8,
                millivolts: new.channels[channel].drive_mv,
            },
        )
    } else {
        None
    }
}

/// The power effect of a transition: switching comes before voltages, lower
/// channels before higher ones.
pub open spec fn transition_effect(old: AppState, new: AppState) -> Option<PowerEffect> {
    match switching_effect(old, new, 0) {
        Some(effect) => Some(effect),
        None => match voltage_effect(old, new, 3) {
            Some(effect) => Some(effect),
            None => voltage_effect(old, new, 4),
        },
    }
}

/// True when a transition demands that every output goes off: entering or
/// leaving the waveform screen, a new input fault, a lost contract, or a
/// changed input limit under load.
pub open spec fn demands_shutdown(old: AppState, new: AppState) -> bool {
    ||| old.screen != new.screen && (old.screen == Screen::Awg || new.screen == Screen::Awg)
    ||| old.sink_fault != new.sink_fault && new.sink_fault != Fault::Clear
    ||| old.pd_contract is Some && new.pd_contract is None
    ||| old.sink_current_limit_ma != new.sink_current_limit_ma && old.pd_contract is Some
        && old.any_active()
}

/// The effect of a transition. A shutdown never comes with a power effect.
pub open spec fn planned_effect(old: AppState, new: AppState) -> Option<FirmwareEffect> {
    if demands_shutdown(old, new) {
        Some(FirmwareEffect { power: None, global_shutdown: true })
    } else {
        match transition_effect(old, new) {
            Some(effect) => Some(
                FirmwareEffect { power: Some(effect), global_shutdown: false },
            ),
            None => None,
        }
    }
}

/// Plans the effect of a state transition.
pub struct FirmwareEffectPlanner;

impl FirmwareEffectPlanner {
    pub fn plan(old: &AppState, new: &AppState) -> (effect: Option<FirmwareEffect>)
        ensures
            effect == planned_effect(*old, *new),
    {
        let awg_boundary: bool = old.screen != new.screen && (old.screen == Screen::Awg
            || new.screen == Screen::Awg);
        let sink_trip: bool = old.sink_fault != new.sink_fault && new.sink_fault != Fault::Clear;
        let contract_lost: bool = old.pd_contract.is_some() && new.pd_contract.is_none();
        let contract_limit_changed: bool = old.sink_current_limit_ma != new.sink_current_limit_ma
            && old.pd_contract.is_some() && old.any_output_active();
        if awg_boundary || sink_trip || contract_lost || contract_limit_changed {
            return Some(FirmwareEffect { power: None, global_shutdown: true });
        }
        match effect_for_transition(old, new) {
            Some(effect) => Some(FirmwareEffect { power: Some(effect), global_shutdown: false }),
            None => None,
        }
    }
}

fn voltage_effect_of(old: &AppState, new: &AppState, channel: usize) -> (effect: Option<
    PowerEffect,
>)
    requires
        channel < 5,
    ensures
        effect == voltage_effect(*old, *new, channel as int),
{
    let drive_mv: u16 = new.channels[channel].drive_mv;
    if old.channels[channel].drive_mv != drive_mv && new.channels[channel].physical_enabled {
        Some(PowerEffect::Voltage { channel: channel as u8, millivolts: drive_mv })
    } else {
        None
    }
}

/// The power effect of a transition.
pub fn effect_for_transition(old: &AppState, new: &AppState) -> (effect: Option<PowerEffect>)
    ensures
        effect == transition_effect(*old, *new),
{
    let mut channel: usize = 0;
    while channel < 5
        invariant
            channel <= 5,
            switching_effect(*old, *new, 0) == switching_effect(*old, *new, channel as int),
        decreases 5 - channel,
    {
        if old.channels[channel].transition != new.channels[channel].transition {
            match new.channels[channel].transition {
                OutputTransition::Enabling(operation) => {
                    return Some(
                        PowerEffect::Output { channel: channel as u8, operation, enabled: true },
                    );
                },
                OutputTransition::Disabling(operation) => {
                    return Some(
                        PowerEffect::Output { channel: channel as u8, operation, enabled: false },
                    );
                },
                OutputTransition::Stable => {},
            }
        }
        channel = channel + 1;
    }
    match voltage_effect_of(old, new, 3) {
        Some(effect) => Some(effect),
        None => voltage_effect_of(old, new, 4),
    }
}

/// The converter that feeds a channel.
pub open spec fn rail_of(channel: u8) -> Option<Rail> {
    if channel == 0 || channel == 1 {
        Some(Rail::Dc1)
    } else if channel == 2 || channel == 3 {
        Some(Rail::Dc2)
    } else {
        None
    }
}

/// The channel that shares the converter of `channel`.
pub open spec fn sibling_of(channel: u8) -> Option<int> {
    match channel {
        0 => Some(1int),
        1 => Some(0int),
        2 => Some(3int),
        3 => Some(2int),
        _ => None,
    }
}

/// True when the channel that shares the converter of `channel` is on.
pub open spec fn sibling_on(state: AppState, channel: u8) -> bool {
    sibling_of(channel) matches Some(sibling) && state.channels[sibling].physical_enabled
}

/// The voltage of a shared converter.
pub open spec fn rail_millivolts(rail: Rail) -> u16 {
    match rail {
        Rail::Dc1 => 3_000,
        Rail::Dc2 => 5_500,
    }
}

/// Why a channel may not be switched on, if so.
pub open spec fn ineligibility(state: AppState, channel: u8) -> Option<Fault> {
    if channel >= 5 {
        Some(Fault::Hardware)
    } else if !state.recovery_armed || !state.temp_valid
        || !state.channels[channel as int].measurement.valid {
        Some(Fault::Sensor)
    } else if state.sink_fault != Fault::Clear {
        Some(state.sink_fault)
    } else if state.pd_contract is None {
        Some(Fault::Hardware)
    } else if state.temp_sixteenths_c >= OVERTEMPERATURE_REENABLE_SIXTEENTHS_C {
        Some(Fault::OverTemperature)
    } else if state.channels[channel as int].current_limit_ma > CHANNEL_MAX_CURRENT_MA {
        Some(Fault::Hardware)
    } else {
        None
    }
}

/// The operations that expose a channel whose converter runs.
pub open spec fn expose_script(state: AppState, channel: u8, rail: Rail) -> Seq<DriverOperation> {
    let drive = state.channels[channel as int].drive_mv;
    let verified = seq![DriverOperation::VerifyRail { rail }];
    let set = if channel == 3 {
        verified.push(DriverOperation::SetAdjustableDac { millivolts: drive })
    } else {
        verified
    };
    set.push(DriverOperation::ChannelGate { channel, enabled: true }).push(
        DriverOperation::VerifyOutput { channel, millivolts: drive },
    )
}

/// The operations that switch a channel on, in order.
pub open spec fn enable_script(state: AppState, channel: u8) -> Seq<DriverOperation> {
    let drive = state.channels[channel as int].drive_mv;
    match rail_of(channel) {
        None => seq![
            DriverOperation::Ch5Enable(false),
            DriverOperation::Ch5Enable(true),
            DriverOperation::ConfigureCh5 {
                millivolts: drive,
                current_limit_ma: CH5_TPS_CONFIGURATION_LIMIT_MA,
                forced_pwm: state.awg_status is Starting && state.awg_channel() == 4,
            },
            DriverOperation::ClearCh5Status,
            DriverOperation::ClearCh5Status,
            DriverOperation::Ch5OutputEnable(true),
            DriverOperation::VerifyOutput { channel, millivolts: drive },
        ],
        Some(rail) => if sibling_on(state, channel) {
            seq![DriverOperation::ChannelGate { channel, enabled: false }] + expose_script(
                state,
                channel,
                rail,
            )
        } else {
            seq![
                DriverOperation::ChannelGate { channel, enabled: false },
                DriverOperation::RailEnable { rail, enabled: true },
                DriverOperation::ConfigureRail { rail, millivolts: rail_millivolts(rail) },
            ] + expose_script(state, channel, rail)
        },
    }
}

/// The operations that switch channel 5 off.
pub open spec fn ch5_off_script() -> Seq<DriverOperation> {
    seq![DriverOperation::Ch5OutputEnable(false), DriverOperation::Ch5Enable(false)]
}

/// The operations that switch a channel off, and its converter with it where
/// one is given.
pub open spec fn off_script(channel: u8, rail: Option<Rail>) -> Seq<DriverOperation> {
    if channel == 4 {
        ch5_off_script()
    } else {
        match rail {
            Some(rail) => seq![
                DriverOperation::ChannelGate { channel, enabled: false },
                DriverOperation::RailEnable { rail, enabled: false },
            ],
            None => seq![DriverOperation::ChannelGate { channel, enabled: false }],
        }
    }
}

/// The converter that goes off with a channel: its own, unless the sibling
/// needs it.
pub open spec fn rail_to_drop(state: AppState, channel: u8) -> Option<Rail> {
    if sibling_on(state, channel) {
        None
    } else {
        rail_of(channel)
    }
}

/// The operations that switch a channel off, in order.
pub open spec fn disable_script(state: AppState, channel: u8) -> Seq<DriverOperation> {
    off_script(channel, rail_to_drop(state, channel))
}

/// The operations of a global shutdown, in order.
pub open spec fn global_shutdown_script() -> Seq<DriverOperation> {
    seq![
        DriverOperation::ChannelGate { channel: 0, enabled: false },
        DriverOperation::ChannelGate { channel: 1, enabled: false },
        DriverOperation::ChannelGate { channel: 2, enabled: false },
        DriverOperation::ChannelGate { channel: 3, enabled: false },
        DriverOperation::Ch5OutputEnable(false),
        DriverOperation::Ch5Enable(false),
        DriverOperation::RailEnable { rail: Rail::Dc1, enabled: false },
        DriverOperation::RailEnable { rail: Rail::Dc2, enabled: false },
    ]
}

/// The part of a trace that came after `before`.
pub open spec fn since(before: Seq<Attempt>, after: Seq<Attempt>) -> Seq<Attempt> {
    after.skip(before.len() as int)
}

/// Every operation of `script` was attempted, once and in order, whatever
/// came of it.
pub open spec fn attempted(script: Seq<DriverOperation>, attempts: Seq<Attempt>) -> bool {
    &&& attempts.len() == script.len()
    &&& forall|i: int| 0 <= i < script.len() ==> (#[trigger] attempts[i]).0 == script[i]
}

/// `script` was followed up to and including its first failure; `ok` says that
/// there was none.
pub open spec fn followed(
    script: Seq<DriverOperation>,
    attempts: Seq<Attempt>,
    ok: bool,
) -> bool {
    &&& attempts.len() <= script.len()
    &&& forall|i: int| 0 <= i < attempts.len() ==> (#[trigger] attempts[i]).0 == script[i]
    &&& forall|i: int| 0 <= i < attempts.len() - 1 ==> (#[trigger] attempts[i]).1
    &&& ok ==> attempts.len() == script.len() && (attempts.len() > 0 ==> attempts.last().1)
    &&& !ok ==> attempts.len() > 0 && !attempts.last().1
}

/// `after` continues `before`.
pub open spec fn continues(before: Seq<Attempt>, after: Seq<Attempt>) -> bool {
    before.is_prefix_of(after)
}

pub proof fn lemma_trace_push(before: Seq<Attempt>, after: Seq<Attempt>, attempt: Attempt)
    requires
        continues(before, after),
    ensures
        continues(before, after.push(attempt)),
        since(before, after.push(attempt)) == since(before, after).push(attempt),
{
    assert(since(before, after.push(attempt)) =~= since(before, after).push(attempt));
}

pub proof fn lemma_trace_concat(first: Seq<Attempt>, second: Seq<Attempt>, third: Seq<Attempt>)
    requires
        continues(first, second),
        continues(second, third),
    ensures
        continues(first, third),
        since(first, third) == since(first, second) + since(second, third),
{
    assert(since(first, third) =~= since(first, second) + since(second, third));
}

pub(crate) fn rail_for(channel: u8) -> (rail: Option<Rail>)
    ensures
        rail == rail_of(channel),
{
    match channel {
        0 | 1 => Some(Rail::Dc1),
        2 | 3 => Some(Rail::Dc2),
        _ => None,
    }
}

pub(crate) fn rail_setpoint(rail: Rail) -> (millivolts: u16)
    ensures
        millivolts == rail_millivolts(rail),
{
    match rail {
        Rail::Dc1 => 3_000,
        Rail::Dc2 => 5_500,
    }
}

pub(crate) fn sibling_is_on(state: &AppState, channel: u8) -> (on: bool)
    ensures
        on == sibling_on(*state, channel),
{
    match channel {
        0 => state.channels[1].physical_enabled,
        1 => state.channels[0].physical_enabled,
        2 => state.channels[3].physical_enabled,
        3 => state.channels[2].physical_enabled,
        _ => false,
    }
}

pub(crate) fn enable_is_eligible(state: &AppState, channel: u8) -> (result: Result<(), Fault>)
    ensures
        result == (match ineligibility(*state, channel) {
            Some(fault) => Err::<(), Fault>(fault),
            None => Ok::<(), Fault>(()),
        }),
{
    if channel >= 5 {
        return Err(Fault::Hardware);
    }
    let output: ChannelSnapshot = state.channels[channel as usize];
    if !state.recovery_armed || !state.temp_valid || !output.measurement.valid {
        return Err(Fault::Sensor);
    }
    if state.sink_fault != Fault::Clear {
        return Err(state.sink_fault);
    }
    if state.pd_contract.is_none() {
        return Err(Fault::Hardware);
    }
    if state.temp_sixteenths_c >= OVERTEMPERATURE_REENABLE_SIXTEENTHS_C {
        return Err(Fault::OverTemperature);
    }
    if output.current_limit_ma > CHANNEL_MAX_CURRENT_MA {
        return Err(Fault::Hardware);
    }
    Ok(())
}

} // verus!
