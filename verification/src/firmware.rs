//! The firmware loop's reaction to host commands: what is refused, what is
//! dispatched, and what is answered.
//!
//! Every contract here speaks of the state before and after, and of what was
//! asked of the power hardware on the way.

use crate::app::{
    Action, AppReducer, AppState, AwgSource, AwgStatus, ChannelSnapshot, Fault, RegulationMode,
};
use crate::arb::{
    Buffer, DataChunk, RuntimeState, Start, UploadSession, BUFFER_CAPACITY, CHUNK_CAPACITY,
};
use crate::dispatch::reports_plan_no_further_effect;
use crate::power::{
    attempted, continues, execute_effect, execute_global_shutdown, global_shutdown_script,
    planned_effect, record_of, since, DriverRecord, FirmwareEffect, FirmwareEffectPlanner,
    PowerDriver,
};
use crate::reducer::{edits_screen, reduced};
use crate::text::{append, append_decimal, ascii, decimal};
use crate::usb_command::UsbIntent;
use crate::waveform::{arbitrary_stopped, Service};
use vstd::prelude::*;

verus! {

/// A fixed answer to a host command.
#[derive(Clone, Copy, Debug, PartialEq, Eq, Structural)]
pub enum Answer {
    Done,
    Busy,
    Hardware,
    OverCurrent,
    OverTemperature,
    Sensor,
    Range,
    Sequence,
    Incomplete,
    Flash,
    Rebooting,
    Jumping,
    /// A chunk of a waveform was stored for this channel.
    Stored(u8),
    /// An uploaded waveform of this many points runs on this channel.
    Started { channel: u8, points: u16 },
}

impl Answer {
    /// The text of an answer.
    pub open spec fn wording(self) -> Seq<u8> {
        match self {
            Answer::Done => ascii("OK\r\n"@),
            Answer::Busy => ascii("ERR:BUSY\r\n"@),
            Answer::Hardware => ascii("ERR:HARDWARE\r\n"@),
            Answer::OverCurrent => ascii("ERR:OVERCURRENT\r\n"@),
            Answer::OverTemperature => ascii("ERR:OVERTEMP\r\n"@),
            Answer::Sensor => ascii("ERR:SENSOR\r\n"@),
            Answer::Range => ascii("ERR:RANGE\r\n"@),
            Answer::Sequence => ascii("ERR:SEQUENCE\r\n"@),
            Answer::Incomplete => ascii("ERR:INCOMPLETE\r\n"@),
            Answer::Flash => ascii("ERR:FLASH\r\n"@),
            Answer::Rebooting => ascii("OK:REBOOTING\r\n"@),
            Answer::Jumping => ascii("OK:JUMPING_TO_BOOTLOADER\r\n"@),
            Answer::Stored(channel) => ascii("OK:ACK:CH"@) + decimal((channel + 1) as nat) + ascii(
                "\r\n"@,
            ),
            Answer::Started { channel, points } => ascii("OK:CH"@) + decimal((channel + 1) as nat)
                + ascii("_ARB_STARTED_PTS:"@) + decimal(points as nat) + ascii("\r\n"@),
        }
    }

    pub fn text(self) -> (text: Vec<u8>)
        ensures
            text@ == self.wording(),
    {
        let mut out: Vec<u8> = Vec::new();
        match self {
            Answer::Done => append(&mut out, "OK\r\n"),
            Answer::Busy => append(&mut out, "ERR:BUSY\r\n"),
            Answer::Hardware => append(&mut out, "ERR:HARDWARE\r\n"),
            Answer::OverCurrent => append(&mut out, "ERR:OVERCURRENT\r\n"),
            Answer::OverTemperature => append(&mut out, "ERR:OVERTEMP\r\n"),
            Answer::Sensor => append(&mut out, "ERR:SENSOR\r\n"),
            Answer::Range => append(&mut out, "ERR:RANGE\r\n"),
            Answer::Sequence => append(&mut out, "ERR:SEQUENCE\r\n"),
            Answer::Incomplete => append(&mut out, "ERR:INCOMPLETE\r\n"),
            Answer::Flash => append(&mut out, "ERR:FLASH\r\n"),
            Answer::Rebooting => append(&mut out, "OK:REBOOTING\r\n"),
            Answer::Jumping => append(&mut out, "OK:JUMPING_TO_BOOTLOADER\r\n"),
            Answer::Stored(channel) => {
                append(&mut out, "OK:ACK:CH");
                append_decimal(&mut out, channel as u32 + 1);
                append(&mut out, "\r\n");
            },
            Answer::Started { channel, points } => {
                append(&mut out, "OK:CH");
                append_decimal(&mut out, channel as u32 + 1);
                append(&mut out, "_ARB_STARTED_PTS:");
                append_decimal(&mut out, points as u32);
                append(&mut out, "\r\n");
            },
        }
        assert(out@ =~= self.wording());
        out
    }
}

/// Pending work was cancelled, and then every off control was attempted; `well` says whether those that count
/// succeeded.
pub open spec fn shut_down(before: DriverRecord, after: DriverRecord, well: bool) -> bool {
    let attempts = since(before.trace, after.trace);
    &&& continues(before.trace, after.trace)
    &&& after == (DriverRecord {
        trace: after.trace,
        cancels: before.cancels.push(before.trace.len()),
        clock: before.clock,
    })
    &&& attempted(global_shutdown_script(), attempts)
    &&& well == forall|i: int| 0 <= i < 8 && i != 4 ==> (#[trigger] attempts[i]).1
}

/// Switches every output off; says whether every off control that counts
/// succeeded.
fn switch_everything_off<D: PowerDriver>(driver: &mut D) -> (well: bool)
    ensures
        shut_down(record_of(*old(driver)), record_of(*final(driver)), well),
{
    execute_global_shutdown(driver).is_ok()
}

/// What carrying out an effect at once does to the hardware, and the action
/// that reports it.
pub open spec fn carried_out_at_once(
    before: DriverRecord,
    state: AppState,
    effect: FirmwareEffect,
    after: DriverRecord,
    report: Action,
) -> bool {
    if effect.global_shutdown {
        shut_down(before, after, true) && report == Action::GlobalShutdownApplied || shut_down(
            before,
            after,
            false,
        ) && report == Action::GlobalShutdownFailed
    } else {
        &&& continues(before.trace, after.trace)
        &&& after == (DriverRecord { trace: after.trace, ..before })
        &&& effect.power matches Some(power) && crate::executor::executed(
            state,
            power,
            since(before.trace, after.trace),
            report,
        )
    }
}

/// `settled` is what dispatching `action` at once makes of `state`, and `after`
/// the trace of the hardware: the action is reduced, its effect is carried out
/// to the end, and the report is reduced in turn.
pub open spec fn dispatched_at_once(
    state: AppState,
    before: DriverRecord,
    action: Action,
    settled: AppState,
    after: DriverRecord,
) -> bool {
    let next = reduced(state, action);
    match planned_effect(state, next) {
        None => settled == next && after == before,
        Some(effect) => exists|report: Action| #[trigger]
            carried_out_at_once(before, next, effect, after, report) && settled == reduced(
                next,
                report,
            ),
    }
}

/// What a state keeps through the loop.
pub open spec fn kept(before: AppState, after: AppState) -> bool {
    (before.screen.in_range() ==> after.screen.in_range()) && (before.wf() ==> after.wf())
}

fn reduce_in(state: &mut AppState, action: Action)
    requires
        edits_screen(action) ==> old(state).screen.in_range(),
    ensures
        *final(state) == reduced(*old(state), action),
        kept(*old(state), *final(state)),
{
    proof {
        if state.screen.in_range() {
            crate::reducer_laws::reduction_keeps_screen_in_range(*state, action);
        }
        if state.wf() {
            crate::reducer_laws::reduction_keeps_state_well_formed(*state, action);
        }
    }
    *state = AppReducer::reduce(state, action);
}

/// Dispatches one action and carries out its effect before anything else
/// happens. Says whether the state changed.
pub fn dispatch_at_once<D: PowerDriver>(
    state: &mut AppState,
    driver: &mut D,
    action: Action,
) -> (changed: bool)
    requires
        edits_screen(action) ==> old(state).screen.in_range(),
    ensures
        kept(*old(state), *final(state)),
        dispatched_at_once(
            *old(state),
            record_of(*old(driver)),
            action,
            *final(state),
            record_of(*final(driver)),
        ),
        continues(old(driver).trace(), final(driver).trace()),
        changed <==> reduced(*old(state), action) != *old(state),
{
    let ghost start = *state;
    let ghost before = record_of(*driver);
    proof {
        crate::reducer_laws::version_tells_states_apart(start, action);
    }
    let previous: AppState = *state;
    reduce_in(state, action);
    let ghost next = *state;
    let changed: bool = state.version != previous.version;
    match FirmwareEffectPlanner::plan(&previous, state) {
        None => {},
        Some(effect) => {
            if effect.global_shutdown {
                let well: bool = switch_everything_off(driver);
                let report = if well {
                    Action::GlobalShutdownApplied
                } else {
                    Action::GlobalShutdownFailed
                };
                proof {
                    reports_plan_no_further_effect(next, report);
                    assert(carried_out_at_once(before, next, effect, record_of(*driver), report));
                }
                reduce_in(state, report);
            } else {
                match effect.power {
                    Some(power) => {
                        let report = execute_effect(driver, state, power);
                        proof {
                            assert(carried_out_at_once(
                                before,
                                next,
                                effect,
                                record_of(*driver),
                                report,
                            ));
                        }
                        reduce_in(state, report);
                    },
                    None => {},
                }
            }
        },
    }
    changed
}

/// The outputs are switched off and the state is told.
pub open spec fn shutdown_told(
    state: AppState,
    before: DriverRecord,
    well: bool,
    settled: AppState,
    after: DriverRecord,
) -> bool {
    &&& shut_down(before, after, well)
    &&& settled == reduced(
        state,
        if well {
            Action::GlobalShutdownApplied
        } else {
            Action::GlobalShutdownFailed
        },
    )
}

/// Switches every output off and tells the state. Says whether every off
/// control that counts succeeded.
pub fn shut_down_and_tell<D: PowerDriver>(state: &mut AppState, driver: &mut D) -> (well: bool)
    ensures
        kept(*old(state), *final(state)),
        shutdown_told(
            *old(state),
            record_of(*old(driver)),
            well,
            *final(state),
            record_of(*final(driver)),
        ),
{
    let well: bool = switch_everything_off(driver);
    let report = if well {
        Action::GlobalShutdownApplied
    } else {
        Action::GlobalShutdownFailed
    };
    proof {
        reports_plan_no_further_effect(*state, report);
    }
    let _ = dispatch_at_once(state, driver, report);
    well
}

/// A waveform is stopped: the outputs go off first, and only then does the
/// waveform count as stopped.
pub open spec fn waveform_stopped(
    state: AppState,
    before: DriverRecord,
    well: bool,
    settled: AppState,
    after: DriverRecord,
) -> bool {
    if well {
        exists|off: AppState, silent: DriverRecord| #[trigger]
            shutdown_told(state, before, true, off, silent) && dispatched_at_once(
                off,
                silent,
                Action::AwgStopped,
                settled,
                after,
            )
    } else {
        shutdown_told(state, before, false, settled, after)
    }
}

/// Stops the waveform at once.
pub fn stop_waveform<D: PowerDriver>(state: &mut AppState, driver: &mut D) -> (well: bool)
    ensures
        kept(*old(state), *final(state)),
        waveform_stopped(
            *old(state),
            record_of(*old(driver)),
            well,
            *final(state),
            record_of(*final(driver)),
        ),
{
    let ghost start = *state;
    let ghost before = record_of(*driver);
    let well: bool = shut_down_and_tell(state, driver);
    if well {
        let ghost off = *state;
        let ghost silent = record_of(*driver);
        let _ = dispatch_at_once(state, driver, Action::AwgStopped);
        assert(shutdown_told(start, before, true, off, silent));
    }
    well
}

/// True while no waveform is starting, running or stopping.
pub open spec fn waveform_at_rest(state: AppState) -> bool {
    state.awg_status is Stopped || state.awg_status is Fault
}

fn is_waveform_at_rest(state: &AppState) -> (rest: bool)
    ensures
        rest == waveform_at_rest(*state),
{
    state.awg_status == AwgStatus::Stopped || state.awg_status == AwgStatus::Fault
}

/// The answer to a switch command, from the channel after it.
pub open spec fn switch_answer(output: ChannelSnapshot, enabled: bool) -> Answer {
    if output.physical_enabled == enabled && output.requested_enabled == enabled && (!enabled
        || output.fault == Fault::Clear) {
        Answer::Done
    } else {
        match output.fault {
            Fault::OverCurrent => Answer::OverCurrent,
            Fault::OverTemperature => Answer::OverTemperature,
            Fault::Sensor => Answer::Sensor,
            _ => Answer::Hardware,
        }
    }
}

/// A switch command: nothing is switched on while a waveform is under way, and
/// switching off the channel of a running waveform stops it.
pub open spec fn output_set(
    state: AppState,
    before: DriverRecord,
    channel: u8,
    enabled: bool,
    settled: AppState,
    after: DriverRecord,
    answer: Answer,
) -> bool {
    if enabled && !waveform_at_rest(state) {
        settled == state && after == before && answer == Answer::Busy
    } else if !enabled && channel == state.awg_channel() && state.awg_status is Running {
        ||| answer == Answer::Done && waveform_stopped(state, before, true, settled, after)
        ||| answer == Answer::Hardware && waveform_stopped(state, before, false, settled, after)
    } else {
        &&& dispatched_at_once(
            state,
            before,
            Action::SetOutputRequested { channel, enabled },
            settled,
            after,
        )
        &&& answer == switch_answer(settled.channels[channel as int], enabled)
    }
}

pub fn set_output<D: PowerDriver>(
    state: &mut AppState,
    driver: &mut D,
    channel: u8,
    enabled: bool,
) -> (answer: Answer)
    requires
        channel < 5,
    ensures
        kept(*old(state), *final(state)),
        output_set(
            *old(state),
            record_of(*old(driver)),
            channel,
            enabled,
            *final(state),
            record_of(*final(driver)),
            answer,
        ),
{
    if enabled && !is_waveform_at_rest(state) {
        return Answer::Busy;
    }
    if !enabled && channel == state.active_awg_channel() && state.awg_status == AwgStatus::Running {
        return if stop_waveform(state, driver) {
            Answer::Done
        } else {
            Answer::Hardware
        };
    }
    let _ = dispatch_at_once(state, driver, Action::SetOutputRequested { channel, enabled });
    let output = state.channels[channel as usize];
    if output.physical_enabled == enabled && output.requested_enabled == enabled && (!enabled
        || output.fault == Fault::Clear) {
        Answer::Done
    } else {
        match output.fault {
            Fault::OverCurrent => Answer::OverCurrent,
            Fault::OverTemperature => Answer::OverTemperature,
            Fault::Sensor => Answer::Sensor,
            _ => Answer::Hardware,
        }
    }
}

/// Done, or a hardware error.
pub open spec fn done_or_hardware(done: bool) -> Answer {
    if done {
        Answer::Done
    } else {
        Answer::Hardware
    }
}

/// A setting of a channel: refused while `blocked`, else dispatched, and done
/// where `taken` holds of the channel afterwards and its hardware is sound.
pub open spec fn setting_made(
    state: AppState,
    before: DriverRecord,
    blocked: bool,
    action: Action,
    settled: AppState,
    after: DriverRecord,
    done: bool,
    answer: Answer,
) -> bool {
    if blocked {
        settled == state && after == before && answer == Answer::Busy
    } else {
        dispatched_at_once(state, before, action, settled, after) && answer == done_or_hardware(
            done,
        )
    }
}

pub fn set_current_limit<D: PowerDriver>(
    state: &mut AppState,
    driver: &mut D,
    channel: u8,
    milliamps: u16,
) -> (answer: Answer)
    requires
        channel < 5,
    ensures
        kept(*old(state), *final(state)),
        setting_made(
            *old(state),
            record_of(*old(driver)),
            false,
            Action::SetCurrentLimit { channel, milliamps },
            *final(state),
            record_of(*final(driver)),
            final(state).channels[channel as int].current_limit_ma == milliamps
                && final(state).channels[channel as int].fault != Fault::Hardware,
            answer,
        ),
{
    let _ = dispatch_at_once(state, driver, Action::SetCurrentLimit { channel, milliamps });
    let output = state.channels[channel as usize];
    if output.current_limit_ma == milliamps && output.fault != Fault::Hardware {
        Answer::Done
    } else {
        Answer::Hardware
    }
}

/// True when `channel` belongs to a waveform that is under way.
pub open spec fn taken_by_waveform(state: AppState, channel: u8) -> bool {
    channel == state.awg_channel() && !waveform_at_rest(state)
}

pub fn set_voltage<D: PowerDriver>(
    state: &mut AppState,
    driver: &mut D,
    channel: u8,
    millivolts: u16,
) -> (answer: Answer)
    requires
        channel < 5,
    ensures
        kept(*old(state), *final(state)),
        setting_made(
            *old(state),
            record_of(*old(driver)),
            taken_by_waveform(*old(state), channel),
            Action::SetVoltage { channel, millivolts },
            *final(state),
            record_of(*final(driver)),
            final(state).channels[channel as int].setpoint_mv == millivolts
                && final(state).channels[channel as int].fault != Fault::Hardware,
            answer,
        ),
{
    if channel == state.active_awg_channel() && !is_waveform_at_rest(state) {
        return Answer::Busy;
    }
    let _ = dispatch_at_once(state, driver, Action::SetVoltage { channel, millivolts });
    let output = state.channels[channel as usize];
    if output.setpoint_mv == millivolts && output.fault != Fault::Hardware {
        Answer::Done
    } else {
        Answer::Hardware
    }
}

pub fn set_regulation_mode<D: PowerDriver>(
    state: &mut AppState,
    driver: &mut D,
    channel: u8,
    mode: RegulationMode,
) -> (answer: Answer)
    requires
        channel < 5,
    ensures
        kept(*old(state), *final(state)),
        setting_made(
            *old(state),
            record_of(*old(driver)),
            taken_by_waveform(*old(state), channel),
            Action::SetRegulationMode { channel, mode },
            *final(state),
            record_of(*final(driver)),
            final(state).channels[channel as int].regulation_mode == mode
                && final(state).channels[channel as int].fault != Fault::Hardware,
            answer,
        ),
{
    if channel == state.active_awg_channel() && !is_waveform_at_rest(state) {
        return Answer::Busy;
    }
    let _ = dispatch_at_once(state, driver, Action::SetRegulationMode { channel, mode });
    let output = state.channels[channel as usize];
    if output.regulation_mode == mode && output.fault != Fault::Hardware {
        Answer::Done
    } else {
        Answer::Hardware
    }
}

/// A new limit for the input current.
pub open spec fn sink_limit_set(
    state: AppState,
    before: DriverRecord,
    milliamps: u16,
    settled: AppState,
    after: DriverRecord,
    answer: Answer,
) -> bool {
    &&& dispatched_at_once(state, before, Action::SetSinkCurrentLimit(milliamps), settled, after)
    &&& answer == (if settled.sink_current_limit_ma == milliamps {
        Answer::Done
    } else {
        Answer::Range
    })
}

pub fn set_sink_current_limit<D: PowerDriver>(
    state: &mut AppState,
    driver: &mut D,
    milliamps: u16,
) -> (answer: Answer)
    ensures
        kept(*old(state), *final(state)),
        sink_limit_set(
            *old(state),
            record_of(*old(driver)),
            milliamps,
            *final(state),
            record_of(*final(driver)),
            answer,
        ),
{
    let _ = dispatch_at_once(state, driver, Action::SetSinkCurrentLimit(milliamps));
    if state.sink_current_limit_ma == milliamps {
        Answer::Done
    } else {
        Answer::Range
    }
}

/// Everything that a waveform needs besides the state.
pub struct WaveformDesk {
    pub upload: UploadSession,
    pub buffer: Buffer,
    pub service: Service,
}

impl WaveformDesk {
    /// What is armed can be played.
    pub open spec fn wf(self) -> bool {
        self.service.wf()
    }

    pub fn new() -> (desk: Self)
        ensures
            desk.wf(),
            desk.upload == (UploadSession { channel: 0, received: 0 }),
            forall|i: int|
                0 <= i < BUFFER_CAPACITY ==> #[trigger] desk.buffer.millivolts[i] == 0,
            desk.service == (Service {
                builtin: crate::awg::Scheduler::idle(),
                arbitrary: crate::arb::Scheduler::idle(),
                runtime: RuntimeState { active: None, pending_ack: None },
            }),
    {
        WaveformDesk {
            upload: UploadSession::new(),
            buffer: Buffer::new(),
            service: Service::new(),
        }
    }

    /// A chunk arrives: refused while a waveform is under way or out of
    /// sequence, else stored.
    pub open spec fn stored(
        self,
        state: AppState,
        chunk: DataChunk,
        after: Self,
        answer: Answer,
    ) -> bool {
        if !waveform_at_rest(state) {
            after == self && answer == Answer::Busy
        } else if !self.upload.expects(chunk) {
            after == self && answer == Answer::Sequence
        } else {
            &&& answer == Answer::Stored(chunk.channel)
            &&& after == (WaveformDesk {
                upload: UploadSession {
                    channel: chunk.channel,
                    received: (chunk.offset + chunk.len) as u16,
                },
                buffer: after.buffer,
                ..self
            })
            &&& forall|i: int|
                0 <= i < BUFFER_CAPACITY ==> #[trigger] after.buffer.millivolts[i]
                    == if chunk.offset <= i < chunk.offset + chunk.len {
                    chunk.millivolts[i - chunk.offset]
                } else {
                    self.buffer.millivolts[i]
                }
        }
    }

    pub fn store(&mut self, state: &AppState, chunk: DataChunk) -> (answer: Answer)
        requires
            chunk.wf(),
        ensures
            old(self).stored(*state, chunk, *final(self), answer),
            old(self).wf() ==> final(self).wf(),
    {
        if !is_waveform_at_rest(state) {
            return Answer::Busy;
        }
        if self.upload.accept(chunk).is_err() {
            return Answer::Sequence;
        }
        self.buffer.write(chunk);
        Answer::Stored(chunk.channel)
    }

    /// A run is asked for: refused while a waveform is under way, where the
    /// upload is not complete, and where a sample does not fit the channel.
    /// Otherwise the state decides; the answer to a run that is accepted is due
    /// when it runs.
    pub open spec fn run_requested(
        self,
        state: AppState,
        before: DriverRecord,
        start: Start,
        after: Self,
        settled: AppState,
        trace: DriverRecord,
        answer: Option<Answer>,
    ) -> bool {
        let refused = settled == state && trace == before && after == self;
        if !waveform_at_rest(state) {
            refused && answer == Some(Answer::Busy)
        } else if !(self.upload.channel == start.channel && self.upload.received >= start.count) {
            refused && answer == Some(Answer::Incomplete)
        } else if !self.buffer.in_range(start.channel as int, start.count as int) {
            refused && answer == Some(Answer::Range)
        } else {
            &&& exists|low: u16, high: u16| #[trigger]
                self.buffer.spans(start.count as int, low, high) && dispatched_at_once(
                    state,
                    before,
                    Action::RequestArbStart {
                        channel: start.channel,
                        initial_mv: self.buffer.millivolts[0],
                        low_mv: low,
                        high_mv: high,
                    },
                    settled,
                    trace,
                )
            &&& if settled.awg_status is StartRequested && settled.awg_source is Arbitrary {
                &&& answer is None
                &&& after == (WaveformDesk {
                    service: Service {
                        arbitrary: arbitrary_stopped(self.service.arbitrary),
                        runtime: RuntimeState { active: Some(start), pending_ack: Some(start) },
                        ..self.service
                    },
                    ..self
                })
            } else {
                answer == Some(Answer::Busy) && after == self
            }
        }
    }

    pub fn request_run<D: PowerDriver>(
        &mut self,
        state: &mut AppState,
        driver: &mut D,
        start: Start,
    ) -> (answer: Option<Answer>)
        requires
            start.wf(),
            old(self).wf(),
        ensures
            kept(*old(state), *final(state)),
            final(self).wf(),
            old(self).run_requested(
                *old(state),
                record_of(*old(driver)),
                start,
                *final(self),
                *final(state),
                record_of(*final(driver)),
                answer,
            ),
    {
        if !is_waveform_at_rest(state) {
            return Some(Answer::Busy);
        }
        if !self.upload.is_complete_for(start) {
            return Some(Answer::Incomplete);
        }
        let (initial_mv, low_mv, high_mv) = match self.buffer.validate(start) {
            Some(bounds) => bounds,
            None => {
                return Some(Answer::Range);
            },
        };
        assert(self.buffer.spans(start.count as int, low_mv, high_mv));
        let _ = dispatch_at_once(
            state,
            driver,
            Action::RequestArbStart { channel: start.channel, initial_mv, low_mv, high_mv },
        );
        if state.awg_status == AwgStatus::StartRequested && state.awg_source
            == AwgSource::Arbitrary {
            self.service.arm_arbitrary(start);
            None
        } else {
            Some(Answer::Busy)
        }
    }

    /// The desk with the run on `channel` given up, where there is one.
    pub open spec fn given_up(self, channel: u8) -> Self {
        if self.service.runtime.active matches Some(start) && start.channel == channel {
            WaveformDesk {
                service: Service {
                    arbitrary: arbitrary_stopped(self.service.arbitrary),
                    runtime: RuntimeState { active: None, pending_ack: None },
                    ..self.service
                },
                ..self
            }
        } else {
            self
        }
    }

    /// A run is to be stopped; where none is under way on the channel there is
    /// nothing to do. A stop also withdraws the answer that was due for the
    /// start.
    pub open spec fn run_stopped(
        self,
        state: AppState,
        before: DriverRecord,
        channel: u8,
        after: Self,
        settled: AppState,
        trace: DriverRecord,
        answer: Answer,
    ) -> bool {
        if state.awg_source is Arbitrary && state.awg_channel() == channel && !(
        state.awg_status is Stopped) {
            ||| {
                &&& answer == Answer::Done
                &&& waveform_stopped(state, before, true, settled, trace)
                &&& after == self.given_up(channel)
            }
            ||| {
                &&& answer == Answer::Hardware
                &&& waveform_stopped(state, before, false, settled, trace)
                &&& after == self
            }
        } else {
            answer == Answer::Done && settled == state && trace == before && after == self
        }
    }

    pub fn stop_run<D: PowerDriver>(
        &mut self,
        state: &mut AppState,
        driver: &mut D,
        channel: u8,
    ) -> (answer: Answer)
        requires
            old(self).wf(),
        ensures
            kept(*old(state), *final(state)),
            final(self).wf(),
            old(self).run_stopped(
                *old(state),
                record_of(*old(driver)),
                channel,
                *final(self),
                *final(state),
                record_of(*final(driver)),
                answer,
            ),
    {
        if !(state.awg_source == AwgSource::Arbitrary && state.active_awg_channel() == channel
            && state.awg_status != AwgStatus::Stopped) {
            return Answer::Done;
        }
        if stop_waveform(state, driver) {
            let _ = self.service.cancel_arbitrary(channel);
            Answer::Done
        } else {
            Answer::Hardware
        }
    }
}

/// What is left to do for a command.
#[derive(Clone, Copy, Debug, PartialEq, Eq, Structural)]
pub enum CommandOutcome {
    /// Nothing more, and nothing to answer yet.
    Silent,
    Reply(Answer),
    /// The outputs are off: withdraw the boot seal, then reset.
    Jump,
}

/// True of a command whose channels and samples exist.
pub open spec fn intent_fits(intent: UsbIntent) -> bool {
    match intent {
        UsbIntent::SetOutput { channel, enabled } => channel < 5,
        UsbIntent::SetVoltage { channel, millivolts } => channel < 5,
        UsbIntent::SetCurrentLimit { channel, milliamps } => channel < 5,
        UsbIntent::SetRegulationMode { channel, mode } => channel < 5,
        UsbIntent::ArbData(chunk) => chunk.wf(),
        UsbIntent::ArbStart(start) => start.wf(),
        _ => true,
    }
}

/// Whether the channels and samples of a command exist.
pub fn intent_is_fitting(intent: &UsbIntent) -> (fitting: bool)
    ensures
        fitting == intent_fits(*intent),
{
    match intent {
        UsbIntent::SetOutput { channel, enabled: _ } => *channel < 5,
        UsbIntent::SetVoltage { channel, millivolts: _ } => *channel < 5,
        UsbIntent::SetCurrentLimit { channel, milliamps: _ } => *channel < 5,
        UsbIntent::SetRegulationMode { channel, mode: _ } => *channel < 5,
        UsbIntent::ArbData(chunk) => chunk.len as usize <= CHUNK_CAPACITY && chunk.offset as usize
            + chunk.len as usize <= BUFFER_CAPACITY,
        UsbIntent::ArbStart(start) => (start.channel == 3 || start.channel == 4) && start.count >= 1
            && start.count as usize <= BUFFER_CAPACITY && start.multiplier_ticks >= 1
            && start.multiplier_ticks < 0x8000,
        _ => true,
    }
}

/// What a command does, and what is left to do for it.
pub open spec fn command_handled(
    state: AppState,
    before: DriverRecord,
    desk: WaveformDesk,
    intent: UsbIntent,
    settled: AppState,
    after: DriverRecord,
    desk_after: WaveformDesk,
    outcome: CommandOutcome,
) -> bool {
    let answered = outcome is Reply;
    let answer = outcome->Reply_0;
    let apart = desk_after == desk;
    match intent {
        UsbIntent::NoAction => outcome is Silent && settled == state && after == before && apart,
        UsbIntent::JumpToBootloader => apart && {
            ||| outcome is Jump && shutdown_told(state, before, true, settled, after)
            ||| outcome == CommandOutcome::Reply(Answer::Hardware) && shutdown_told(
                state,
                before,
                false,
                settled,
                after,
            )
        },
        UsbIntent::Reboot => apart && outcome == CommandOutcome::Reply(Answer::Rebooting)
            && dispatched_at_once(state, before, Action::RequestReboot, settled, after),
        UsbIntent::SetOutput { channel, enabled } => apart && answered && output_set(
            state,
            before,
            channel,
            enabled,
            settled,
            after,
            answer,
        ),
        UsbIntent::SetVoltage { channel, millivolts } => apart && answered && setting_made(
            state,
            before,
            taken_by_waveform(state, channel),
            Action::SetVoltage { channel, millivolts },
            settled,
            after,
            settled.channels[channel as int].setpoint_mv == millivolts
                && settled.channels[channel as int].fault != Fault::Hardware,
            answer,
        ),
        UsbIntent::SetCurrentLimit { channel, milliamps } => apart && answered && setting_made(
            state,
            before,
            false,
            Action::SetCurrentLimit { channel, milliamps },
            settled,
            after,
            settled.channels[channel as int].current_limit_ma == milliamps
                && settled.channels[channel as int].fault != Fault::Hardware,
            answer,
        ),
        UsbIntent::SetRegulationMode { channel, mode } => apart && answered && setting_made(
            state,
            before,
            taken_by_waveform(state, channel),
            Action::SetRegulationMode { channel, mode },
            settled,
            after,
            settled.channels[channel as int].regulation_mode == mode
                && settled.channels[channel as int].fault != Fault::Hardware,
            answer,
        ),
        UsbIntent::SetSinkCurrentLimit(milliamps) => apart && answered && sink_limit_set(
            state,
            before,
            milliamps,
            settled,
            after,
            answer,
        ),
        UsbIntent::ArbData(chunk) => settled == state && after == before && answered && desk.stored(
            state,
            chunk,
            desk_after,
            answer,
        ),
        UsbIntent::ArbStart(start) => {
            &&& !(outcome is Jump)
            &&& desk.run_requested(
                state,
                before,
                start,
                desk_after,
                settled,
                after,
                if answered {
                    Some(answer)
                } else {
                    None
                },
            )
        },
        UsbIntent::ArbStop(channel) => answered && desk.run_stopped(
            state,
            before,
            channel,
            desk_after,
            settled,
            after,
            answer,
        ),
    }
}

/// Carries out one host command.
pub fn handle_command<D: PowerDriver>(
    state: &mut AppState,
    driver: &mut D,
    desk: &mut WaveformDesk,
    intent: UsbIntent,
) -> (outcome: CommandOutcome)
    requires
        old(desk).wf(),
        intent_fits(intent),
    ensures
        kept(*old(state), *final(state)),
        final(desk).wf(),
        command_handled(
            *old(state),
            record_of(*old(driver)),
            *old(desk),
            intent,
            *final(state),
            record_of(*final(driver)),
            *final(desk),
            outcome,
        ),
{
    match intent {
        UsbIntent::NoAction => CommandOutcome::Silent,
        UsbIntent::JumpToBootloader => {
            if shut_down_and_tell(state, driver) {
                CommandOutcome::Jump
            } else {
                CommandOutcome::Reply(Answer::Hardware)
            }
        },
        UsbIntent::Reboot => {
            let _ = dispatch_at_once(state, driver, Action::RequestReboot);
            CommandOutcome::Reply(Answer::Rebooting)
        },
        UsbIntent::SetOutput { channel, enabled } => CommandOutcome::Reply(
            set_output(state, driver, channel, enabled),
        ),
        UsbIntent::SetVoltage { channel, millivolts } => CommandOutcome::Reply(
            set_voltage(state, driver, channel, millivolts),
        ),
        UsbIntent::SetCurrentLimit { channel, milliamps } => CommandOutcome::Reply(
            set_current_limit(state, driver, channel, milliamps),
        ),
        UsbIntent::SetRegulationMode { channel, mode } => CommandOutcome::Reply(
            set_regulation_mode(state, driver, channel, mode),
        ),
        UsbIntent::SetSinkCurrentLimit(milliamps) => CommandOutcome::Reply(
            set_sink_current_limit(state, driver, milliamps),
        ),
        UsbIntent::ArbData(chunk) => CommandOutcome::Reply(desk.store(state, chunk)),
        UsbIntent::ArbStart(start) => match desk.request_run(state, driver, start) {
            Some(answer) => CommandOutcome::Reply(answer),
            None => CommandOutcome::Silent,
        },
        UsbIntent::ArbStop(channel) => CommandOutcome::Reply(
            desk.stop_run(state, driver, channel),
        ),
    }
}

/// A waveform under way is never disturbed from outside: a command that
/// switches an output on, changes a setting of its channel, or uploads or starts
/// another waveform is answered as busy and changes nothing.
pub proof fn waveforms_are_left_alone(
    state: AppState,
    before: DriverRecord,
    desk: WaveformDesk,
    intent: UsbIntent,
    settled: AppState,
    after: DriverRecord,
    desk_after: WaveformDesk,
    outcome: CommandOutcome,
)
    requires
        !waveform_at_rest(state),
        command_handled(
            state,
            before,
            desk,
            intent,
            settled,
            after,
            desk_after,
            outcome,
        ),
        match intent {
            UsbIntent::SetOutput { channel, enabled } => enabled,
            UsbIntent::SetVoltage { channel, millivolts } => channel == state.awg_channel(),
            UsbIntent::SetRegulationMode { channel, mode } => channel == state.awg_channel(),
            UsbIntent::ArbData(chunk) => true,
            UsbIntent::ArbStart(start) => true,
            _ => false,
        },
    ensures
        settled == state,
        after == before,
        desk_after == desk,
        outcome == CommandOutcome::Reply(Answer::Busy),
{
}

} // verus!
