//! Waveform generation: which scheduler runs, and what the firmware loop has to
//! do for it.

use crate::app::{AwgConfig, AwgSource, AwgStatus};
use crate::arb::{
    Buffer, RuntimeDirective, RuntimeState, Scheduler as ArbScheduler, SchedulerStatus, Start, Tick,
};
use crate::awg::{playable, Scheduler as BuiltinScheduler};
use vstd::prelude::*;

verus! {

#[derive(Clone, Copy, Debug, PartialEq, Eq, Structural)]
pub enum Directive {
    NoAction,
    Sample(u16),
    PrepareStart,
    Stop,
    Finished,
    FailSafeShutdown,
    FaultShutdown,
}

pub struct Service {
    pub builtin: BuiltinScheduler,
    pub arbitrary: ArbScheduler,
    pub runtime: RuntimeState,
}

/// A built-in scheduler, stopped.
pub open spec fn builtin_stopped(scheduler: BuiltinScheduler) -> BuiltinScheduler {
    BuiltinScheduler { active: false, phase: 0, phase_remainder: 0, ..scheduler }
}

/// An uploaded waveform's scheduler, stopped.
pub open spec fn arbitrary_stopped(scheduler: ArbScheduler) -> ArbScheduler {
    ArbScheduler { active: false, ..scheduler }
}

impl Service {
    pub open spec fn wf(self) -> bool {
        &&& self.builtin.wf()
        &&& self.runtime.active matches Some(start) ==> start.wf()
    }

    /// `self` with both schedulers stopped.
    pub open spec fn stopped(self) -> Self {
        Service {
            builtin: builtin_stopped(self.builtin),
            arbitrary: arbitrary_stopped(self.arbitrary),
            runtime: self.runtime,
        }
    }

    /// The service after a tick of a running built-in waveform.
    pub open spec fn after_builtin(self, config: AwgConfig, now: u16) -> (Self, Directive) {
        let (builtin, emitted) = self.builtin.after(now, config);
        (
            Service { builtin, arbitrary: arbitrary_stopped(self.arbitrary), ..self },
            match emitted {
                Some(millivolts) => Directive::Sample(millivolts),
                None => Directive::NoAction,
            },
        )
    }

    /// The service after a tick of a running uploaded waveform. A run without
    /// session metadata, or without access to its samples, is shut down.
    pub open spec fn after_arbitrary(self, now: u16, buffer: Option<&Buffer>) -> (Self, Directive) {
        let quiet = Service { builtin: builtin_stopped(self.builtin), ..self };
        match (self.runtime.active, buffer) {
            (Some(start), Some(buffer)) => {
                let (arbitrary, tick) = self.arbitrary.after(now, start, *buffer);
                match tick {
                    Some(Tick::Sample(millivolts)) => (
                        Service { arbitrary, ..quiet },
                        Directive::Sample(millivolts),
                    ),
                    Some(Tick::Finished) => (
                        Service {
                            arbitrary,
                            runtime: RuntimeState { active: None, ..self.runtime },
                            ..quiet
                        },
                        Directive::Finished,
                    ),
                    None => (Service { arbitrary, ..quiet }, Directive::NoAction),
                }
            },
            _ => (self.stopped(), Directive::FailSafeShutdown),
        }
    }

    /// The service after a tick, and what the firmware loop has to do.
    pub open spec fn after(
        self,
        status: AwgStatus,
        source: AwgSource,
        config: AwgConfig,
        now: u16,
        buffer: Option<&Buffer>,
    ) -> (Self, Directive) {
        match status {
            AwgStatus::StartRequested => (self.stopped(), Directive::PrepareStart),
            AwgStatus::StopRequested => (
                if source == AwgSource::Arbitrary {
                    Service {
                        runtime: RuntimeState { active: None, pending_ack: None },
                        ..self.stopped()
                    }
                } else {
                    self.stopped()
                },
                Directive::Stop,
            ),
            AwgStatus::Running => match source {
                AwgSource::Builtin => self.after_builtin(config, now),
                AwgSource::Arbitrary => self.after_arbitrary(now, buffer),
            },
            AwgStatus::Fault => (
                self.stopped(),
                if self.builtin.active || self.arbitrary.active {
                    Directive::FaultShutdown
                } else {
                    Directive::NoAction
                },
            ),
            AwgStatus::Stopped => (self.stopped(), Directive::NoAction),
            AwgStatus::Starting => (self, Directive::NoAction),
        }
    }

    pub fn new() -> (service: Self)
        ensures
            service.wf(),
            service == (Service {
                builtin: BuiltinScheduler::idle(),
                arbitrary: ArbScheduler::idle(),
                runtime: RuntimeState { active: None, pending_ack: None },
            }),
    {
        Service {
            builtin: BuiltinScheduler::new(),
            arbitrary: ArbScheduler::new(),
            runtime: RuntimeState::new(),
        }
    }

    /// Makes `start` the run to play once the channel is on.
    pub fn arm_arbitrary(&mut self, start: Start)
        requires
            old(self).wf(),
            start.wf(),
        ensures
            final(self).wf(),
            *final(self) == (Service {
                arbitrary: arbitrary_stopped(old(self).arbitrary),
                runtime: RuntimeState { active: Some(start), pending_ack: Some(start) },
                ..*old(self)
            }),
    {
        self.arbitrary.stop();
        self.runtime.arm(start);
    }

    /// Gives up the run on `channel`; says whether there was one.
    pub fn cancel_arbitrary(&mut self, channel: u8) -> (cancelled: bool)
        requires
            old(self).wf(),
        ensures
            final(self).wf(),
            cancelled == (old(self).runtime.active matches Some(start) && start.channel == channel),
            *final(self) == (if cancelled {
                Service {
                    arbitrary: arbitrary_stopped(old(self).arbitrary),
                    runtime: RuntimeState { active: None, pending_ack: None },
                    ..*old(self)
                }
            } else {
                *old(self)
            }),
    {
        let cancelled: bool = self.runtime.cancel(channel);
        if cancelled {
            self.arbitrary.stop();
        }
        cancelled
    }

    pub fn stop_arbitrary(&mut self)
        ensures
            *final(self) == (Service {
                arbitrary: arbitrary_stopped(old(self).arbitrary),
                ..*old(self)
            }),
    {
        self.arbitrary.stop();
    }

    pub fn pending_arb_ack(&self) -> (start: Option<Start>)
        ensures
            start == self.runtime.pending_ack,
    {
        self.runtime.pending_ack()
    }

    pub fn take_pending_arb_ack(&mut self) -> (start: Option<Start>)
        ensures
            start == old(self).runtime.pending_ack,
            *final(self) == (Service {
                runtime: RuntimeState { pending_ack: None, ..old(self).runtime },
                ..*old(self)
            }),
    {
        self.runtime.take_pending_ack()
    }

    pub fn arb_status(&self) -> (status: SchedulerStatus)
        ensures
            status == self.arbitrary.status,
    {
        self.arbitrary.status()
    }

    /// Services the waveform once.
    pub fn tick(
        &mut self,
        status: AwgStatus,
        source: AwgSource,
        config: AwgConfig,
        now: u16,
        buffer: Option<&Buffer>,
    ) -> (directive: Directive)
        requires
            old(self).wf(),
            status is Running && source is Builtin && old(self).builtin.generates(now) ==> playable(
                config,
            ),
        ensures
            final(self).wf(),
            (*final(self), directive) == old(self).after(status, source, config, now, buffer),
    {
        match status {
            AwgStatus::StartRequested => {
                self.builtin.stop();
                self.arbitrary.stop();
                Directive::PrepareStart
            },
            AwgStatus::StopRequested => {
                self.builtin.stop();
                self.arbitrary.stop();
                if source == AwgSource::Arbitrary {
                    self.runtime.clear();
                }
                Directive::Stop
            },
            AwgStatus::Running => match source {
                AwgSource::Builtin => {
                    self.arbitrary.stop();
                    match self.builtin.tick(now, config) {
                        Some(millivolts) => Directive::Sample(millivolts),
                        None => Directive::NoAction,
                    }
                },
                AwgSource::Arbitrary => {
                    self.builtin.stop();
                    match (self.runtime.directive(), buffer) {
                        (RuntimeDirective::Run(start), Some(buffer)) => {
                            match self.arbitrary.tick(now, start, buffer) {
                                Some(Tick::Sample(millivolts)) => Directive::Sample(millivolts),
                                Some(Tick::Finished) => {
                                    self.runtime.finish();
                                    Directive::Finished
                                },
                                None => Directive::NoAction,
                            }
                        },
                        _ => {
                            self.arbitrary.stop();
                            Directive::FailSafeShutdown
                        },
                    }
                },
            },
            AwgStatus::Fault => {
                let active: bool = self.builtin.is_active() || self.arbitrary.is_active();
                self.builtin.stop();
                self.arbitrary.stop();
                if active {
                    Directive::FaultShutdown
                } else {
                    Directive::NoAction
                }
            },
            AwgStatus::Stopped => {
                self.builtin.stop();
                self.arbitrary.stop();
                Directive::NoAction
            },
            AwgStatus::Starting => Directive::NoAction,
        }
    }
}

impl Default for Service {
    fn default() -> (service: Self)
        ensures
            service.wf(),
            service == (Service {
                builtin: BuiltinScheduler::idle(),
                arbitrary: ArbScheduler::idle(),
                runtime: RuntimeState { active: None, pending_ack: None },
            }),
    {
        Self::new()
    }
}

/// Samples come out of a running waveform only.
pub proof fn samples_need_a_running_waveform(
    service: Service,
    status: AwgStatus,
    source: AwgSource,
    config: AwgConfig,
    now: u16,
    buffer: Option<&Buffer>,
    millivolts: u16,
)
    requires
        service.after(status, source, config, now, buffer).1 == Directive::Sample(millivolts),
    ensures
        status == AwgStatus::Running,
        source == AwgSource::Arbitrary ==> service.runtime.active is Some && buffer is Some,
{
}

/// The two schedulers never run at once: a tick stops every scheduler but the
/// one it serves.
pub proof fn at_most_one_scheduler_runs(
    service: Service,
    status: AwgStatus,
    source: AwgSource,
    config: AwgConfig,
    now: u16,
    buffer: Option<&Buffer>,
)
    requires
        !(service.builtin.active && service.arbitrary.active),
    ensures
        ({
            let next = service.after(status, source, config, now, buffer).0;
            !(next.builtin.active && next.arbitrary.active)
        }),
{
}

} // verus!
