//! The lifetime of one deferred USB output command.

use crate::app::{Action, ChannelSnapshot, Fault, OutputTransition};
use vstd::prelude::*;

verus! {

#[derive(Clone, Copy, Debug, PartialEq, Eq, Structural)]
pub enum Admission {
    Proceed,
    ProceedAfterCancellation,
    Busy,
}

#[derive(Clone, Copy, Debug, PartialEq, Eq)]
pub enum RequestResult {
    Pending,
    Complete(Result<(), Fault>),
}

/// A command whose reply is due when its operation ends.
#[derive(Clone, Copy, Debug, PartialEq, Eq, Structural)]
pub struct Pending {
    pub channel: u8,
    pub operation: u16,
}

/// Owns the lifetime of one deferred USB output command.
///
/// Hardware execution remains outside this type. It only decides whether a
/// command may enter the reducer and pairs the resulting operation token with
/// its eventual terminal response.
pub struct OutputTransaction {
    pub pending: Option<Pending>,
}

/// What a completion action reports: its operation, and how it ended.
pub open spec fn completion(action: Action) -> Option<(Pending, Result<(), Fault>)> {
    match action {
        Action::OutputApplied { channel, operation, enabled } => Some(
            (Pending { channel, operation }, Ok(())),
        ),
        Action::OutputFailed { channel, operation, fault } => Some(
            (Pending { channel, operation }, Err(fault)),
        ),
        _ => None,
    }
}

/// True when the channel works on the request it was just given.
pub open spec fn under_way(output: ChannelSnapshot, enabled: bool) -> bool {
    output.requested_enabled == enabled && output.transition == (if enabled {
        OutputTransition::Enabling(output.operation)
    } else {
        OutputTransition::Disabling(output.operation)
    })
}

/// True when the channel already is as it was asked to be.
pub open spec fn already(output: ChannelSnapshot, enabled: bool) -> bool {
    output.physical_enabled == enabled && output.requested_enabled == enabled && (!enabled
        || output.fault == Fault::Clear)
}

impl OutputTransaction {
    /// Whether a command may proceed, and the command that then is pending.
    pub open spec fn begun(
        self,
        channel: u8,
        enabled: bool,
        power_busy: bool,
        pd_pending: bool,
    ) -> (Admission, Option<Pending>) {
        if enabled && (power_busy || pd_pending) {
            (Admission::Busy, self.pending)
        } else {
            match self.pending {
                None => (Admission::Proceed, None),
                Some(pending) => if pending.channel == channel && !enabled {
                    (Admission::ProceedAfterCancellation, None)
                } else {
                    (Admission::Busy, Some(pending))
                },
            }
        }
    }

    /// What the reducer made of a command, and the command that then is pending.
    pub open spec fn recorded(
        self,
        channel: u8,
        enabled: bool,
        output: ChannelSnapshot,
    ) -> (RequestResult, Option<Pending>) {
        if under_way(output, enabled) {
            (RequestResult::Pending, Some(Pending { channel, operation: output.operation }))
        } else if already(output, enabled) {
            (RequestResult::Complete(Ok(())), self.pending)
        } else {
            (RequestResult::Complete(Err(output.fault)), self.pending)
        }
    }

    /// The reply that an action releases, and the command that then is pending.
    pub open spec fn released(self, action: Action) -> (
        Option<Result<(), Fault>>,
        Option<Pending>,
    ) {
        match completion(action) {
            Some((operation, result)) => if self.pending == Some(operation) {
                (Some(result), None)
            } else {
                (None, self.pending)
            },
            None => (None, self.pending),
        }
    }

    pub fn new() -> (transaction: Self)
        ensures
            transaction.pending is None,
    {
        OutputTransaction { pending: None }
    }

    /// Decides whether a command may proceed. Only switching off the channel
    /// of the pending command gets past it, and cancels it.
    pub fn begin_request(
        &mut self,
        channel: u8,
        enabled: bool,
        power_busy: bool,
        pd_pending: bool,
    ) -> (admission: Admission)
        ensures
            admission == (if enabled && (power_busy || pd_pending) {
                Admission::Busy
            } else {
                match old(self).pending {
                    None => Admission::Proceed,
                    Some(pending) => if pending.channel == channel && !enabled {
                        Admission::ProceedAfterCancellation
                    } else {
                        Admission::Busy
                    },
                }
            }),
            final(self).pending == (if admission == Admission::ProceedAfterCancellation {
                None
            } else {
                old(self).pending
            }),
            (admission, final(self).pending) == old(self).begun(
                channel,
                enabled,
                power_busy,
                pd_pending,
            ),
    {
        if enabled && (power_busy || pd_pending) {
            return Admission::Busy;
        }
        match self.pending {
            Some(pending) => if pending.channel == channel && !enabled {
                self.pending = None;
                Admission::ProceedAfterCancellation
            } else {
                Admission::Busy
            },
            None => Admission::Proceed,
        }
    }

    /// Classifies what the reducer made of a command.
    pub fn record_request(&mut self, channel: u8, enabled: bool, output: &ChannelSnapshot) -> (
    result: RequestResult)
        ensures
            final(self).pending == (if under_way(*output, enabled) {
                Some(Pending { channel, operation: output.operation })
            } else {
                old(self).pending
            }),
            result == (if under_way(*output, enabled) {
                RequestResult::Pending
            } else if already(*output, enabled) {
                RequestResult::Complete(Ok(()))
            } else {
                RequestResult::Complete(Err(output.fault))
            }),
            (result, final(self).pending) == old(self).recorded(channel, enabled, *output),
    {
        let expected_transition = if enabled {
            OutputTransition::Enabling(output.operation)
        } else {
            OutputTransition::Disabling(output.operation)
        };
        if output.transition == expected_transition && output.requested_enabled == enabled {
            self.pending = Some(Pending { channel, operation: output.operation });
            RequestResult::Pending
        } else if output.physical_enabled == enabled && output.requested_enabled == enabled && (
        !enabled || output.fault == Fault::Clear) {
            RequestResult::Complete(Ok(()))
        } else {
            RequestResult::Complete(Err(output.fault))
        }
    }

    /// The reply that a completion releases: only the exact operation of the
    /// pending command does.
    pub fn observe_completion(&mut self, action: &Action) -> (reply: Option<Result<(), Fault>>)
        ensures
            match completion(*action) {
                Some((operation, result)) => if old(self).pending == Some(operation) {
                    final(self).pending is None && reply == Some(result)
                } else {
                    final(self).pending == old(self).pending && reply is None
                },
                None => final(self).pending == old(self).pending && reply is None,
            },
            (reply, final(self).pending) == old(self).released(*action),
    {
        let (channel, operation, result) = match *action {
            Action::OutputApplied { channel, operation, .. } => (channel, operation, Ok(())),
            Action::OutputFailed { channel, operation, fault } => (
                channel,
                operation,
                Err(fault),
            ),
            _ => {
                return None;
            },
        };
        match self.pending {
            Some(pending) => if pending.channel == channel && pending.operation == operation {
                self.pending = None;
                Some(result)
            } else {
                None
            },
            None => None,
        }
    }

    /// Gives up a command that nothing works on any more; says whether there
    /// was one.
    pub fn cancel_if_idle(&mut self, power_busy: bool) -> (cancelled: bool)
        ensures
            cancelled == (old(self).pending is Some && !power_busy),
            final(self).pending == (if cancelled {
                None
            } else {
                old(self).pending
            }),
    {
        if self.pending.is_some() && !power_busy {
            self.pending = None;
            true
        } else {
            false
        }
    }
}

impl Default for OutputTransaction {
    fn default() -> (transaction: Self)
        ensures
            transaction.pending is None,
    {
        Self::new()
    }
}

} // verus!
