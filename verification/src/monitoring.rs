//! Stateful runtime protection policy, separated from hardware sampling.

use crate::app::{Action, AppState, AwgStatus, Fault, Measurement};
use crate::power::OVERTEMPERATURE_TRIP_SIXTEENTHS_C;
use crate::protection::{
    protected_output, protection_output, rail_index, ProtectionMonitor, Rail,
    SharedRailProtectionMonitor, SinkProtectionEvent, SinkProtectionMonitor,
};
use crate::tps55289::{status_fault, tps55289_status_fault};
use vstd::prelude::*;

verus! {

#[derive(Clone, Copy, Debug, PartialEq, Eq, Structural)]
pub enum TpsStatusObservation {
    Inactive,
    Value(u8),
    ReadError,
}

pub struct ProtectionService {
    pub channels: [ProtectionMonitor; 5],
    pub shared_rails: SharedRailProtectionMonitor,
    pub sink: SinkProtectionMonitor,
    pub pending_ch5_status_fault: Option<Fault>,
    pub pending_shared_status_faults: [Option<Fault>; 2],
}

/// The fault of a temperature sample.
pub open spec fn sample_fault(sample: Option<i16>) -> Option<Fault> {
    match sample {
        Some(raw) => if raw >= OVERTEMPERATURE_TRIP_SIXTEENTHS_C {
            Some(Fault::OverTemperature)
        } else {
            None
        },
        None => Some(Fault::Sensor),
    }
}

/// The trip of a channel, where it is on or has been asked to go on.
pub open spec fn trip_of(state: AppState, channel: int, fault: Fault) -> Option<Action> {
    if state.channels[channel].active() {
        Some(Action::ProtectionTrip { channel: channel as u8, fault })
    } else {
        None
    }
}

/// The trips of both channels on a rail.
pub open spec fn rail_trips(state: AppState, rail: Rail, fault: Option<Fault>) -> Seq<
    Option<Action>,
> {
    match fault {
        Some(fault) => seq![
            trip_of(state, 2 * rail_index(rail), fault),
            trip_of(state, 2 * rail_index(rail) + 1, fault),
        ],
        None => seq![None, None],
    }
}

/// The fault that an observation of an active converter shows.
pub open spec fn observed_fault(observation: TpsStatusObservation) -> Option<Fault> {
    match observation {
        TpsStatusObservation::Value(status) => status_fault(status),
        TpsStatusObservation::ReadError => Some(Fault::Hardware),
        TpsStatusObservation::Inactive => None,
    }
}

/// What an observation makes of a pending fault: the fault now pending, and the
/// fault confirmed. STATUS is latched and read-to-clear, so only the same fault
/// twice in a row is confirmed.
pub open spec fn confirmed(pending: Option<Fault>, fault: Option<Fault>) -> (
    Option<Fault>,
    Option<Fault>,
) {
    match fault {
        None => (None, None),
        Some(found) => if pending == Some(found) {
            (None, Some(found))
        } else {
            (Some(found), None)
        },
    }
}

/// The fault that an observation of a rail's converter shows; an idle rail
/// shows none.
pub open spec fn rail_fault(
    state: AppState,
    rail: Rail,
    observation: TpsStatusObservation,
) -> Option<Fault> {
    if state.channels[2 * rail_index(rail)].active() || state.channels[2 * rail_index(rail)
        + 1].active() {
        observed_fault(observation)
    } else {
        None
    }
}

/// What an observation of the high channel's converter makes of a pending
/// fault: the fault now pending, and the fault that trips the channel. A converter
/// that cannot be read trips at once.
pub open spec fn high_fault(
    active: bool,
    pending: Option<Fault>,
    observation: TpsStatusObservation,
) -> (Option<Fault>, Option<Fault>) {
    if !active {
        (None, None)
    } else if observation == TpsStatusObservation::ReadError {
        (None, Some(Fault::Hardware))
    } else {
        confirmed(pending, observed_fault(observation))
    }
}

fn trip_for(state: &AppState, channel: usize, fault: Fault) -> (action: Option<Action>)
    requires
        channel < 5,
    ensures
        action == trip_of(*state, channel as int, fault),
{
    if state.channels[channel].is_active() {
        Some(Action::ProtectionTrip { channel: channel as u8, fault })
    } else {
        None
    }
}

fn rail_trips_for(state: &AppState, rail: Rail, fault: Option<Fault>) -> (actions: [Option<
    Action,
>; 2])
    ensures
        actions@ == rail_trips(*state, rail, fault),
{
    let (_, channels) = rail_channels(rail);
    let actions: [Option<Action>; 2] = match fault {
        Some(fault) => [
            trip_for(state, channels[0] as usize, fault),
            trip_for(state, channels[1] as usize, fault),
        ],
        None => [None, None],
    };
    assert(actions@ =~= rail_trips(*state, rail, fault));
    actions
}

/// The index of a rail, and its channels.
fn rail_channels(rail: Rail) -> (pair: (usize, [u8; 2]))
    ensures
        pair.0 == rail_index(rail),
        pair.1[0] == 2 * rail_index(rail),
        pair.1[1] == 2 * rail_index(rail) + 1,
{
    match rail {
        Rail::Dc1 => (0, [0, 1]),
        Rail::Dc2 => (1, [2, 3]),
    }
}

fn confirm(pending: Option<Fault>, fault: Option<Fault>) -> (result: (Option<Fault>, Option<Fault>))
    ensures
        result == confirmed(pending, fault),
{
    match (pending, fault) {
        (_, None) => (None, None),
        (Some(held), Some(found)) => if held == found {
            (None, Some(found))
        } else {
            (Some(found), None)
        },
        (None, Some(found)) => (Some(found), None),
    }
}

impl ProtectionService {
    pub fn channel_monitors(&self) -> (monitors: &[ProtectionMonitor; 5])
        ensures
            *monitors == self.channels,
    {
        &self.channels
    }

    pub fn temperature_fault(sample: Option<i16>) -> (fault: Option<Fault>)
        ensures
            fault == sample_fault(sample),
    {
        match sample {
            Some(raw) => if raw >= OVERTEMPERATURE_TRIP_SIXTEENTHS_C {
                Some(Fault::OverTemperature)
            } else {
                None
            },
            None => Some(Fault::Sensor),
        }
    }

    /// The trips that a temperature fault demands.
    pub fn temperature_trip_actions(state: &AppState, fault: Fault) -> (actions: [Option<
        Action,
    >; 5])
        ensures
            forall|i: int| 0 <= i < 5 ==> #[trigger] actions[i] == trip_of(*state, i, fault),
    {
        [
            trip_for(state, 0, fault),
            trip_for(state, 1, fault),
            trip_for(state, 2, fault),
            trip_for(state, 3, fault),
            trip_for(state, 4, fault),
        ]
    }

    /// TPS STATUS is latched and read-to-clear. Require the same fault to
    /// reassert on the next active-rail poll before tripping either sibling.
    pub fn observe_shared_status(
        &mut self,
        state: &AppState,
        rail: Rail,
        observation: TpsStatusObservation,
    ) -> (actions: [Option<Action>; 2])
        ensures
            ({
                let (pending, fault) = confirmed(
                    old(self).pending_shared_status_faults[rail_index(rail)],
                    rail_fault(*state, rail, observation),
                );
                &&& final(self).pending_shared_status_faults@
                    == old(self).pending_shared_status_faults@.update(rail_index(rail), pending)
                &&& actions@ == rail_trips(*state, rail, fault)
            }),
            *final(self) == (ProtectionService {
                pending_shared_status_faults: final(self).pending_shared_status_faults,
                ..*old(self)
            }),
    {
        let (index, channels) = rail_channels(rail);
        let active: bool = state.channels[channels[0] as usize].is_active()
            || state.channels[channels[1] as usize].is_active();
        let fault = if !active {
            None
        } else {
            match observation {
                TpsStatusObservation::Value(status) => tps55289_status_fault(status),
                TpsStatusObservation::ReadError => Some(Fault::Hardware),
                TpsStatusObservation::Inactive => None,
            }
        };
        let (pending, confirmed_fault) = confirm(self.pending_shared_status_faults[index], fault);
        self.pending_shared_status_faults[index] = pending;
        rail_trips_for(state, rail, confirmed_fault)
    }

    /// CH5 bus failures fail closed immediately; latched STATUS fault bits use
    /// the same two-read confirmation as the shared converters.
    pub fn observe_ch5_status(&mut self, state: &AppState, observation: TpsStatusObservation) -> (
    action: Option<Action>)
        ensures
            ({
                let active = state.channels[4].active();
                let (pending, fault) = if active && observation
                    == TpsStatusObservation::ReadError {
                    (None, Some(Fault::Hardware))
                } else {
                    confirmed(
                        old(self).pending_ch5_status_fault,
                        if active {
                            observed_fault(observation)
                        } else {
                            None
                        },
                    )
                };
                &&& *final(self) == (ProtectionService {
                    pending_ch5_status_fault: pending,
                    ..*old(self)
                })
                &&& action == (match fault {
                    Some(fault) => Some(Action::ProtectionTrip { channel: 4, fault }),
                    None => None,
                })
            }),
            ({
                let (pending, fault) = high_fault(
                    state.channels[4].active(),
                    old(self).pending_ch5_status_fault,
                    observation,
                );
                &&& final(self).pending_ch5_status_fault == pending
                &&& action == (match fault {
                    Some(fault) => Some(Action::ProtectionTrip { channel: 4, fault }),
                    None => None,
                })
            }),
    {
        let active: bool = state.channels[4].is_active();
        if !active {
            self.pending_ch5_status_fault = None;
            return None;
        }
        let fault = match observation {
            TpsStatusObservation::Inactive => None,
            TpsStatusObservation::ReadError => {
                self.pending_ch5_status_fault = None;
                return Some(Action::ProtectionTrip { channel: 4, fault: Fault::Hardware });
            },
            TpsStatusObservation::Value(status) => tps55289_status_fault(status),
        };
        let (pending, confirmed_fault) = confirm(self.pending_ch5_status_fault, fault);
        self.pending_ch5_status_fault = pending;
        match confirmed_fault {
            Some(fault) => Some(Action::ProtectionTrip { channel: 4, fault }),
            None => None,
        }
    }

    pub fn observe_shared_current(
        &mut self,
        state: &AppState,
        measurements: &[Measurement; 5],
        rail: Rail,
    ) -> (actions: [Option<Action>; 2])
        ensures
            ({
                let (count, fault) = old(self).shared_rails.after(*state, *measurements, rail);
                &&& final(self).shared_rails.overcurrent_samples@
                    == old(self).shared_rails.overcurrent_samples@.update(rail_index(rail), count)
                &&& actions@ == rail_trips(*state, rail, fault)
            }),
            *final(self) == (ProtectionService {
                shared_rails: final(self).shared_rails,
                ..*old(self)
            }),
    {
        let fault = self.shared_rails.observe(state, measurements, rail);
        rail_trips_for(state, rail, fault)
    }

    pub fn observe_sink(&mut self, state: &AppState, measurement: Measurement) -> (action: Option<
        Action,
    >)
        ensures
            ({
                let (sink, event) = old(self).sink.after(*state, measurement);
                &&& *final(self) == (ProtectionService { sink, ..*old(self) })
                &&& action == (match event {
                    Some(SinkProtectionEvent::Trip(fault)) => Some(
                        Action::SinkProtectionTrip(fault),
                    ),
                    Some(SinkProtectionEvent::Recovered) => Some(Action::SinkProtectionRecovered),
                    None => None,
                })
            }),
    {
        match self.sink.observe(state, measurement) {
            Some(SinkProtectionEvent::Trip(fault)) => Some(Action::SinkProtectionTrip(fault)),
            Some(SinkProtectionEvent::Recovered) => Some(Action::SinkProtectionRecovered),
            None => None,
        }
    }

    /// Samples one channel. A running waveform is not held to a voltage window.
    pub fn observe_channel(&mut self, state: &AppState, channel: u8, measurement: Measurement) -> (
    action: Option<Action>)
        requires
            channel < 5,
        ensures
            ({
                let (monitor, fault) = old(self).channels[channel as int].after(
                    protected_output(*state, channel),
                    measurement,
                    !(state.awg_status is Running && channel == state.awg_channel()),
                );
                &&& final(self).channels@ == old(self).channels@.update(channel as int, monitor)
                &&& action == (match fault {
                    Some(fault) => Some(Action::ProtectionTrip { channel, fault }),
                    None => None,
                })
            }),
            *final(self) == (ProtectionService { channels: final(self).channels, ..*old(self) }),
    {
        let voltage_tracking: bool = !(state.awg_status == AwgStatus::Running && channel
            == state.active_awg_channel());
        let output = protection_output(state, channel);
        let mut monitor: ProtectionMonitor = self.channels[channel as usize];
        let fault = monitor.observe_with_voltage_tracking(&output, measurement, voltage_tracking);
        self.channels[channel as usize] = monitor;
        match fault {
            Some(fault) => Some(Action::ProtectionTrip { channel, fault }),
            None => None,
        }
    }
}

impl Default for ProtectionService {
    fn default() -> (service: Self)
        ensures
            forall|i: int|
                0 <= i < 5 ==> #[trigger] service.channels[i] == ProtectionMonitor::fresh(),
            service.shared_rails.overcurrent_samples@ == seq![0u8, 0u8],
            service.sink == SinkProtectionMonitor::fresh(),
            service.pending_ch5_status_fault is None,
            service.pending_shared_status_faults@ == seq![None::<Fault>, None::<Fault>],
    {
        let service = ProtectionService {
            channels: [
                ProtectionMonitor::default(),
                ProtectionMonitor::default(),
                ProtectionMonitor::default(),
                ProtectionMonitor::default(),
                ProtectionMonitor::default(),
            ],
            shared_rails: SharedRailProtectionMonitor::default(),
            sink: SinkProtectionMonitor::default(),
            pending_ch5_status_fault: None,
            pending_shared_status_faults: [None, None],
        };
        assert(service.pending_shared_status_faults@ =~= seq![None::<Fault>, None::<Fault>]);
        service
    }
}

/// A converter fault trips only when two observations in a row show the same
/// fault; a clear observation in between starts over.
pub proof fn status_faults_need_two_observations(
    first: Option<Fault>,
    second: Option<Fault>,
    pending: Option<Fault>,
)
    ensures
        confirmed(confirmed(pending, None).0, second).1 is None,
        pending is None && confirmed(confirmed(pending, first).0, second).1 is Some ==> first
            == second,
        pending is None && first is Some ==> confirmed(confirmed(pending, first).0, first).1
            == first,
{
}

} // verus!
