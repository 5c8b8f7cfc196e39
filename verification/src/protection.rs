//! Protection monitors: they watch measurements and say when to trip.

use crate::app::{
    AppState, AwgStatus, ChannelSnapshot, Fault, Measurement, RegulationMode,
};
use crate::pd::Contract;
use vstd::prelude::*;

verus! {

pub const STARTUP_GRACE_SAMPLES: u8 = 10;

pub const FAULT_CONFIRM_SAMPLES: u8 = 3;

pub const SINK_RECOVERY_SAMPLES: u8 = 10;

pub const VOLTAGE_SETTING_SETTLE_SAMPLES: u8 = 25;

pub const HARD_OVERCURRENT_CEILING_MA: u16 = 3_300;

/// Each shared converter feeds two independently limited 3 A channels, but
/// the hardware caps their combined load at 5 A.
pub const SHARED_RAIL_LIMIT_MA: u16 = 5_000;

/// One of the two converters that feed a pair of channels.
#[derive(Clone, Copy, Debug, PartialEq, Eq, Structural)]
pub enum Rail {
    Dc1,
    Dc2,
}

#[derive(Clone, Copy, Debug, PartialEq, Eq, Structural)]
pub struct ProtectionSnapshot {
    pub active: bool,
    pub last: Measurement,
    pub peak_milliamps: u16,
    pub grace_remaining: u8,
    pub overcurrent_samples: u8,
    pub voltage_samples: u8,
    pub samples_since_enable: u16,
    pub trip: Measurement,
}

/// Watches one output channel.
#[derive(Clone, Copy, Debug, PartialEq, Eq, Structural)]
pub struct ProtectionMonitor {
    pub active: bool,
    pub last: Measurement,
    pub peak_milliamps: u16,
    pub grace_remaining: u8,
    pub overcurrent_samples: u8,
    pub voltage_samples: u8,
    pub tracked_drive_mv: u16,
    pub voltage_settle_remaining: u8,
    pub samples_since_enable: u16,
    pub trip: Measurement,
}

/// `count + 1`, stopping at the largest value.
pub open spec fn counted(count: u8) -> u8 {
    if count == u8::MAX {
        count
    } else {
        (count + 1) as u8
    }
}

/// The current above which a regulated output counts as overloaded.
pub open spec fn overcurrent_threshold(output: ChannelSnapshot) -> u16 {
    match output.regulation_mode {
        RegulationMode::Cv => output.current_limit_ma,
        RegulationMode::Cc => {
            let relaxed = output.current_limit_ma * 125 / 100 + 100;
            if relaxed < HARD_OVERCURRENT_CEILING_MA {
                relaxed as u16
            } else {
                HARD_OVERCURRENT_CEILING_MA
            }
        },
    }
}

/// True when a voltage lies outside the window around the setpoint. A channel
/// that regulates current may droop.
pub open spec fn outside_window(output: ChannelSnapshot, millivolts: u16) -> bool {
    ||| output.regulation_mode == RegulationMode::Cv && millivolts * 100 < output.setpoint_mv * 80
    ||| millivolts * 100 > output.setpoint_mv * 120
}

impl ProtectionMonitor {
    /// A monitor that has seen nothing.
    pub open spec fn fresh() -> Self {
        ProtectionMonitor {
            active: false,
            last: crate::app::invalid_measurement(),
            peak_milliamps: 0,
            grace_remaining: 0,
            overcurrent_samples: 0,
            voltage_samples: 0,
            tracked_drive_mv: 0,
            voltage_settle_remaining: 0,
            samples_since_enable: 0,
            trip: crate::app::invalid_measurement(),
        }
    }

    /// The monitor while its output is off.
    pub open spec fn disarmed(self) -> Self {
        ProtectionMonitor {
            active: false,
            grace_remaining: 0,
            overcurrent_samples: 0,
            voltage_samples: 0,
            samples_since_enable: 0,
            ..self
        }
    }

    /// The monitor at the first sample of an output that was off before.
    pub open spec fn armed(self, drive_mv: u16) -> Self {
        if self.active {
            self
        } else {
            ProtectionMonitor {
                active: true,
                peak_milliamps: 0,
                grace_remaining: STARTUP_GRACE_SAMPLES,
                overcurrent_samples: 0,
                voltage_samples: 0,
                tracked_drive_mv: drive_mv,
                voltage_settle_remaining: 0,
                samples_since_enable: 0,
                ..self
            }
        }
    }

    /// The monitor with a valid sample taken into account, before any verdict.
    /// A change of the drive opens a settling interval for the voltage.
    pub open spec fn sampled(self, drive_mv: u16, measurement: Measurement) -> Self {
        let counted = ProtectionMonitor {
            last: measurement,
            peak_milliamps: if self.peak_milliamps < measurement.milliamps {
                measurement.milliamps
            } else {
                self.peak_milliamps
            },
            samples_since_enable: if self.samples_since_enable == u16::MAX {
                u16::MAX
            } else {
                (self.samples_since_enable + 1) as u16
            },
            ..self
        };
        if drive_mv != self.tracked_drive_mv {
            ProtectionMonitor {
                tracked_drive_mv: drive_mv,
                voltage_settle_remaining: VOLTAGE_SETTING_SETTLE_SAMPLES,
                voltage_samples: 0,
                ..counted
            }
        } else {
            counted
        }
    }

    /// The verdict on the current, after the startup grace.
    pub open spec fn judged_current(self, output: ChannelSnapshot, measurement: Measurement) -> Self {
        ProtectionMonitor {
            overcurrent_samples: if measurement.milliamps > overcurrent_threshold(output) {
                counted(self.overcurrent_samples)
            } else {
                0
            },
            ..self
        }
    }

    /// The verdict on the voltage: `(monitor, fault)`.
    pub open spec fn judged_voltage(
        self,
        output: ChannelSnapshot,
        measurement: Measurement,
        voltage_tracking: bool,
    ) -> (Self, Option<Fault>) {
        if !voltage_tracking {
            (ProtectionMonitor { voltage_samples: 0, ..self }, None)
        } else if self.voltage_settle_remaining > 0 {
            (
                ProtectionMonitor {
                    voltage_settle_remaining: (self.voltage_settle_remaining - 1) as u8,
                    voltage_samples: 0,
                    ..self
                },
                None,
            )
        } else {
            let judged = ProtectionMonitor {
                voltage_samples: if outside_window(output, measurement.millivolts) {
                    counted(self.voltage_samples)
                } else {
                    0
                },
                ..self
            };
            if judged.voltage_samples >= FAULT_CONFIRM_SAMPLES {
                (ProtectionMonitor { trip: measurement, ..judged }, Some(Fault::Hardware))
            } else {
                (judged, None)
            }
        }
    }

    /// The monitor after one sample of `output`, and the fault it reports.
    pub open spec fn after(
        self,
        output: ChannelSnapshot,
        measurement: Measurement,
        voltage_tracking: bool,
    ) -> (Self, Option<Fault>) {
        if !output.physical_enabled {
            (self.disarmed(), None)
        } else if !measurement.valid {
            (
                ProtectionMonitor { last: measurement, trip: measurement, ..self },
                Some(Fault::Sensor),
            )
        } else {
            let sampled = self.armed(output.drive_mv).sampled(output.drive_mv, measurement);
            if sampled.grace_remaining > 0 {
                let graced = ProtectionMonitor {
                    grace_remaining: (sampled.grace_remaining - 1) as u8,
                    ..sampled
                };
                if measurement.milliamps > HARD_OVERCURRENT_CEILING_MA {
                    (ProtectionMonitor { trip: measurement, ..graced }, Some(Fault::OverCurrent))
                } else {
                    (graced, None)
                }
            } else {
                let judged = sampled.judged_current(output, measurement);
                if judged.overcurrent_samples >= FAULT_CONFIRM_SAMPLES {
                    (ProtectionMonitor { trip: measurement, ..judged }, Some(Fault::OverCurrent))
                } else {
                    judged.judged_voltage(output, measurement, voltage_tracking)
                }
            }
        }
    }

    pub fn snapshot(&self) -> (snapshot: ProtectionSnapshot)
        ensures
            snapshot == (ProtectionSnapshot {
                active: self.active,
                last: self.last,
                peak_milliamps: self.peak_milliamps,
                grace_remaining: self.grace_remaining,
                overcurrent_samples: self.overcurrent_samples,
                voltage_samples: self.voltage_samples,
                samples_since_enable: self.samples_since_enable,
                trip: self.trip,
            }),
    {
        ProtectionSnapshot {
            active: self.active,
            last: self.last,
            peak_milliamps: self.peak_milliamps,
            grace_remaining: self.grace_remaining,
            overcurrent_samples: self.overcurrent_samples,
            voltage_samples: self.voltage_samples,
            samples_since_enable: self.samples_since_enable,
            trip: self.trip,
        }
    }

    /// Takes one sample of `output` and reports a fault.
    pub fn observe(&mut self, output: &ChannelSnapshot, measurement: Measurement) -> (fault: Option<
        Fault,
    >)
        ensures
            (*final(self), fault) == old(self).after(*output, measurement, true),
    {
        self.observe_with_voltage_tracking(output, measurement, true)
    }

    /// Takes one sample of `output` and reports a fault; the voltage window
    /// only counts with `voltage_tracking`.
    pub fn observe_with_voltage_tracking(
        &mut self,
        output: &ChannelSnapshot,
        measurement: Measurement,
        voltage_tracking: bool,
    ) -> (fault: Option<Fault>)
        ensures
            (*final(self), fault) == old(self).after(*output, measurement, voltage_tracking),
    {
        if !output.physical_enabled {
            self.active = false;
            self.grace_remaining = 0;
            self.overcurrent_samples = 0;
            self.voltage_samples = 0;
            self.samples_since_enable = 0;
            return None;
        }
        if !measurement.valid {
            self.last = measurement;
            self.trip = measurement;
            return Some(Fault::Sensor);
        }
        if !self.active {
            self.active = true;
            self.peak_milliamps = 0;
            self.grace_remaining = STARTUP_GRACE_SAMPLES;
            self.overcurrent_samples = 0;
            self.voltage_samples = 0;
            self.tracked_drive_mv = output.drive_mv;
            self.voltage_settle_remaining = 0;
            self.samples_since_enable = 0;
        }
        self.last = measurement;
        if self.peak_milliamps < measurement.milliamps {
            self.peak_milliamps = measurement.milliamps;
        }
        self.samples_since_enable = self.samples_since_enable.saturating_add(1);
        if output.drive_mv != self.tracked_drive_mv {
            self.tracked_drive_mv = output.drive_mv;
            self.voltage_settle_remaining = VOLTAGE_SETTING_SETTLE_SAMPLES;
            self.voltage_samples = 0;
        }
        if self.grace_remaining > 0 {
            self.grace_remaining = self.grace_remaining - 1;
            // Startup grace suppresses voltage-settling false positives, but
            // never permits a gross current excursion beyond the channel's
            // physical operating envelope.
            if measurement.milliamps > HARD_OVERCURRENT_CEILING_MA {
                self.trip = measurement;
                return Some(Fault::OverCurrent);
            }
            return None;
        }
        let threshold: u16 = match output.regulation_mode {
            RegulationMode::Cv => output.current_limit_ma,
            RegulationMode::Cc => {
                let relaxed: u32 = output.current_limit_ma as u32 * 125 / 100 + 100;
                if relaxed < HARD_OVERCURRENT_CEILING_MA as u32 {
                    relaxed as u16
                } else {
                    HARD_OVERCURRENT_CEILING_MA
                }
            },
        };
        if measurement.milliamps > threshold {
            self.overcurrent_samples = self.overcurrent_samples.saturating_add(1);
        } else {
            self.overcurrent_samples = 0;
        }
        if self.overcurrent_samples >= FAULT_CONFIRM_SAMPLES {
            self.trip = measurement;
            return Some(Fault::OverCurrent);
        }
        if !voltage_tracking {
            self.voltage_samples = 0;
            return None;
        }
        // A commanded downward step can leave the measured output above the
        // new window while output capacitance discharges. Overcurrent is still
        // checked above on every sample. Only voltage tracking receives this
        // bounded settling interval.
        if self.voltage_settle_remaining > 0 {
            self.voltage_settle_remaining = self.voltage_settle_remaining - 1;
            self.voltage_samples = 0;
            return None;
        }
        let scaled: u32 = measurement.millivolts as u32 * 100;
        let below: bool = output.regulation_mode == RegulationMode::Cv && scaled
            < output.setpoint_mv as u32 * 80;
        let above: bool = scaled > output.setpoint_mv as u32 * 120;
        if below || above {
            self.voltage_samples = self.voltage_samples.saturating_add(1);
        } else {
            self.voltage_samples = 0;
        }
        if self.voltage_samples >= FAULT_CONFIRM_SAMPLES {
            self.trip = measurement;
            Some(Fault::Hardware)
        } else {
            None
        }
    }
}

impl Default for ProtectionMonitor {
    fn default() -> (monitor: Self)
        ensures
            monitor == ProtectionMonitor::fresh(),
    {
        ProtectionMonitor {
            active: false,
            last: Measurement::invalid(),
            peak_milliamps: 0,
            grace_remaining: 0,
            overcurrent_samples: 0,
            voltage_samples: 0,
            tracked_drive_mv: 0,
            voltage_settle_remaining: 0,
            samples_since_enable: 0,
            trip: Measurement::invalid(),
        }
    }
}

/// An output that is off never trips, and a sensor that does not answer for an
/// output that is on trips at once.
pub proof fn sensor_loss_trips_exactly_live_outputs(
    monitor: ProtectionMonitor,
    output: ChannelSnapshot,
    measurement: Measurement,
    voltage_tracking: bool,
)
    requires
        !measurement.valid,
    ensures
        monitor.after(output, measurement, voltage_tracking).1 == (if output.physical_enabled {
            Some(Fault::Sensor)
        } else {
            None
        }),
{
}

/// A moderate overcurrent trips only with the third violating sample in a row.
pub proof fn overcurrent_needs_confirmation(
    monitor: ProtectionMonitor,
    output: ChannelSnapshot,
    measurement: Measurement,
    voltage_tracking: bool,
)
    requires
        measurement.milliamps <= HARD_OVERCURRENT_CEILING_MA,
        monitor.after(output, measurement, voltage_tracking).1 == Some(Fault::OverCurrent),
    ensures
        monitor.active,
        monitor.grace_remaining == 0,
        monitor.overcurrent_samples >= FAULT_CONFIRM_SAMPLES - 1,
        measurement.milliamps > overcurrent_threshold(output),
{
}

/// One sample inside the limits starts the overcurrent count over.
pub proof fn nominal_current_restarts_the_count(
    monitor: ProtectionMonitor,
    output: ChannelSnapshot,
    measurement: Measurement,
    voltage_tracking: bool,
)
    requires
        output.physical_enabled,
        measurement.valid,
        monitor.active,
        monitor.grace_remaining == 0,
        measurement.milliamps <= overcurrent_threshold(output),
    ensures
        monitor.after(output, measurement, voltage_tracking).0.overcurrent_samples == 0,
        monitor.after(output, measurement, voltage_tracking).1 != Some(Fault::OverCurrent),
{
}

/// The startup grace never hides a gross overcurrent.
pub proof fn grace_never_hides_gross_overcurrent(
    monitor: ProtectionMonitor,
    output: ChannelSnapshot,
    measurement: Measurement,
    voltage_tracking: bool,
)
    requires
        output.physical_enabled,
        measurement.valid,
        !monitor.active || monitor.grace_remaining > 0,
        measurement.milliamps > HARD_OVERCURRENT_CEILING_MA,
    ensures
        monitor.after(output, measurement, voltage_tracking).1 == Some(Fault::OverCurrent),
        monitor.after(output, measurement, voltage_tracking).0.trip == measurement,
{
}

/// Switching an output off disarms its monitor but keeps the record of its
/// last trip; the next enable gets a full startup grace.
pub proof fn disable_rearms_the_grace(
    monitor: ProtectionMonitor,
    off: ChannelSnapshot,
    on: ChannelSnapshot,
    measurement: Measurement,
    voltage_tracking: bool,
)
    requires
        !off.physical_enabled,
        on.physical_enabled,
        measurement.valid,
        measurement.milliamps <= HARD_OVERCURRENT_CEILING_MA,
    ensures
        ({
            let disarmed = monitor.after(off, measurement, voltage_tracking).0;
            let next = disarmed.after(on, measurement, voltage_tracking);
            &&& disarmed.trip == monitor.trip
            &&& next.0.grace_remaining == STARTUP_GRACE_SAMPLES - 1
            &&& next.1 is None
        }),
{
}

/// What the input monitor asks the application to do.
#[derive(Clone, Copy, Debug, PartialEq, Eq, Structural)]
pub enum SinkProtectionEvent {
    Trip(Fault),
    Recovered,
}

/// Watches the USB PD input.
#[derive(Clone, Copy, Debug, PartialEq, Eq, Structural)]
pub struct SinkProtectionMonitor {
    pub overcurrent_samples: u8,
    pub voltage_samples: u8,
    pub recovery_samples: u8,
}

/// True when a measured input voltage is within a fifth of the negotiated one.
pub open spec fn within_contract(contract: Option<Contract>, millivolts: u16) -> bool {
    contract matches Some(contract) && contract.millivolts * 80 <= millivolts * 100
        <= contract.millivolts * 120
}

/// The input current that the user and the source both allow.
pub open spec fn effective_sink_limit(state: AppState) -> u16 {
    match state.pd_contract {
        Some(contract) => if contract.operating_milliamps < state.sink_current_limit_ma {
            contract.operating_milliamps
        } else {
            state.sink_current_limit_ma
        },
        None => state.sink_current_limit_ma,
    }
}

/// The input current beyond which no confirmation is awaited.
pub open spec fn gross_sink_limit(state: AppState) -> int {
    let relaxed = effective_sink_limit(state) * 125 / 100 + 100;
    if relaxed < 5_500 {
        relaxed
    } else {
        5_500
    }
}

impl SinkProtectionMonitor {
    /// A monitor with every count at zero.
    pub open spec fn fresh() -> Self {
        SinkProtectionMonitor { overcurrent_samples: 0, voltage_samples: 0, recovery_samples: 0 }
    }

    /// The monitor after one sample while a fault is latched. Recovery needs
    /// every output off and a run of samples that are safe in every respect.
    pub open spec fn recovering(self, state: AppState, measurement: Measurement) -> (
        Self,
        Option<SinkProtectionEvent>,
    ) {
        if !state.any_active() && measurement.valid && measurement.milliamps
            <= effective_sink_limit(state) && within_contract(
            state.pd_contract,
            measurement.millivolts,
        ) {
            if counted(self.recovery_samples) >= SINK_RECOVERY_SAMPLES {
                (Self::fresh(), Some(SinkProtectionEvent::Recovered))
            } else {
                (
                    SinkProtectionMonitor {
                        recovery_samples: counted(self.recovery_samples),
                        ..Self::fresh()
                    },
                    None,
                )
            }
        } else {
            (Self::fresh(), None)
        }
    }

    /// The monitor after one valid sample of a loaded input under a contract.
    pub open spec fn judged(self, state: AppState, measurement: Measurement) -> (
        Self,
        Option<SinkProtectionEvent>,
    ) {
        let overcurrent: u8 = if measurement.milliamps > effective_sink_limit(state) {
            counted(self.overcurrent_samples)
        } else {
            0
        };
        let voltage: u8 = if within_contract(state.pd_contract, measurement.millivolts) {
            0
        } else {
            counted(self.voltage_samples)
        };
        if overcurrent >= FAULT_CONFIRM_SAMPLES {
            (Self::fresh(), Some(SinkProtectionEvent::Trip(Fault::OverCurrent)))
        } else if voltage >= FAULT_CONFIRM_SAMPLES {
            (Self::fresh(), Some(SinkProtectionEvent::Trip(Fault::Hardware)))
        } else {
            (
                SinkProtectionMonitor {
                    overcurrent_samples: overcurrent,
                    voltage_samples: voltage,
                    recovery_samples: 0,
                },
                None,
            )
        }
    }

    /// The monitor after one sample of the input, and what it asks for.
    pub open spec fn after(self, state: AppState, measurement: Measurement) -> (
        Self,
        Option<SinkProtectionEvent>,
    ) {
        if state.sink_fault != Fault::Clear {
            self.recovering(state, measurement)
        } else if !state.any_active() {
            (Self::fresh(), None)
        } else if !measurement.valid {
            (Self::fresh(), Some(SinkProtectionEvent::Trip(Fault::Sensor)))
        } else if state.pd_contract is None {
            (Self::fresh(), Some(SinkProtectionEvent::Trip(Fault::Hardware)))
        } else if measurement.milliamps > gross_sink_limit(state) {
            (Self::fresh(), Some(SinkProtectionEvent::Trip(Fault::OverCurrent)))
        } else {
            self.judged(state, measurement)
        }
    }

    /// Takes one sample of the input.
    pub fn observe(&mut self, state: &AppState, measurement: Measurement) -> (event: Option<
        SinkProtectionEvent,
    >)
        ensures
            (*final(self), event) == old(self).after(*state, measurement),
    {
        let output_active: bool = state.any_output_active();
        let effective_limit_ma: u16 = match state.pd_contract {
            Some(contract) => if contract.operating_milliamps < state.sink_current_limit_ma {
                contract.operating_milliamps
            } else {
                state.sink_current_limit_ma
            },
            None => state.sink_current_limit_ma,
        };
        let in_contract: bool = sink_voltage_within_contract(state, measurement);
        if state.sink_fault != Fault::Clear {
            self.overcurrent_samples = 0;
            self.voltage_samples = 0;
            if !output_active && measurement.valid && measurement.milliamps <= effective_limit_ma
                && in_contract {
                self.recovery_samples = self.recovery_samples.saturating_add(1);
                if self.recovery_samples >= SINK_RECOVERY_SAMPLES {
                    self.recovery_samples = 0;
                    return Some(SinkProtectionEvent::Recovered);
                }
            } else {
                self.recovery_samples = 0;
            }
            return None;
        }
        self.recovery_samples = 0;
        if !output_active {
            self.overcurrent_samples = 0;
            self.voltage_samples = 0;
            return None;
        }
        if !measurement.valid {
            self.overcurrent_samples = 0;
            self.voltage_samples = 0;
            return Some(SinkProtectionEvent::Trip(Fault::Sensor));
        }
        if state.pd_contract.is_none() {
            self.overcurrent_samples = 0;
            self.voltage_samples = 0;
            return Some(SinkProtectionEvent::Trip(Fault::Hardware));
        }
        let relaxed: u32 = effective_limit_ma as u32 * 125 / 100 + 100;
        let gross_limit_ma: u32 = if relaxed < 5_500 {
            relaxed
        } else {
            5_500
        };
        if measurement.milliamps as u32 > gross_limit_ma {
            self.overcurrent_samples = 0;
            self.voltage_samples = 0;
            return Some(SinkProtectionEvent::Trip(Fault::OverCurrent));
        }
        if measurement.milliamps > effective_limit_ma {
            self.overcurrent_samples = self.overcurrent_samples.saturating_add(1);
        } else {
            self.overcurrent_samples = 0;
        }
        if self.overcurrent_samples >= FAULT_CONFIRM_SAMPLES {
            self.overcurrent_samples = 0;
            self.voltage_samples = 0;
            return Some(SinkProtectionEvent::Trip(Fault::OverCurrent));
        }
        if in_contract {
            self.voltage_samples = 0;
        } else {
            self.voltage_samples = self.voltage_samples.saturating_add(1);
        }
        if self.voltage_samples >= FAULT_CONFIRM_SAMPLES {
            self.overcurrent_samples = 0;
            self.voltage_samples = 0;
            Some(SinkProtectionEvent::Trip(Fault::Hardware))
        } else {
            None
        }
    }
}

impl Default for SinkProtectionMonitor {
    fn default() -> (monitor: Self)
        ensures
            monitor == SinkProtectionMonitor::fresh(),
    {
        SinkProtectionMonitor { overcurrent_samples: 0, voltage_samples: 0, recovery_samples: 0 }
    }
}

fn sink_voltage_within_contract(state: &AppState, measurement: Measurement) -> (within: bool)
    ensures
        within == within_contract(state.pd_contract, measurement.millivolts),
{
    match state.pd_contract {
        Some(contract) => {
            let measured: u32 = measurement.millivolts as u32 * 100;
            let negotiated: u32 = contract.millivolts as u32;
            measured >= negotiated * 80 && measured <= negotiated * 120
        },
        None => false,
    }
}

/// A latched input fault recovers only with every output off, under a contract
/// whose voltage is present.
pub proof fn sink_recovery_needs_a_quiet_input(
    monitor: SinkProtectionMonitor,
    state: AppState,
    measurement: Measurement,
)
    requires
        monitor.after(state, measurement).1 == Some(SinkProtectionEvent::Recovered),
    ensures
        state.sink_fault != Fault::Clear,
        !state.any_active(),
        measurement.valid,
        within_contract(state.pd_contract, measurement.millivolts),
        monitor.recovery_samples >= SINK_RECOVERY_SAMPLES - 1,
{
}

/// Watches the summed current of each shared converter.
#[derive(Clone, Copy, Debug, PartialEq, Eq)]
pub struct SharedRailProtectionMonitor {
    pub overcurrent_samples: [u8; 2],
}

/// The index of a rail and its two channels.
pub open spec fn rail_index(rail: Rail) -> int {
    match rail {
        Rail::Dc1 => 0,
        Rail::Dc2 => 1,
    }
}

/// The current of a channel that counts toward its rail.
pub open spec fn rail_share(state: AppState, measurements: [Measurement; 5], channel: int) -> int {
    if state.channels[channel].physical_enabled {
        measurements[channel].milliamps as int
    } else {
        0
    }
}

/// True when a channel is on and its sensor does not answer.
pub open spec fn blind(state: AppState, measurements: [Measurement; 5], channel: int) -> bool {
    state.channels[channel].physical_enabled && !measurements[channel].valid
}

impl SharedRailProtectionMonitor {
    /// The count of `rail` after one sample, and the fault it reports.
    pub open spec fn after(
        self,
        state: AppState,
        measurements: [Measurement; 5],
        rail: Rail,
    ) -> (u8, Option<Fault>) {
        let first = 2 * rail_index(rail);
        let second = first + 1;
        if blind(state, measurements, first) || blind(state, measurements, second) {
            (0, Some(Fault::Sensor))
        } else if rail_share(state, measurements, first) + rail_share(state, measurements, second)
            > SHARED_RAIL_LIMIT_MA {
            let count = counted(self.overcurrent_samples[rail_index(rail)]);
            (
                count,
                if count >= FAULT_CONFIRM_SAMPLES {
                    Some(Fault::OverCurrent)
                } else {
                    None
                },
            )
        } else {
            (0, None)
        }
    }

    /// Takes one sample of the channels on `rail`. Only channels that are on
    /// count; the other rail's count is left alone.
    pub fn observe(
        &mut self,
        state: &AppState,
        measurements: &[Measurement; 5],
        rail: Rail,
    ) -> (fault: Option<Fault>)
        ensures
            final(self).overcurrent_samples@ == old(self).overcurrent_samples@.update(
                rail_index(rail),
                old(self).after(*state, *measurements, rail).0,
            ),
            fault == old(self).after(*state, *measurements, rail).1,
    {
        let (index, first): (usize, usize) = match rail {
            Rail::Dc1 => (0, 0),
            Rail::Dc2 => (1, 2),
        };
        let second: usize = first + 1;
        if (state.channels[first].physical_enabled && !measurements[first].valid) || (
        state.channels[second].physical_enabled && !measurements[second].valid) {
            self.overcurrent_samples[index] = 0;
            return Some(Fault::Sensor);
        }
        let mut total_ma: u32 = 0;
        if state.channels[first].physical_enabled {
            total_ma = measurements[first].milliamps as u32;
        }
        if state.channels[second].physical_enabled {
            total_ma = total_ma + measurements[second].milliamps as u32;
        }
        let mut count: u8 = 0;
        if total_ma > SHARED_RAIL_LIMIT_MA as u32 {
            count = self.overcurrent_samples[index].saturating_add(1);
        }
        self.overcurrent_samples[index] = count;
        if count >= FAULT_CONFIRM_SAMPLES {
            Some(Fault::OverCurrent)
        } else {
            None
        }
    }
}

impl Default for SharedRailProtectionMonitor {
    fn default() -> (monitor: Self)
        ensures
            monitor.overcurrent_samples@ == seq![0u8, 0u8],
    {
        let monitor = SharedRailProtectionMonitor { overcurrent_samples: [0, 0] };
        assert(monitor.overcurrent_samples@ =~= seq![0u8, 0u8]);
        monitor
    }
}

/// `output` as protection must validate it. A running waveform owns its
/// channel's voltage, so the live drive stands in for the saved setpoint.
pub open spec fn protected_output(state: AppState, channel: u8) -> ChannelSnapshot {
    let output = state.channels[channel as int];
    if state.awg_status is Running && channel == state.awg_channel() {
        ChannelSnapshot {
            regulation_mode: RegulationMode::Cv,
            setpoint_mv: output.drive_mv,
            ..output
        }
    } else {
        output
    }
}

/// Project application state into the semantics protection must validate.
/// AWG owns the adjustable channel's voltage command, so comparing its live
/// output with the saved DC compliance setpoint would create false faults
/// during any sufficiently long LOW interval.
pub fn protection_output(state: &AppState, channel: u8) -> (output: ChannelSnapshot)
    requires
        channel < 5,
    ensures
        output == protected_output(*state, channel),
{
    let mut output: ChannelSnapshot = state.channels[channel as usize];
    if state.awg_status == AwgStatus::Running && channel == state.active_awg_channel() {
        output.regulation_mode = RegulationMode::Cv;
        output.setpoint_mv = output.drive_mv;
    }
    output
}

} // verus!
