//! When protection trips, and when it does not: in millivolts, milliamperes,
//! degrees and samples.

use crate::app::{Action, AppState, AwgStatus, ChannelSnapshot, Fault, Measurement, RegulationMode};
use crate::monitoring::{sample_fault, trip_of};
use crate::power::ineligibility;
use crate::protection::{
    protected_output, ProtectionMonitor, Rail, SharedRailProtectionMonitor,
    SinkProtectionEvent, SinkProtectionMonitor,
};
use vstd::prelude::*;

verus! {

/// A monitor that watches an output which has been on for a while, with its
/// voltage settled, and that holds nothing against it.
pub open spec fn settled(monitor: ProtectionMonitor, output: ChannelSnapshot) -> bool {
    &&& output.physical_enabled
    &&& monitor.active
    &&& monitor.grace_remaining == 0
    &&& monitor.voltage_settle_remaining == 0
    &&& monitor.tracked_drive_mv == output.drive_mv
    &&& monitor.voltage_samples == 0
    &&& monitor.overcurrent_samples == 0
}

/// A valid sample whose current the output may carry: its limit in constant
/// voltage, a quarter and 100 mA more in constant current, and 3.3 A at most.
pub open spec fn current_allowed(output: ChannelSnapshot, sample: Measurement) -> bool {
    &&& sample.valid
    &&& match output.regulation_mode {
        RegulationMode::Cv => sample.milliamps <= output.current_limit_ma,
        RegulationMode::Cc => sample.milliamps <= 3_300 && (sample.milliamps - 100) * 100
            <= output.current_limit_ma * 125,
    }
}

/// A valid sample whose current the output may not carry.
pub open spec fn current_exceeded(output: ChannelSnapshot, sample: Measurement) -> bool {
    sample.valid && !current_allowed(output, sample)
}

/// A voltage below four fifths or above six fifths of the setpoint. In constant
/// current the voltage may be as low as the load makes it.
pub open spec fn voltage_off(output: ChannelSnapshot, sample: Measurement) -> bool {
    ||| output.regulation_mode == RegulationMode::Cv && sample.millivolts * 5 < output.setpoint_mv
        * 4
    ||| sample.millivolts * 5 > output.setpoint_mv * 6
}

/// A voltage outside the window trips with the third sample in a row, and not
/// before.
pub proof fn a_voltage_outside_its_window_trips(
    monitor: ProtectionMonitor,
    output: ChannelSnapshot,
    first: Measurement,
    second: Measurement,
    third: Measurement,
)
    requires
        settled(monitor, output),
        current_allowed(output, first) && voltage_off(output, first),
        current_allowed(output, second) && voltage_off(output, second),
        current_allowed(output, third) && voltage_off(output, third),
    ensures
        ({
            let one = monitor.after(output, first, true);
            let two = one.0.after(output, second, true);
            let three = two.0.after(output, third, true);
            &&& one.1 is None
            &&& two.1 is None
            &&& three.1 == Some(Fault::Hardware)
            &&& three.0.trip == third
        }),
{
}

/// A sample inside the window and inside the current limit never trips an
/// output that is on, and what was counted before it counts no more.
pub proof fn a_good_sample_starts_over(
    monitor: ProtectionMonitor,
    output: ChannelSnapshot,
    sample: Measurement,
    voltage_tracking: bool,
)
    requires
        output.physical_enabled,
        current_allowed(output, sample),
        sample.milliamps <= 3_300,
        !voltage_off(output, sample),
    ensures
        ({
            let (next, fault) = monitor.after(output, sample, voltage_tracking);
            &&& fault is None
            &&& monitor.active && monitor.grace_remaining == 0 ==> next.voltage_samples == 0
                && next.overcurrent_samples == 0
            &&& settled(monitor, output) ==> settled(next, output)
        }),
{
}

/// A current above the limit trips with the third sample in a row, and not
/// before, whatever the voltage.
pub proof fn a_current_above_its_limit_trips(
    monitor: ProtectionMonitor,
    output: ChannelSnapshot,
    first: Measurement,
    second: Measurement,
    third: Measurement,
    voltage_tracking: bool,
)
    requires
        settled(monitor, output),
        current_exceeded(output, first),
        current_exceeded(output, second),
        current_exceeded(output, third),
    ensures
        ({
            let one = monitor.after(output, first, voltage_tracking);
            let two = one.0.after(output, second, voltage_tracking);
            let three = two.0.after(output, third, voltage_tracking);
            &&& one.1 is None
            &&& two.1 is None
            &&& three.1 == Some(Fault::OverCurrent)
            &&& three.0.trip == third
        }),
{
}

/// Without voltage tracking no voltage trips.
pub proof fn untracked_voltages_never_trip(
    monitor: ProtectionMonitor,
    output: ChannelSnapshot,
    sample: Measurement,
)
    requires
        current_allowed(output, sample),
        sample.milliamps <= 3_300,
    ensures
        monitor.after(output, sample, false).1 is None,
{
}

/// A monitor after some samples of the same output.
pub open spec fn watched(
    monitor: ProtectionMonitor,
    output: ChannelSnapshot,
    samples: Seq<Measurement>,
    voltage_tracking: bool,
) -> ProtectionMonitor
    decreases samples.len(),
{
    if samples.len() == 0 {
        monitor
    } else {
        watched(monitor, output, samples.drop_last(), voltage_tracking).after(
            output,
            samples.last(),
            voltage_tracking,
        ).0
    }
}

/// The first ten samples of an output that goes on trip for a gross overcurrent
/// alone; from the eleventh on everything counts.
pub proof fn the_startup_lasts_ten_samples(
    monitor: ProtectionMonitor,
    output: ChannelSnapshot,
    samples: Seq<Measurement>,
    next: Measurement,
    voltage_tracking: bool,
)
    requires
        output.physical_enabled,
        !monitor.active,
        samples.len() <= 10,
        forall|i: int| 0 <= i < samples.len() ==> (#[trigger] samples[i]).valid,
        next.valid,
    ensures
        samples.len() < 10 ==> watched(monitor, output, samples, voltage_tracking).after(
            output,
            next,
            voltage_tracking,
        ).1 == if next.milliamps > 3_300 {
            Some(Fault::OverCurrent)
        } else {
            None
        },
        samples.len() == 10 ==> settled(
            watched(monitor, output, samples, voltage_tracking),
            output,
        ),
{
    lemma_startup(monitor, output, samples, voltage_tracking);
}

proof fn lemma_startup(
    monitor: ProtectionMonitor,
    output: ChannelSnapshot,
    samples: Seq<Measurement>,
    voltage_tracking: bool,
)
    requires
        output.physical_enabled,
        !monitor.active,
        samples.len() <= 10,
        forall|i: int| 0 <= i < samples.len() ==> (#[trigger] samples[i]).valid,
    ensures
        ({
            let now = watched(monitor, output, samples, voltage_tracking);
            samples.len() > 0 ==> {
                &&& now.active
                &&& now.grace_remaining == 10 - samples.len()
                &&& now.voltage_settle_remaining == 0
                &&& now.tracked_drive_mv == output.drive_mv
                &&& now.voltage_samples == 0
                &&& now.overcurrent_samples == 0
                &&& now.samples_since_enable == samples.len()
            }
        }),
    decreases samples.len(),
{
    reveal_with_fuel(watched, 2);
    if samples.len() > 0 {
        lemma_startup(monitor, output, samples.drop_last(), voltage_tracking);
        assert(samples.last().valid);
    }
}

/// A new drive voltage has 25 samples to settle: while they last no voltage
/// trips, and after them everything counts again. The current counts all along.
pub proof fn a_new_drive_has_25_samples_to_settle(
    monitor: ProtectionMonitor,
    output: ChannelSnapshot,
    samples: Seq<Measurement>,
    next: Measurement,
)
    requires
        output.physical_enabled,
        monitor.active,
        monitor.grace_remaining == 0,
        monitor.tracked_drive_mv != output.drive_mv,
        samples.len() <= 25,
        forall|i: int| 0 <= i < samples.len() ==> current_allowed(output, #[trigger] samples[i]),
        current_allowed(output, next),
    ensures
        samples.len() < 25 ==> watched(monitor, output, samples, true).after(
            output,
            next,
            true,
        ).1 is None,
        samples.len() == 25 ==> settled(watched(monitor, output, samples, true), output),
{
    lemma_settling(monitor, output, samples);
}

proof fn lemma_settling(
    monitor: ProtectionMonitor,
    output: ChannelSnapshot,
    samples: Seq<Measurement>,
)
    requires
        output.physical_enabled,
        monitor.active,
        monitor.grace_remaining == 0,
        monitor.tracked_drive_mv != output.drive_mv,
        samples.len() <= 25,
        forall|i: int| 0 <= i < samples.len() ==> current_allowed(output, #[trigger] samples[i]),
    ensures
        ({
            let now = watched(monitor, output, samples, true);
            samples.len() > 0 ==> {
                &&& now.active
                &&& now.grace_remaining == 0
                &&& now.voltage_settle_remaining == 25 - samples.len()
                &&& now.tracked_drive_mv == output.drive_mv
                &&& now.voltage_samples == 0
                &&& now.overcurrent_samples == 0
            }
        }),
    decreases samples.len(),
{
    reveal_with_fuel(watched, 2);
    if samples.len() > 0 {
        lemma_settling(monitor, output, samples.drop_last());
        assert(current_allowed(output, samples.last()));
    }
}

/// A monitor keeps what its last sample was, the highest current since the
/// output went on, and the sample of its last trip.
pub proof fn monitors_keep_the_evidence(
    monitor: ProtectionMonitor,
    output: ChannelSnapshot,
    sample: Measurement,
    voltage_tracking: bool,
)
    ensures
        ({
            let (next, fault) = monitor.after(output, sample, voltage_tracking);
            &&& fault is Some ==> next.trip == sample && output.physical_enabled
            &&& fault is None ==> next.trip == monitor.trip
            &&& output.physical_enabled ==> next.last == sample
            &&& output.physical_enabled && sample.valid && monitor.active ==> {
                &&& next.peak_milliamps >= sample.milliamps
                &&& next.peak_milliamps >= monitor.peak_milliamps
                &&& next.peak_milliamps == sample.milliamps || next.peak_milliamps
                    == monitor.peak_milliamps
                &&& monitor.samples_since_enable < u16::MAX ==> next.samples_since_enable
                    == monitor.samples_since_enable + 1
            }
            &&& output.physical_enabled && sample.valid && !monitor.active ==> {
                &&& next.peak_milliamps == sample.milliamps
                &&& next.samples_since_enable == 1
            }
            &&& next.active <==> output.physical_enabled && (sample.valid || monitor.active)
        }),
{
}

/// A channel that plays a waveform is held to its current limit, and to no
/// voltage; every other channel is held to its settings.
pub proof fn waveforms_are_held_to_their_current(state: AppState, channel: u8)
    requires
        channel < 5,
    ensures
        ({
            let output = state.channels[channel as int];
            let held = protected_output(state, channel);
            &&& held.physical_enabled == output.physical_enabled
            &&& held.current_limit_ma == output.current_limit_ma
            &&& held.drive_mv == output.drive_mv
            &&& state.awg_status == AwgStatus::Running && channel == state.awg_channel()
                ==> held.regulation_mode == RegulationMode::Cv && held.setpoint_mv
                == output.drive_mv
            &&& !(state.awg_status == AwgStatus::Running && channel == state.awg_channel())
                ==> held == output
        }),
{
}

/// The input current that both the user and the source allow.
pub open spec fn input_current_allowed(state: AppState, sample: Measurement) -> bool {
    &&& sample.milliamps <= state.sink_current_limit_ma
    &&& state.pd_contract matches Some(contract) ==> sample.milliamps
        <= contract.operating_milliamps
}

/// An input voltage from four fifths to six fifths of the negotiated one.
pub open spec fn input_voltage_allowed(state: AppState, sample: Measurement) -> bool {
    state.pd_contract matches Some(contract) && contract.millivolts * 4 <= sample.millivolts * 5
        <= contract.millivolts * 6
}

/// A loaded input under a contract whose current is no gross one: a quarter and
/// 100 mA above what is allowed, and 5.5 A at most.
pub open spec fn input_watched(state: AppState, sample: Measurement) -> bool {
    &&& state.sink_fault == Fault::Clear
    &&& state.any_active()
    &&& sample.valid
    &&& sample.milliamps <= 5_500
    &&& (sample.milliamps - 100) * 100 <= state.sink_current_limit_ma * 125
    &&& state.pd_contract matches Some(contract) && (sample.milliamps - 100) * 100
        <= contract.operating_milliamps * 125
}

/// A loaded input trips at once without a sensor, without a contract, and for a
/// gross overcurrent; without a load it never trips.
pub proof fn inputs_trip_at_once_for_gross_faults(
    monitor: SinkProtectionMonitor,
    state: AppState,
    sample: Measurement,
)
    requires
        state.sink_fault == Fault::Clear,
    ensures
        !state.any_active() ==> monitor.after(state, sample).1 is None,
        state.any_active() && !sample.valid ==> monitor.after(state, sample).1 == Some(
            SinkProtectionEvent::Trip(Fault::Sensor),
        ),
        state.any_active() && sample.valid && state.pd_contract is None ==> monitor.after(
            state,
            sample,
        ).1 == Some(SinkProtectionEvent::Trip(Fault::Hardware)),
        state.any_active() && sample.valid && state.pd_contract is Some && !input_watched(
            state,
            sample,
        ) ==> monitor.after(state, sample).1 == Some(
            SinkProtectionEvent::Trip(Fault::OverCurrent),
        ),
{
}

/// A loaded input that draws more than is allowed trips with the third sample
/// in a row, and not before.
pub proof fn inputs_trip_for_a_current_above_the_limit(
    monitor: SinkProtectionMonitor,
    state: AppState,
    first: Measurement,
    second: Measurement,
    third: Measurement,
)
    requires
        monitor.overcurrent_samples == 0,
        monitor.voltage_samples == 0,
        input_watched(state, first) && !input_current_allowed(state, first),
        input_watched(state, second) && !input_current_allowed(state, second),
        input_watched(state, third) && !input_current_allowed(state, third),
    ensures
        ({
            let one = monitor.after(state, first);
            let two = one.0.after(state, second);
            let three = two.0.after(state, third);
            &&& one.1 is None
            &&& two.1 is None
            &&& three.1 == Some(SinkProtectionEvent::Trip(Fault::OverCurrent))
        }),
{
}

/// A loaded input whose voltage is not the negotiated one trips with the third
/// sample in a row, and not before.
pub proof fn inputs_trip_for_a_voltage_off_the_contract(
    monitor: SinkProtectionMonitor,
    state: AppState,
    first: Measurement,
    second: Measurement,
    third: Measurement,
)
    requires
        monitor.overcurrent_samples == 0,
        monitor.voltage_samples == 0,
        input_watched(state, first) && input_current_allowed(state, first)
            && !input_voltage_allowed(state, first),
        input_watched(state, second) && input_current_allowed(state, second)
            && !input_voltage_allowed(state, second),
        input_watched(state, third) && input_current_allowed(state, third)
            && !input_voltage_allowed(state, third),
    ensures
        ({
            let one = monitor.after(state, first);
            let two = one.0.after(state, second);
            let three = two.0.after(state, third);
            &&& one.1 is None
            &&& two.1 is None
            &&& three.1 == Some(SinkProtectionEvent::Trip(Fault::Hardware))
        }),
{
}

/// A sample of the input that is as it should be never trips, and starts both
/// counts over.
pub proof fn good_inputs_never_trip(
    monitor: SinkProtectionMonitor,
    state: AppState,
    sample: Measurement,
)
    requires
        state.sink_fault == Fault::Clear,
        sample.valid,
        state.pd_contract is Some,
        input_current_allowed(state, sample),
        input_voltage_allowed(state, sample),
        sample.milliamps <= 5_500,
    ensures
        monitor.after(state, sample).1 is None,
        monitor.after(state, sample).0.overcurrent_samples == 0,
        monitor.after(state, sample).0.voltage_samples == 0,
{
}

/// An input monitor after some samples, while the state stays as it is.
pub open spec fn input_after(
    monitor: SinkProtectionMonitor,
    state: AppState,
    samples: Seq<Measurement>,
) -> (SinkProtectionMonitor, Option<SinkProtectionEvent>)
    decreases samples.len(),
{
    if samples.len() == 0 {
        (monitor, None)
    } else {
        input_after(monitor, state, samples.drop_last()).0.after(state, samples.last())
    }
}

/// A latched input fault is cleared by the tenth good sample in a row with every
/// output off, and not before.
pub proof fn inputs_recover_after_ten_good_samples(
    monitor: SinkProtectionMonitor,
    state: AppState,
    samples: Seq<Measurement>,
)
    requires
        state.sink_fault != Fault::Clear,
        !state.any_active(),
        monitor.recovery_samples == 0,
        1 <= samples.len() <= 10,
        forall|i: int|
            0 <= i < samples.len() ==> (#[trigger] samples[i]).valid && input_current_allowed(
                state,
                samples[i],
            ) && input_voltage_allowed(state, samples[i]),
    ensures
        input_after(monitor, state, samples).1 == if samples.len() == 10 {
            Some(SinkProtectionEvent::Recovered)
        } else {
            None
        },
        input_after(monitor, state, samples).0.recovery_samples == samples.len() as int % 10,
    decreases samples.len(),
{
    let last = samples.last();
    assert(last == samples[samples.len() - 1]);
    if samples.len() > 1 {
        inputs_recover_after_ten_good_samples(monitor, state, samples.drop_last());
    } else {
        assert(input_after(monitor, state, samples.drop_last()).0 == monitor);
    }
}

/// While a fault is latched, a sample that is not as it should be, and any load,
/// starts the recovery over; nothing trips a second time.
pub proof fn a_bad_input_starts_the_recovery_over(
    monitor: SinkProtectionMonitor,
    state: AppState,
    sample: Measurement,
)
    requires
        state.sink_fault != Fault::Clear,
        state.any_active() || !sample.valid || !input_current_allowed(state, sample)
            || !input_voltage_allowed(state, sample),
    ensures
        monitor.after(state, sample).1 is None,
        monitor.after(state, sample).0.recovery_samples == 0,
{
}

/// The current that the two channels of a converter draw together; a channel
/// that is off draws none.
pub open spec fn rail_current(state: AppState, samples: [Measurement; 5], rail: Rail) -> int {
    let first: int = match rail {
        Rail::Dc1 => 0,
        Rail::Dc2 => 2,
    };
    (if state.channels[first].physical_enabled {
        samples[first].milliamps as int
    } else {
        0
    }) + if state.channels[first + 1].physical_enabled {
        samples[first + 1].milliamps as int
    } else {
        0
    }
}

/// True when the sensor of a channel on the converter is missing while the
/// channel is on.
pub open spec fn rail_unseen(state: AppState, samples: [Measurement; 5], rail: Rail) -> bool {
    match rail {
        Rail::Dc1 => state.channels[0].physical_enabled && !samples[0].valid
            || state.channels[1].physical_enabled && !samples[1].valid,
        Rail::Dc2 => state.channels[2].physical_enabled && !samples[2].valid
            || state.channels[3].physical_enabled && !samples[3].valid,
    }
}

/// A shared converter trips with the third sample in a row above 5 A, at once
/// where it cannot be seen, and never else.
pub proof fn shared_converters_trip_above_five_amperes(
    monitor: SharedRailProtectionMonitor,
    state: AppState,
    samples: [Measurement; 5],
    rail: Rail,
)
    ensures
        ({
            let (count, fault) = monitor.after(state, samples, rail);
            let before = monitor.overcurrent_samples[match rail {
                Rail::Dc1 => 0,
                Rail::Dc2 => 1,
            }];
            if rail_unseen(state, samples, rail) {
                count == 0 && fault == Some(Fault::Sensor)
            } else if rail_current(state, samples, rail) > 5_000 {
                &&& before < 255 ==> count == before + 1
                &&& fault == if before >= 2 {
                    Some(Fault::OverCurrent)
                } else {
                    None
                }
            } else {
                count == 0 && fault is None
            }
        }),
{
}

/// A temperature of 75 degrees or more trips everything that is on or asked to
/// be, and so does a missing sensor; below 75 degrees nothing trips. What is off
/// is left alone.
pub proof fn heat_trips_at_75_degrees(state: AppState, raw: i16, channel: int, fault: Fault)
    requires
        0 <= channel < 5,
    ensures
        sample_fault(Some(raw)) == if raw >= 1_200 {
            Some(Fault::OverTemperature)
        } else {
            None
        },
        sample_fault(None) == Some(Fault::Sensor),
        trip_of(state, channel, fault) == if state.channels[channel].requested_enabled
            || state.channels[channel].physical_enabled {
            Some(Action::ProtectionTrip { channel: channel as u8, fault })
        } else {
            None
        },
{
}

/// An output may go on only with recovery armed, a valid temperature below 70
/// degrees, a sensor that answers, no fault of the input, a contract, and a
/// limit of 3 A at most; what is missing says how the request is refused.
pub proof fn enabling_needs_everything_in_order(state: AppState, channel: u8)
    ensures
        ineligibility(state, channel) is None <==> {
            &&& channel < 5
            &&& state.recovery_armed
            &&& state.temp_valid
            &&& state.temp_sixteenths_c < 1_120
            &&& state.channels[channel as int].measurement.valid
            &&& state.sink_fault == Fault::Clear
            &&& state.pd_contract is Some
            &&& state.channels[channel as int].current_limit_ma <= 3_000
        },
        ineligibility(state, channel) == Some(Fault::OverTemperature) ==> state.sink_fault
            == Fault::OverTemperature || state.temp_sixteenths_c >= 1_120,
        channel < 5 && (!state.temp_valid || !state.recovery_armed
            || !state.channels[channel as int].measurement.valid) ==> ineligibility(
            state,
            channel,
        ) == Some(Fault::Sensor),
        ineligibility(state, channel) == Some(Fault::Sensor) ==> channel < 5 && (!state.temp_valid
            || !state.recovery_armed || !state.channels[channel as int].measurement.valid
            || state.sink_fault == Fault::Sensor),
{
}

/// An output that is off is not watched: it never trips, its counts start over,
/// and what was seen of it last is kept.
pub proof fn an_output_that_is_off_is_not_watched(
    monitor: ProtectionMonitor,
    output: ChannelSnapshot,
    measurement: Measurement,
    voltage_tracking: bool,
)
    requires
        !output.physical_enabled,
    ensures
        ({
            let (next, fault) = monitor.after(output, measurement, voltage_tracking);
            &&& fault is None
            &&& !next.active
            &&& next.grace_remaining == 0
            &&& next.overcurrent_samples == 0
            &&& next.voltage_samples == 0
            &&& next.samples_since_enable == 0
            &&& next.last == monitor.last
            &&& next.trip == monitor.trip
            &&& next.peak_milliamps == monitor.peak_milliamps
        }),
{
}

} // verus!
