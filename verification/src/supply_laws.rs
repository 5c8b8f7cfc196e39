//! What the input contract, the converters and the measurements promise.

use crate::app::{Action, AppState, Fault};
use crate::board::adc::{channel_measurement, input_millivolts, reading};
use crate::board::power::dac_code;
use crate::little_endian::{bytes32, le16, le32};
use crate::monitoring::{confirmed, observed_fault, rail_fault, rail_trips, sample_fault};
use crate::monitoring::TpsStatusObservation;
use crate::negotiator::{
    data, imported, objects, reads, stepped, stepped_to, succeeded, ticked_actively,
    ticked_passively, writes, PdEvent, Service, ServiceEvent, State,
};
use crate::pd::{
    capabilities_wf, fixed_pdo, object_count, offered, passive_contract, request, richest,
    sink_fixed_pdo, Contract, FixedPdo, PdError, Rdo, Selection, Transfer,
};
use crate::protection::Rail;
use crate::settings::{PersistentSettings, SettingsDebouncer};
use crate::tps55289::{current_code, output_mode, pwm_mode, status_fault, voltage_code};
use vstd::prelude::*;

verus! {

/// A fixed supply counts its voltage in 50 mV and its current in 10 mA,
/// whatever else its object says of the source.
pub proof fn supplies_count_volts_and_amperes(
    flags: u32,
    volts: u32,
    amperes: u32,
    source_position: u8,
)
    requires
        flags < 0x400,
        0 < volts < 0x400,
        0 < amperes < 0x400,
        1 <= source_position <= 7,
    ensures
        fixed_pdo((flags * 0x10_0000 + volts * 0x400 + amperes) as u32, source_position) == Some(
            FixedPdo {
                source_position,
                millivolts: (volts * 50) as u16,
                milliamps: (amperes * 10) as u16,
            },
        ),
{
    let raw = flags * 0x10_0000 + volts * 0x400 + amperes;
    assert(raw / 0x400 == flags * 0x400 + volts);
    assert(raw % 0x400 == amperes);
    assert((flags * 0x400 + volts) % 0x400 == volts);
}

/// An object that is not a fixed supply, or that offers nothing, is no supply.
pub proof fn other_objects_are_no_supply(raw: u32, source_position: u8)
    requires
        raw >= 0x4000_0000 || raw % 0x400 == 0 || raw / 0x400 % 0x400 == 0 || source_position == 0
            || source_position > 7,
    ensures
        fixed_pdo(raw, source_position) is None,
{
}

/// The choice among the objects of a source: every fixed supply within the
/// voltage limit gives at most the power of the chosen one, at the current that
/// the cap and 5 A allow; where nothing is chosen, no such supply is offered.
pub proof fn the_choice_gives_the_most_power(
    raw_pdos: Seq<u32>,
    max_voltage_mv: u16,
    current_cap_ma: u16,
    chosen: Option<Selection>,
    index: int,
)
    requires
        richest(raw_pdos, offered(raw_pdos), max_voltage_mv, current_cap_ma, chosen),
        0 <= index < raw_pdos.len(),
        index < 7,
    ensures
        ({
            let millivolts = raw_pdos[index] as int / 0x400 % 0x400 * 50;
            let milliamps = raw_pdos[index] as int % 0x400 * 10;
            let capped = if milliamps < current_cap_ma {
                milliamps
            } else {
                current_cap_ma as int
            };
            let drawn = if capped < 5_000 {
                capped
            } else {
                5_000
            };
            let usable = raw_pdos[index] < 0x4000_0000 && 0 < millivolts <= max_voltage_mv
                && drawn >= 10;
            &&& usable ==> chosen is Some
            &&& usable ==> chosen->Some_0.source.millivolts
                * chosen->Some_0.requested_milliamps >= millivolts * drawn
            &&& chosen is Some && chosen->Some_0.source.source_position == index + 1 ==> {
                &&& chosen->Some_0.source.millivolts == millivolts
                &&& chosen->Some_0.source.milliamps == milliamps
                &&& chosen->Some_0.requested_milliamps == drawn
                &&& usable
            }
        }),
{
    let found = crate::pd::candidate(raw_pdos, index, max_voltage_mv, current_cap_ma);
    assert(found == crate::pd::candidate(raw_pdos, index, max_voltage_mv, current_cap_ma));
}

/// What the sink asks for counts its voltage in 50 mV and its current in 10 mA;
/// it never asks for more than 20 V or 5 A.
pub proof fn requests_stay_in_the_product(millivolts: u16, milliamps: u16)
    ensures
        sink_fixed_pdo(millivolts, milliamps) matches Some(raw) ==> {
            &&& raw as int / 0x400 * 50 == millivolts
            &&& raw as int % 0x400 * 10 == milliamps
            &&& 0 < millivolts <= 20_000
            &&& 0 < milliamps <= 5_000
        },
        0 < millivolts <= 20_000 && millivolts % 50 == 0 && 0 < milliamps <= 5_000 && milliamps % 10
            == 0 ==> sink_fixed_pdo(millivolts, milliamps) is Some,
{
}

/// A request names the object, and counts both currents in 10 mA.
pub proof fn requests_name_their_object(
    position: int,
    mismatch: bool,
    operating: int,
    maximum: int,
)
    requires
        1 <= position <= 7,
        0 <= operating < 0x400,
        0 <= maximum < 0x400,
    ensures
        request(
            position * 0x1000_0000 + (if mismatch {
                0x400_0000int
            } else {
                0
            }) + operating * 0x400 + maximum,
        ) == Ok::<Rdo, PdError>(
            Rdo {
                source_position: position as u8,
                operating_milliamps: (operating * 10) as u16,
                maximum_milliamps: (maximum * 10) as u16,
                capability_mismatch: mismatch,
            },
        ),
        request(operating * 0x400 + maximum) is Err,
{
    let flag: int = if mismatch {
        1
    } else {
        0
    };
    let raw = position * 0x1000_0000 + flag * 0x400_0000 + operating * 0x400 + maximum;
    assert(raw / 0x1000_0000 == position);
    assert(raw / 0x400_0000 == position * 4 + flag);
    assert(raw / 0x400 == position * 0x4_0000 + flag * 0x1_0000 + operating);
    assert((position * 0x4_0000 + flag * 0x1_0000 + operating) % 0x400 == operating);
    assert(raw % 0x400 == maximum);
}

/// A contract that is taken over has the voltage of a stored profile within a
/// fifth of the measured voltage, and the request's currents; none is taken
/// over from a request that is mismatched or for nothing, or without a voltage.
pub proof fn contracts_are_taken_over_by_their_voltage(
    sink_pdos: Seq<u32>,
    raw_rdo: int,
    measured_vbus_mv: u16,
    contract: Contract,
)
    requires
        passive_contract(sink_pdos, raw_rdo, measured_vbus_mv, Ok(contract)),
    ensures
        80 * contract.millivolts <= 100 * measured_vbus_mv <= 120 * contract.millivolts,
        contract.millivolts <= 20_000,
        exists|i: int|
            0 <= i < sink_pdos.len() && i < 3 && (#[trigger] sink_pdos[i]) as int / 0x400 % 0x400
                * 50 == contract.millivolts,
        contract.source_position == raw_rdo / 0x1000_0000 % 8,
        contract.operating_milliamps == raw_rdo / 0x400 % 0x400 * 10,
        contract.maximum_milliamps == raw_rdo % 0x400 * 10,
        contract.source_position > 0,
        contract.operating_milliamps > 0,
        contract.maximum_milliamps > 0,
        raw_rdo / 0x400_0000 % 2 == 0,
        measured_vbus_mv > 0,
{
    let at = choose|at: int|
        {
            &&& 0 <= at < crate::pd::held(sink_pdos)
            &&& (#[trigger] crate::pd::profile_match(sink_pdos, at, measured_vbus_mv)) == Some(
                contract.millivolts,
            )
        };
    assert(sink_pdos[at] as int / 0x400 % 0x400 * 50 == contract.millivolts);
}

/// A message of source capabilities has type 1 and carries one to seven objects
/// of four bytes.
pub proof fn capabilities_carry_objects(kind: int, low: int, count: int, byte_count: u8, bytes: Seq<u8>)
    requires
        0 <= kind < 0x20,
        0 <= low < 0x80,
        0 <= count < 8,
    ensures
        object_count(count * 0x1000 + low * 0x20 + kind) == count,
        capabilities_wf(count * 0x1000 + low * 0x20 + kind, byte_count, bytes) <==> kind == 1
            && count >= 1 && byte_count == 4 * count && bytes.len() == 4 * count,
{
    let header = count * 0x1000 + low * 0x20 + kind;
    assert(header / 0x1000 == count);
    assert(header % 0x20 == kind);
}

/// A negotiation begins with a known controller and an attached source, which
/// it reads from the controller, and then has half a second.
pub proof fn discovery_needs_a_controller_and_a_source(
    current_cap_ma: u16,
    now: u16,
    transfers: Seq<Transfer>,
    next: State,
    result: Result<Option<PdEvent>, PdError>,
)
    requires
        stepped(State::Discover, current_cap_ma, now, transfers, next, result),
    ensures
        reads(transfers[0], 0x2f, 1),
        result is Ok ==> {
            &&& transfers.len() == 2
            &&& reads(transfers[1], 0x0e, 1)
            &&& data(transfers[0])[0] == 0x25 || data(transfers[0])[0] == 0x21
            &&& data(transfers[1])[0] % 2 == 1
            &&& next == (State::WaitReady {
                deadline: crate::executor::clock_after(now, 500),
            })
            &&& result == Ok::<Option<PdEvent>, PdError>(None)
        },
        succeeded(transfers[0]) && data(transfers[0])[0] != 0x25 && data(transfers[0])[0] != 0x21
            ==> result == Err::<Option<PdEvent>, PdError>(PdError::WrongDevice),
        result is Err ==> next == State::Discover,
{
    if transfers.len() > 1 {
        let status = data(transfers[1])[0];
        assert(status & 1 != 0 <==> status % 2 == 1) by (bit_vector);
    }
}

/// Once the policy engine is ready, the capabilities are asked for; before that
/// the negotiation waits, until its deadline.
pub proof fn readiness_is_awaited(
    deadline: u16,
    current_cap_ma: u16,
    now: u16,
    transfers: Seq<Transfer>,
    next: State,
    result: Result<Option<PdEvent>, PdError>,
)
    requires
        stepped(State::WaitReady { deadline }, current_cap_ma, now, transfers, next, result),
        forall|i: int| 0 <= i < transfers.len() ==> succeeded(#[trigger] transfers[i]),
    ensures
        reads(transfers[0], 0x29, 1),
        ({
            let ready = data(transfers[0])[0] == 0x18;
            let late = crate::executor::clock_reached(now, deadline);
            &&& ready ==> {
                &&& transfers.len() == 3
                &&& writes(transfers[1], 0x51, seq![0x07u8, 0x00u8])
                &&& writes(transfers[2], 0x1a, seq![0x26u8])
                &&& next == (State::WaitCapabilities {
                    deadline: crate::executor::clock_after(now, 500),
                })
                &&& result == Ok::<Option<PdEvent>, PdError>(None)
            }
            &&& !ready && late ==> result == Err::<Option<PdEvent>, PdError>(PdError::Timeout)
            &&& !ready && !late ==> result == Ok::<Option<PdEvent>, PdError>(None) && next
                == (State::WaitReady { deadline }) && transfers.len() == 1
        }),
{
    assert(crate::pd::GET_SOURCE_CAPABILITIES@ =~= seq![0x07u8, 0x00u8]);
}

/// The capabilities that arrive are chosen from within 20 V and the cap. What
/// is chosen is written as the sink's third profile, and the source is asked
/// again.
pub proof fn the_choice_is_written(
    deadline: u16,
    current_cap_ma: u16,
    now: u16,
    transfers: Seq<Transfer>,
    next: State,
    selection: Selection,
    until: u16,
)
    requires
        stepped(
            State::WaitCapabilities { deadline },
            current_cap_ma,
            now,
            transfers,
            next,
            Ok(None),
        ),
        next == (State::WaitContract { deadline: until, selection }),
    ensures
        ({
            let header = le16(data(transfers[1])[0], data(transfers[1])[1]);
            let count = header / 0x1000 % 8;
            &&& transfers.len() == 7
            &&& reads(transfers[0], 0x16, 1)
            &&& data(transfers[0])[0] & 0x04 != 0
            &&& reads(transfers[1], 0x31, 2)
            &&& header % 0x20 == 1
            &&& reads(transfers[2], 0x30, 1)
            &&& data(transfers[2])[0] == count * 4
            &&& reads(transfers[3], 0x33, count * 4)
            &&& richest(
                objects(data(transfers[3]), count),
                count,
                20_000,
                current_cap_ma,
                Some(selection),
            )
            &&& writes(
                transfers[4],
                0x8d,
                bytes32(
                    sink_fixed_pdo(
                        selection.source.millivolts,
                        selection.requested_milliamps,
                    )->Some_0,
                ),
            )
            &&& writes(transfers[5], 0x51, seq![0x07u8, 0x00u8])
            &&& writes(transfers[6], 0x1a, seq![0x26u8])
            &&& until == crate::executor::clock_after(now, 500)
        }),
{
    assert(crate::pd::GET_SOURCE_CAPABILITIES@ =~= seq![0x07u8, 0x00u8]);
}

/// A contract is reported once a source that is attached and ready holds a
/// request for exactly what was selected, without a mismatch.
pub proof fn contracts_are_what_the_source_grants(
    deadline: u16,
    selection: Selection,
    current_cap_ma: u16,
    now: u16,
    transfers: Seq<Transfer>,
    next: State,
    contract: Contract,
)
    requires
        stepped(
            State::WaitContract { deadline, selection },
            current_cap_ma,
            now,
            transfers,
            next,
            Ok(Some(PdEvent::Negotiated(contract))),
        ),
    ensures
        ({
            let raw = le32(data(transfers[2]), 0);
            &&& transfers.len() == 3
            &&& reads(transfers[0], 0x0e, 1)
            &&& data(transfers[0])[0] & 1 != 0
            &&& reads(transfers[1], 0x29, 1)
            &&& data(transfers[1])[0] == 0x18
            &&& reads(transfers[2], 0x91, 4)
            &&& raw / 0x400_0000 % 2 == 0
            &&& raw / 0x1000_0000 % 8 == selection.source.source_position
            &&& raw / 0x400 % 0x400 * 10 == selection.requested_milliamps
            &&& raw % 0x400 * 10 == selection.source.milliamps
            &&& next == State::Ready(contract)
            &&& contract.millivolts == selection.source.millivolts
            &&& contract.source_position == selection.source.source_position
            &&& contract.operating_milliamps == selection.requested_milliamps
            &&& contract.maximum_milliamps == selection.source.milliamps
        }),
{
}

/// A contract stands as long as the source is attached and ready and its
/// request is the one that the contract rests on; otherwise it is lost.
pub proof fn contracts_are_watched(
    contract: Contract,
    current_cap_ma: u16,
    now: u16,
    transfers: Seq<Transfer>,
    next: State,
    event: Option<PdEvent>,
)
    requires
        stepped_to(State::Ready(contract), current_cap_ma, now, transfers, next, event),
        forall|i: int| 0 <= i < transfers.len() ==> succeeded(#[trigger] transfers[i]),
    ensures
        ({
            let raw = le32(data(transfers[2]), 0);
            let attached = data(transfers[0])[0] & 1 != 0;
            let ready = data(transfers[1])[0] == 0x18;
            let same = raw / 0x1000_0000 % 8 == contract.source_position && raw / 0x400_0000 % 2
                == 0 && raw / 0x400 % 0x400 * 10 == contract.operating_milliamps && raw % 0x400
                * 10 == contract.maximum_milliamps;
            &&& reads(transfers[0], 0x0e, 1)
            &&& attached ==> reads(transfers[1], 0x29, 1)
            &&& attached && ready ==> reads(transfers[2], 0x91, 4)
            &&& next == State::Ready(contract) ==> attached && ready && same && event is None
            &&& attached && ready && same && contract.source_position > 0 ==> next
                == State::Ready(contract)
            &&& !attached ==> event == Some(PdEvent::Lost(PdError::Detached))
            &&& attached && !ready ==> event == Some(PdEvent::Lost(PdError::Detached))
            &&& attached && ready && !same ==> event == Some(
                PdEvent::Lost(PdError::ContractMismatch),
            )
            &&& event matches Some(PdEvent::Lost(error)) ==> next == State::Failed(error)
        }),
{
}

/// A contract is taken over from a known controller with an attached source
/// that is ready, by reading its one to three profiles and its request.
pub proof fn contracts_are_read_from_the_controller(
    measured_vbus_mv: u16,
    transfers: Seq<Transfer>,
    contract: Contract,
)
    requires
        imported(measured_vbus_mv, transfers, Ok(contract)),
    ensures
        ({
            let held = (data(transfers[3])[0] % 8) as int;
            &&& transfers.len() == 6
            &&& reads(transfers[0], 0x2f, 1)
            &&& data(transfers[0])[0] == 0x25 || data(transfers[0])[0] == 0x21
            &&& reads(transfers[1], 0x0e, 1)
            &&& data(transfers[1])[0] & 1 != 0
            &&& reads(transfers[2], 0x29, 1)
            &&& data(transfers[2])[0] == 0x18
            &&& reads(transfers[3], 0x70, 1)
            &&& 1 <= held <= 3
            &&& reads(transfers[4], 0x85, held * 4)
            &&& reads(transfers[5], 0x91, 4)
            &&& passive_contract(
                objects(data(transfers[4]), held),
                le32(data(transfers[5]), 0),
                measured_vbus_mv,
                Ok(contract),
            )
        }),
{
}

/// A controller that negotiated on its own is looked at every half second, and
/// only with every output off and the input measured.
pub proof fn contracts_are_looked_for_twice_a_second(
    before: Service,
    elapsed_ms: u16,
    outputs_off: bool,
    requested_current_cap_ma: u16,
    measured_vbus_mv: Option<u16>,
    transfers: Seq<Transfer>,
    after: Service,
    events: Seq<Option<ServiceEvent>>,
)
    requires
        ticked_passively(
            before,
            elapsed_ms,
            outputs_off,
            requested_current_cap_ma,
            measured_vbus_mv,
            transfers,
            after,
            events,
        ),
    ensures
        ({
            let due = before.cadence_ms + elapsed_ms >= 500;
            let looks = due && outputs_off && measured_vbus_mv is Some;
            &&& transfers.len() > 0 <==> looks
            &&& after.cadence_ms == if due {
                0
            } else {
                before.cadence_ms + elapsed_ms
            }
            &&& !looks ==> after.negotiator == before.negotiator && after.active == before.active
            &&& looks ==> reads(transfers[0], 0x2f, 1)
            &&& after.active && !before.active ==> events[1] == Some(
                ServiceEvent::Pd(PdEvent::Negotiated(after.negotiator.state->Ready_0)),
            ) && after.negotiator.current_cap_ma == requested_current_cap_ma
            &&& events[0] is None
        }),
{
}

/// A negotiation takes one step every 20 ms, says once that it has started, and
/// ends with the contract.
pub proof fn negotiations_step_every_20_milliseconds(
    before: Service,
    elapsed_ms: u16,
    now: u16,
    transfers: Seq<Transfer>,
    after: Service,
    events: Seq<Option<ServiceEvent>>,
)
    requires
        before.cadence_ms + elapsed_ms < 0x1_0000,
        ticked_actively(before, elapsed_ms, now, transfers, after, events),
    ensures
        ({
            let due = before.cadence_ms + elapsed_ms >= 20;
            &&& !due ==> transfers.len() == 0 && after.negotiator == before.negotiator
                && after.active == before.active
            &&& after.cadence_ms == if due {
                0
            } else {
                before.cadence_ms + elapsed_ms
            }
            &&& events[0] == if before.started_pending {
                Some(ServiceEvent::NegotiationStarted)
            } else {
                None
            }
            &&& !after.started_pending
            &&& due ==> (after.active <==> !(events[1] matches Some(
                ServiceEvent::Pd(PdEvent::Lost(_)),
            )))
            &&& due && before.negotiator.state == State::Discover ==> transfers.len() > 0
            &&& after.negotiator.current_cap_ma == before.negotiator.current_cap_ma
        }),
{
}

/// A short circuit or an overcurrent outranks an overvoltage, which is a
/// hardware fault; the other bits of a converter's status are none.
pub proof fn status_bits_are_faults(short: bool, over: bool, voltage: bool, rest: u8)
    requires
        rest < 0x20,
    ensures
        status_fault(
            ((if short {
                0x80int
            } else {
                0
            }) + (if over {
                0x40int
            } else {
                0
            }) + (if voltage {
                0x20int
            } else {
                0
            }) + rest) as u8,
        ) == if short || over {
            Some(Fault::OverCurrent)
        } else if voltage {
            Some(Fault::Hardware)
        } else {
            None
        },
{
    let high: int = if short {
        0x80
    } else {
        0
    };
    let middle: int = if over {
        0x40
    } else {
        0
    };
    let low: int = if voltage {
        0x20
    } else {
        0
    };
    let status = (high + middle + low + rest) as u8;
    assert((status & 0xc0 != 0 <==> status >= 0x40) && (status & 0x20 != 0 <==> status / 0x20 % 2
        == 1)) by (bit_vector);
}

/// A fault that a converter shows trips on the second look in a row, and not on
/// the first; a trip, a look that shows none, or another one starts over.
pub proof fn faults_need_two_looks(pending: Option<Fault>, fault: Fault, other: Fault)
    requires
        fault != other,
    ensures
        ({
            let (first, early) = confirmed(None, Some(fault));
            let (done, second) = confirmed(first, Some(fault));
            let (_, third) = confirmed(done, Some(fault));
            let (changed, mixed) = confirmed(first, Some(other));
            let (_, settled) = confirmed(changed, Some(other));
            let (cleared, nothing) = confirmed(pending, None);
            let (_, again) = confirmed(cleared, Some(fault));
            &&& early is None
            &&& second == Some(fault)
            &&& third is None
            &&& mixed is None
            &&& settled == Some(other)
            &&& nothing is None
            &&& again is None
        }),
{
}

/// A fault of a shared converter trips the channels on it that are active, and
/// no others; an idle converter shows no fault.
pub proof fn converters_trip_their_own_channels(
    state: AppState,
    fault: Fault,
    observation: TpsStatusObservation,
)
    ensures
        ({
            let on = |i: int|
                state.channels[i].physical_enabled || state.channels[i].requested_enabled;
            let trip = |i: int|
                if on(i) {
                    Some(Action::ProtectionTrip { channel: i as u8, fault })
                } else {
                    None
                };
            let low = rail_trips(state, Rail::Dc1, Some(fault));
            let middle = rail_trips(state, Rail::Dc2, Some(fault));
            &&& low.len() == 2 && low[0] == trip(0) && low[1] == trip(1)
            &&& middle.len() == 2 && middle[0] == trip(2) && middle[1] == trip(3)
            &&& rail_trips(state, Rail::Dc1, None) =~= seq![None, None]
            &&& rail_trips(state, Rail::Dc2, None) =~= seq![None, None]
            &&& !on(0) && !on(1) ==> rail_fault(state, Rail::Dc1, observation) is None
            &&& !on(2) && !on(3) ==> rail_fault(state, Rail::Dc2, observation) is None
            &&& on(0) || on(1) ==> rail_fault(state, Rail::Dc1, observation) == observed_fault(
                observation,
            )
            &&& on(2) || on(3) ==> rail_fault(state, Rail::Dc2, observation) == observed_fault(
                observation,
            )
            &&& observed_fault(TpsStatusObservation::ReadError) == Some(Fault::Hardware)
            &&& observed_fault(TpsStatusObservation::Inactive) is None
        }),
{
}

/// A temperature of 75 degrees and more is a fault, and so is no temperature.
pub proof fn heat_and_silence_are_faults(raw: i16)
    ensures
        sample_fault(Some(raw)) == (if raw >= 1_200 {
            Some(Fault::OverTemperature)
        } else {
            None
        }),
        sample_fault(None) == Some(Fault::Sensor),
{
}

/// The reference code of a voltage that the converter can regulate is the
/// nearest one: counted in 0.5645 mV above 45 mV, at 56.4 mV per volt, it is
/// off by no more than half a step.
pub proof fn voltage_codes_are_the_nearest(millivolts: u16)
    requires
        800 <= millivolts <= 20_000,
    ensures
        -2_830 <= voltage_code(millivolts) * 5_645 + 450_000 - millivolts * 564 <= 2_830,
        0 <= voltage_code(millivolts) <= 0x7fe,
{
}

/// The limit code of a current sets the enable bit and counts the full 50 mA
/// steps; no current clears it.
pub proof fn current_codes_count_50_milliamperes(milliamps: u16)
    ensures
        milliamps == 0 <==> current_code(milliamps) == 0,
        0 < milliamps <= 6_399 ==> {
            let steps = current_code(milliamps) - 0x80;
            0 <= steps < 0x80 && steps * 50 <= milliamps < steps * 50 + 50
        },
        milliamps > 6_399 ==> current_code(milliamps) == 0xff,
{
}

/// Enabling an output touches the highest bit of its mode and no other, and
/// forcing fixed-frequency switching the second lowest.
pub proof fn modes_change_one_bit(high: u8, middle: u8, forced: u8, low: u8, enabled: bool)
    requires
        high < 2,
        middle < 0x20,
        forced < 2,
        low < 2,
    ensures
        ({
            let mode = (high * 0x80 + middle * 4 + forced * 2 + low) as u8;
            let bit: int = if enabled {
                1
            } else {
                0
            };
            &&& output_mode(mode, enabled) == bit * 0x80 + middle * 4 + forced * 2 + low
            &&& pwm_mode(mode, enabled) == high * 0x80 + middle * 4 + bit * 2 + low
        }),
{
    let mode = (high * 0x80 + middle * 4 + forced * 2 + low) as u8;
    assert(mode | 0x80 == 0x80 + mode % 0x80 && mode & !0x80 == mode % 0x80 && mode | 0x02 == (mode
        / 4) * 4 + 2 + mode % 2 && mode & !0x02 == (mode / 4) * 4 + mode % 2) by (bit_vector);
    assert(mode % 0x80 == middle * 4 + forced * 2 + low);
    assert(mode / 4 == high * 0x20 + middle);
    assert(mode % 2 == low);
}

/// The code of the adjustable low channel falls evenly from 3975 at 0.5 V to
/// 340 at 5 V, and is the nearest one; beyond its range it stays at the end.
pub proof fn dac_codes_fall_evenly(millivolts: u16)
    ensures
        dac_code(500) == 3_975,
        dac_code(5_000) == 340,
        500 <= millivolts <= 5_000 ==> -2_250 <= (3_975 - dac_code(millivolts)) * 4_500 - (millivolts
            - 500) * 3_635 <= 2_250,
        millivolts < 500 ==> dac_code(millivolts) == 3_975,
        millivolts > 5_000 ==> dac_code(millivolts) == 340,
{
}

/// Four samples give the voltage that is nearest to their mean, with full scale
/// at 3.3 V; the conversion before them does not count.
pub proof fn readings_are_the_mean(first: u16, second: u16, third: u16, fourth: u16, stale: u16)
    requires
        first <= 4_095,
        second <= 4_095,
        third <= 4_095,
        fourth <= 4_095,
    ensures
        reading([Some(stale), Some(first), Some(second), Some(third), Some(fourth)]) matches Some(
            millivolts,
        ) && {
            let sum = first + second + third + fourth;
            -8_195 <= 16_380 * millivolts - 3_300 * sum <= 8_195
        },
        reading([None, Some(first), Some(second), Some(third), Some(fourth)]) is None,
        reading([Some(stale), None, Some(second), Some(third), Some(fourth)]) is None,
        reading([Some(stale), Some(first), None, Some(third), Some(fourth)]) is None,
        reading([Some(stale), Some(first), Some(second), None, Some(fourth)]) is None,
        reading([Some(stale), Some(first), Some(second), Some(third), None]) is None,
{
    let sum = first + second + third + fourth;
    assert(input_millivolts(sum) <= 3_300);
}

/// A channel's voltage is measured behind its divider and its current at 2 mA
/// per millivolt; a reading that failed makes the measurement invalid.
pub proof fn measurements_scale_the_readings(
    voltage_mv: u16,
    current_mv: u16,
    numerator: u16,
    denominator: u16,
)
    requires
        denominator > 0,
        voltage_mv * numerator < 65_536 * denominator,
        current_mv < 0x8000,
    ensures
        ({
            let found = channel_measurement(
                Some(voltage_mv),
                Some(current_mv),
                numerator,
                denominator,
            );
            &&& found.valid
            &&& found.milliamps == current_mv + current_mv
            &&& found.millivolts * denominator <= voltage_mv * numerator < (found.millivolts + 1)
                * denominator
        }),
        !channel_measurement(None, Some(current_mv), numerator, denominator).valid,
        !channel_measurement(Some(voltage_mv), None, numerator, denominator).valid,
{
    let product = voltage_mv * numerator;
    let divisor = denominator as int;
    vstd::arithmetic::div_mod::lemma_fundamental_div_mod(product, divisor);
    vstd::arithmetic::div_mod::lemma_mod_bound(product, divisor);
    let quotient = product / divisor;
    assert(0 <= product) by (nonlinear_arith)
        requires
            product == voltage_mv * numerator,
    ;
    assert(0 <= quotient < 65_536) by (nonlinear_arith)
        requires
            0 <= product < 65_536 * divisor,
            divisor > 0,
            product == divisor * quotient + product % divisor,
            0 <= product % divisor < divisor,
    ;
    assert(quotient * divisor <= product < (quotient + 1) * divisor) by (nonlinear_arith)
        requires
            product == divisor * quotient + product % divisor,
            0 <= product % divisor < divisor,
    ;
}

/// Settings are saved once they have rested for a second with every output off
/// and none being switched; each edit starts the second over, and what is saved
/// is what was edited.
pub proof fn settings_rest_for_a_second(
    debouncer: SettingsDebouncer,
    current: PersistentSettings,
    elapsed_ms: u16,
)
    requires
        debouncer.quiet_ms + elapsed_ms < 0x1_0000,
    ensures
        ({
            let (edited, early) = debouncer.after(current, true, true, elapsed_ms);
            let (live, _) = debouncer.after(current, true, false, elapsed_ms);
            let changed = current != debouncer.observed;
            let unsaved = current != debouncer.saved;
            let rested = debouncer.quiet_ms + elapsed_ms >= 1_000;
            &&& changed ==> early is None && edited.observed == current && edited.quiet_ms == 0
            &&& !changed && !unsaved ==> early is None && edited == debouncer
            &&& !changed && unsaved && rested ==> early == Some(current) && edited.quiet_ms == 0
            &&& !changed && unsaved && !rested ==> early is None && edited.quiet_ms
                == debouncer.quiet_ms + elapsed_ms
            &&& debouncer.after(current, false, true, elapsed_ms).1 is None
            &&& debouncer.after(current, true, false, elapsed_ms).1 is None
            &&& !changed && unsaved ==> live.quiet_ms == debouncer.quiet_ms + elapsed_ms
            &&& edited.saved == debouncer.saved
        }),
{
}

} // verus!
