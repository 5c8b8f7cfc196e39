//! USB power-delivery negotiation with an STUSB4500 sink controller.
//!
//! Contracts speak of a bus's log: the transfers it was asked for, in order,
//! each with its data and whether it succeeded.

pub use crate::negotiator::{Negotiator, PdEvent, Service, ServiceEvent, State};

use crate::little_endian::{le16, le32, u32_at};
use vstd::prelude::*;

verus! {

pub const STUSB4500_ADDRESS: u8 = 0x28;

pub const STUSB4500_I2C_HALF_CYCLE_US: u32 = 1;

pub const DEVICE_ID: u8 = 0x2f;

pub const PORT_STATUS: u8 = 0x0e;

pub const PRT_STATUS: u8 = 0x16;

pub const COMMAND_CTRL: u8 = 0x1a;

pub const PE_FSM: u8 = 0x29;

pub const RX_BYTE_COUNT: u8 = 0x30;

pub const RX_HEADER: u8 = 0x31;

pub const RX_DATA: u8 = 0x33;

pub const TX_HEADER: u8 = 0x51;

pub const SINK_PDO_COUNT: u8 = 0x70;

pub const SINK_PDO1: u8 = 0x85;

pub const SINK_PDO3: u8 = 0x8d;

pub const ACTIVE_RDO: u8 = 0x91;

pub const DEVICE_IDS: [u8; 2] = [0x25, 0x21];

pub const PE_SINK_READY: u8 = 0x18;

pub const PD_MESSAGE_RECEIVED: u8 = 0x04;

pub const GET_SOURCE_CAPABILITIES: [u8; 2] = [0x07, 0x00];

pub const SEND_COMMAND: u8 = 0x26;

pub const OPERATION_TIMEOUT_MS: u16 = 500;

pub const PASSIVE_DISCOVERY_MS: u16 = 500;

#[derive(Clone, Copy, Debug, PartialEq, Eq, Structural)]
pub enum PdError {
    Bus,
    WrongDevice,
    Detached,
    Timeout,
    MalformedCapabilities,
    NoSuitablePdo,
    ContractMismatch,
}

#[derive(Clone, Copy, Debug, PartialEq, Eq, Structural)]
pub struct FixedPdo {
    pub source_position: u8,
    pub millivolts: u16,
    pub milliamps: u16,
}

#[derive(Clone, Copy, Debug, PartialEq, Eq, Structural)]
pub struct Selection {
    pub source: FixedPdo,
    pub requested_milliamps: u16,
}

#[derive(Clone, Copy, Debug, PartialEq, Eq, Structural)]
pub struct Rdo {
    pub source_position: u8,
    pub operating_milliamps: u16,
    pub maximum_milliamps: u16,
    pub capability_mismatch: bool,
}

#[derive(Clone, Copy, Debug, PartialEq, Eq, Structural)]
pub struct Contract {
    pub source_position: u8,
    pub millivolts: u16,
    pub operating_milliamps: u16,
    pub maximum_milliamps: u16,
}

#[derive(Clone, Copy, Debug, PartialEq, Eq, Structural)]
pub struct BusError;

/// One transfer on a bus.
pub enum Transfer {
    Read { register: u8, values: Seq<u8>, ok: bool },
    Write { register: u8, values: Seq<u8>, ok: bool },
}

/// The register bus of the sink controller.
pub trait PdBus {
    /// The transfers that the bus was asked for so far. An implementation
    /// says here what its log is: with the empty log that stands here no
    /// transfer could meet its contract.
    open spec fn log(&self) -> Seq<Transfer> {
        Seq::empty()
    }

    fn read(&mut self, register: u8, values: &mut [u8]) -> (result: Result<(), BusError>)
        ensures
            final(values)@.len() == old(values)@.len(),
            final(self).log() == old(self).log().push(
                Transfer::Read { register, values: final(values)@, ok: result is Ok },
            ),
    ;

    fn write(&mut self, register: u8, values: &[u8]) -> (result: Result<(), BusError>)
        ensures
            final(self).log() == old(self).log().push(
                Transfer::Write { register, values: values@, ok: result is Ok },
            ),
    ;
}

/// The fixed supply that a power data object offers, if it is one.
pub open spec fn fixed_pdo(raw: u32, source_position: u8) -> Option<FixedPdo> {
    let millivolts = raw as int / 0x400 % 0x400 * 50;
    let milliamps = raw as int % 0x400 * 10;
    if raw >= 0x4000_0000 || !(1 <= source_position <= 7) || millivolts == 0 || milliamps == 0 {
        None
    } else {
        Some(
            FixedPdo {
                source_position,
                millivolts: millivolts as u16,
                milliamps: milliamps as u16,
            },
        )
    }
}

/// The power data object that asks for a fixed supply, if the product may.
pub open spec fn sink_fixed_pdo(millivolts: u16, milliamps: u16) -> Option<u32> {
    if millivolts == 0 || millivolts > 20_000 || millivolts % 50 != 0 || milliamps == 0 || milliamps
        > 5_000 || milliamps % 10 != 0 {
        None
    } else {
        Some((millivolts as int / 50 * 0x400 + milliamps as int / 10) as u32)
    }
}

/// Decodes a fixed-supply power data object.
pub fn decode_fixed_pdo(raw: u32, source_position: u8) -> (pdo: Option<FixedPdo>)
    ensures
        pdo == fixed_pdo(raw, source_position),
{
    assert(raw >> 30 != 0 <==> raw >= 0x4000_0000) by (bit_vector);
    assert((raw >> 10) & 0x03ff == raw / 0x400 % 0x400) by (bit_vector);
    assert(raw & 0x03ff == raw % 0x400) by (bit_vector);
    if raw >> 30 != 0 || source_position < 1 || source_position > 7 {
        return None;
    }
    let millivolts: u16 = ((raw >> 10) & 0x03ff) as u16 * 50;
    let milliamps: u16 = (raw & 0x03ff) as u16 * 10;
    if millivolts != 0 && milliamps != 0 {
        Some(FixedPdo { source_position, millivolts, milliamps })
    } else {
        None
    }
}

/// Encodes a fixed-supply power data object of the sink.
pub fn encode_sink_fixed_pdo(millivolts: u16, milliamps: u16) -> (raw: Option<u32>)
    ensures
        raw == sink_fixed_pdo(millivolts, milliamps),
{
    if millivolts == 0 || millivolts > 20_000 || millivolts % 50 != 0 || milliamps == 0 || milliamps
        > 5_000 || milliamps % 10 != 0 {
        return None;
    }
    let volts: u32 = (millivolts / 50) as u32;
    let amps: u32 = (milliamps / 10) as u32;
    assert((volts << 10) | amps == volts * 0x400 + amps) by (bit_vector)
        requires
            volts <= 400,
            amps <= 500,
    ;
    Some((volts << 10) | amps)
}

/// What the sink asks for is what a source of that object offers.
pub proof fn sink_pdo_round_trip(millivolts: u16, milliamps: u16, source_position: u8)
    requires
        sink_fixed_pdo(millivolts, milliamps) is Some,
        1 <= source_position <= 7,
    ensures
        fixed_pdo(sink_fixed_pdo(millivolts, milliamps)->Some_0, source_position) == Some(
            FixedPdo { source_position, millivolts, milliamps },
        ),
{
    let volts = millivolts as int / 50;
    let amps = milliamps as int / 10;
    let raw = volts * 0x400 + amps;
    assert(raw / 0x400 == volts);
    assert(raw % 0x400 == amps);
    assert(volts % 0x400 == volts);
}

/// What the sink could draw from object `index` of a source.
pub open spec fn candidate(
    raw_pdos: Seq<u32>,
    index: int,
    max_voltage_mv: u16,
    current_cap_ma: u16,
) -> Option<Selection> {
    match fixed_pdo(raw_pdos[index], (index + 1) as u8) {
        Some(source) => {
            let capped = if source.milliamps < current_cap_ma {
                source.milliamps
            } else {
                current_cap_ma
            };
            let requested_milliamps = if capped < 5_000 {
                capped
            } else {
                5_000
            };
            if source.millivolts <= max_voltage_mv && requested_milliamps >= 10 {
                Some(Selection { source, requested_milliamps })
            } else {
                None
            }
        },
        None => None,
    }
}

/// True when `left` is the poorer choice: less power, or the same power at a
/// lower voltage.
pub open spec fn poorer(left: Selection, right: Selection) -> bool {
    let left_power = left.source.millivolts * left.requested_milliamps;
    let right_power = right.source.millivolts * right.requested_milliamps;
    ||| left_power < right_power
    ||| left_power == right_power && (left.source.millivolts < right.source.millivolts || (
    left.source.millivolts == right.source.millivolts && left.requested_milliamps
        < right.requested_milliamps))
}

/// The number of objects that a source can offer.
pub open spec fn offered(raw_pdos: Seq<u32>) -> int {
    if raw_pdos.len() < 7 {
        raw_pdos.len() as int
    } else {
        7
    }
}

/// `chosen` is the richest candidate among the first `count` objects; of
/// equally rich ones the last.
pub open spec fn richest(
    raw_pdos: Seq<u32>,
    count: int,
    max_voltage_mv: u16,
    current_cap_ma: u16,
    chosen: Option<Selection>,
) -> bool {
    match chosen {
        None => forall|i: int|
            0 <= i < count ==> (#[trigger] candidate(
                raw_pdos,
                i,
                max_voltage_mv,
                current_cap_ma,
            )) is None,
        Some(best) => {
            let at = best.source.source_position - 1;
            &&& 0 <= at < count
            &&& candidate(raw_pdos, at, max_voltage_mv, current_cap_ma) == Some(best)
            &&& forall|i: int|
                0 <= i < count ==> ((#[trigger] candidate(
                    raw_pdos,
                    i,
                    max_voltage_mv,
                    current_cap_ma,
                )) matches Some(other) ==> !poorer(best, other) && (i > at ==> poorer(other, best)))
        },
    }
}

/// Picks the object that gives the most power within the limits.
pub fn select_highest_power_fixed(raw_pdos: &[u32], max_voltage_mv: u16, current_cap_ma: u16) -> (
chosen: Option<Selection>)
    ensures
        richest(raw_pdos@, offered(raw_pdos@), max_voltage_mv, current_cap_ma, chosen),
{
    let count: usize = if raw_pdos.len() < 7 {
        raw_pdos.len()
    } else {
        7
    };
    let mut chosen: Option<Selection> = None;
    let mut index: usize = 0;
    while index < count
        invariant
            index <= count,
            count == offered(raw_pdos@),
            count <= raw_pdos@.len(),
            richest(raw_pdos@, index as int, max_voltage_mv, current_cap_ma, chosen),
        decreases count - index,
    {
        let ghost before = chosen;
        let ghost here = candidate(raw_pdos@, index as int, max_voltage_mv, current_cap_ma);
        if let Some(source) = decode_fixed_pdo(raw_pdos[index], index as u8 + 1) {
            let capped: u16 = if source.milliamps < current_cap_ma {
                source.milliamps
            } else {
                current_cap_ma
            };
            let requested_milliamps: u16 = if capped < 5_000 {
                capped
            } else {
                5_000
            };
            if source.millivolts <= max_voltage_mv && requested_milliamps >= 10 {
                let selection = Selection { source, requested_milliamps };
                assert(here == Some(selection));
                let better: bool = match chosen {
                    None => true,
                    Some(best) => !is_poorer(&selection, &best),
                };
                if better {
                    chosen = Some(selection);
                }
            }
        }
        assert(richest(raw_pdos@, index + 1, max_voltage_mv, current_cap_ma, chosen)) by {
            if let Some(best) = before {
                if let Some(other) = here {
                    lemma_poorer_is_total(best, other);
                    if chosen == here {
                        assert forall|i: int| 0 <= i < index + 1 implies ((#[trigger] candidate(
                            raw_pdos@,
                            i,
                            max_voltage_mv,
                            current_cap_ma,
                        )) matches Some(third) ==> !poorer(other, third)) by {
                            if let Some(third) = candidate(
                                raw_pdos@,
                                i,
                                max_voltage_mv,
                                current_cap_ma,
                            ) {
                                if i < index {
                                    lemma_poorer_is_transitive(best, other, third);
                                } else {
                                    lemma_poorer_is_total(other, third);
                                }
                            }
                        }
                    }
                }
            }
        }
        index = index + 1;
    }
    chosen
}

proof fn lemma_poorer_is_total(left: Selection, right: Selection)
    ensures
        !(poorer(left, right) && poorer(right, left)),
{
}

proof fn lemma_poorer_is_transitive(best: Selection, other: Selection, third: Selection)
    requires
        !poorer(other, best),
        !poorer(best, third),
    ensures
        !poorer(other, third),
{
}

fn is_poorer(left: &Selection, right: &Selection) -> (result: bool)
    ensures
        result == poorer(*left, *right),
{
    assert(left.source.millivolts * left.requested_milliamps <= 0xffff * 0xffff)
        by (nonlinear_arith)
        requires
            0 <= left.source.millivolts <= 0xffff,
            0 <= left.requested_milliamps <= 0xffff,
    ;
    assert(right.source.millivolts * right.requested_milliamps <= 0xffff * 0xffff)
        by (nonlinear_arith)
        requires
            0 <= right.source.millivolts <= 0xffff,
            0 <= right.requested_milliamps <= 0xffff,
    ;
    let left_power: u32 = left.source.millivolts as u32 * left.requested_milliamps as u32;
    let right_power: u32 = right.source.millivolts as u32 * right.requested_milliamps as u32;
    left_power < right_power || (left_power == right_power && (left.source.millivolts
        < right.source.millivolts || (left.source.millivolts == right.source.millivolts
        && left.requested_milliamps < right.requested_milliamps)))
}

/// What is asked of a source never exceeds the voltage limit, the current cap,
/// what the source offers, or the product's 5 A.
pub proof fn selection_respects_every_limit(
    raw_pdos: Seq<u32>,
    count: int,
    max_voltage_mv: u16,
    current_cap_ma: u16,
    chosen: Selection,
)
    requires
        richest(raw_pdos, count, max_voltage_mv, current_cap_ma, Some(chosen)),
    ensures
        chosen.source.millivolts <= max_voltage_mv,
        10 <= chosen.requested_milliamps <= current_cap_ma,
        chosen.requested_milliamps <= chosen.source.milliamps,
        chosen.requested_milliamps <= 5_000,
{
}

/// The object count of a message header.
pub open spec fn object_count(header: int) -> int {
    header / 0x1000 % 8
}

/// True of a header, a byte count and data that make up a source-capabilities
/// message.
pub open spec fn capabilities_wf(header: int, byte_count: u8, data: Seq<u8>) -> bool {
    &&& header % 0x20 == 1
    &&& object_count(header) != 0
    &&& byte_count == object_count(header) * 4
    &&& data.len() == object_count(header) * 4
}

/// Decodes a source-capabilities message into its objects and their number;
/// the objects that it does not hold are zero.
pub fn decode_source_capabilities(header: [u8; 2], byte_count: u8, data: &[u8]) -> (result: Result<
    ([u32; 7], usize),
    PdError,
>)
    ensures
        result is Ok <==> capabilities_wf(le16(header[0], header[1]), byte_count, data@),
        result is Err ==> result->Err_0 == PdError::MalformedCapabilities,
        result matches Ok((pdos, count)) ==> {
            &&& count as int == object_count(le16(header[0], header[1]))
            &&& forall|i: int|
                0 <= i < 7 ==> (#[trigger] pdos[i]) as int == if i < count {
                    le32(data@, 4 * i)
                } else {
                    0
                }
        },
{
    let word: u16 = header[0] as u16 + 0x100 * (header[1] as u16);
    let count: usize = (word / 0x1000 % 8) as usize;
    if word % 0x20 != 1 || count == 0 || byte_count as usize != count * 4 || data.len() != count
        * 4 {
        return Err(PdError::MalformedCapabilities);
    }
    let mut pdos: [u32; 7] = [0;7];
    let mut index: usize = 0;
    while index < count
        invariant
            index <= count <= 7,
            data@.len() == count * 4,
            forall|i: int|
                0 <= i < 7 ==> (#[trigger] pdos[i]) as int == if i < index {
                    le32(data@, 4 * i)
                } else {
                    0
                },
        decreases count - index,
    {
        pdos[index] = u32_at(data, index * 4);
        index = index + 1;
    }
    Ok((pdos, count))
}

/// What a request data object says; `raw` is its value.
pub open spec fn request(raw: int) -> Result<Rdo, PdError> {
    if raw / 0x1000_0000 % 8 == 0 {
        Err(PdError::ContractMismatch)
    } else {
        Ok(
            Rdo {
                source_position: (raw / 0x1000_0000 % 8) as u8,
                operating_milliamps: (raw / 0x400 % 0x400 * 10) as u16,
                maximum_milliamps: (raw % 0x400 * 10) as u16,
                capability_mismatch: raw / 0x400_0000 % 2 != 0,
            },
        )
    }
}

/// Decodes a request data object.
pub fn decode_rdo(bytes: [u8; 4]) -> (result: Result<Rdo, PdError>)
    ensures
        result == request(le32(bytes@, 0)),
{
    let raw: u32 = u32_at(bytes.as_slice(), 0);
    let source_position: u8 = (raw / 0x1000_0000 % 8) as u8;
    if source_position == 0 {
        return Err(PdError::ContractMismatch);
    }
    Ok(
        Rdo {
            source_position,
            operating_milliamps: (raw / 0x400 % 0x400) as u16 * 10,
            maximum_milliamps: (raw % 0x400) as u16 * 10,
            capability_mismatch: raw / 0x400_0000 % 2 != 0,
        },
    )
}

/// The local sink profile `index`, if the measured voltage can be its own.
pub open spec fn profile_match(
    sink_pdos: Seq<u32>,
    index: int,
    measured_vbus_mv: u16,
) -> Option<u16> {
    match fixed_pdo(sink_pdos[index], (index + 1) as u8) {
        Some(pdo) => if pdo.millivolts <= 20_000 && pdo.millivolts * 80 <= measured_vbus_mv * 100
            <= pdo.millivolts * 120 {
            Some(pdo.millivolts)
        } else {
            None
        },
        None => None,
    }
}

/// How far apart two voltages are.
pub open spec fn apart(left: u16, right: u16) -> int {
    if left < right {
        right - left
    } else {
        left - right
    }
}

/// `matched` is the voltage of the profile nearest to the measured one, among
/// the first `count`; of equally near ones the first.
pub open spec fn nearest_profile(
    sink_pdos: Seq<u32>,
    count: int,
    measured_vbus_mv: u16,
    matched: Option<u16>,
) -> bool {
    match matched {
        None => forall|i: int|
            0 <= i < count ==> (#[trigger] profile_match(sink_pdos, i, measured_vbus_mv)) is None,
        Some(millivolts) => exists|at: int|
            {
                &&& 0 <= at < count
                &&& (#[trigger] profile_match(sink_pdos, at, measured_vbus_mv)) == Some(millivolts)
                &&& forall|i: int|
                    0 <= i < count ==> ((#[trigger] profile_match(sink_pdos, i, measured_vbus_mv))
                        matches Some(other) ==> {
                        &&& apart(millivolts, measured_vbus_mv) <= apart(other, measured_vbus_mv)
                        &&& i < at ==> apart(millivolts, measured_vbus_mv) < apart(
                            other,
                            measured_vbus_mv,
                        )
                    })
            },
    }
}

/// The number of profiles that a sink can hold.
pub open spec fn held(sink_pdos: Seq<u32>) -> int {
    if sink_pdos.len() < 3 {
        sink_pdos.len() as int
    } else {
        3
    }
}

/// True of a request that can stand for a live contract.
pub open spec fn request_live(rdo: Rdo, measured_vbus_mv: u16) -> bool {
    !rdo.capability_mismatch && rdo.operating_milliamps != 0 && rdo.maximum_milliamps != 0
        && measured_vbus_mv != 0
}

/// `result` is the contract that an active request and the measured voltage
/// prove.
pub open spec fn passive_contract(
    sink_pdos: Seq<u32>,
    raw_rdo: int,
    measured_vbus_mv: u16,
    result: Result<Contract, PdError>,
) -> bool {
    match (request(raw_rdo), result) {
        (Ok(rdo), Ok(contract)) => {
            &&& request_live(rdo, measured_vbus_mv)
            &&& nearest_profile(
                sink_pdos,
                held(sink_pdos),
                measured_vbus_mv,
                Some(contract.millivolts),
            )
            &&& contract.source_position == rdo.source_position
            &&& contract.operating_milliamps == rdo.operating_milliamps
            &&& contract.maximum_milliamps == rdo.maximum_milliamps
        },
        (Ok(rdo), Err(error)) => {
            &&& error == PdError::ContractMismatch
            &&& !request_live(rdo, measured_vbus_mv) || nearest_profile(
                sink_pdos,
                held(sink_pdos),
                measured_vbus_mv,
                None,
            )
        },
        (Err(error), _) => result == Err::<Contract, PdError>(error),
    }
}

/// Identifies the contract that a controller negotiated on its own. The
/// request holds current and source-object position, but no voltage, so the
/// independently measured input voltage identifies the local sink profile.
pub fn match_passive_contract(sink_pdos: &[u32], rdo_bytes: [u8; 4], measured_vbus_mv: u16) -> (
result: Result<Contract, PdError>)
    ensures
        passive_contract(sink_pdos@, le32(rdo_bytes@, 0), measured_vbus_mv, result),
{
    let rdo = match decode_rdo(rdo_bytes) {
        Ok(rdo) => rdo,
        Err(error) => {
            return Err(error);
        },
    };
    if rdo.capability_mismatch || rdo.operating_milliamps == 0 || rdo.maximum_milliamps == 0
        || measured_vbus_mv == 0 {
        return Err(PdError::ContractMismatch);
    }
    let count: usize = if sink_pdos.len() < 3 {
        sink_pdos.len()
    } else {
        3
    };
    let mut matched: Option<u16> = None;
    let ghost mut at: int = 0;
    let mut index: usize = 0;
    while index < count
        invariant
            index <= count,
            count == held(sink_pdos@),
            count <= sink_pdos@.len(),
            matched is None ==> forall|i: int|
                0 <= i < index ==> (#[trigger] profile_match(sink_pdos@, i, measured_vbus_mv)) is None,
            matched matches Some(millivolts) ==> {
                &&& 0 <= at < index
                &&& profile_match(sink_pdos@, at, measured_vbus_mv) == Some(millivolts)
                &&& forall|i: int|
                    0 <= i < index ==> ((#[trigger] profile_match(sink_pdos@, i, measured_vbus_mv))
                        matches Some(other) ==> {
                        &&& apart(millivolts, measured_vbus_mv) <= apart(other, measured_vbus_mv)
                        &&& i < at ==> apart(millivolts, measured_vbus_mv) < apart(
                            other,
                            measured_vbus_mv,
                        )
                    })
            },
        decreases count - index,
    {
        let ghost here = profile_match(sink_pdos@, index as int, measured_vbus_mv);
        if let Some(pdo) = decode_fixed_pdo(sink_pdos[index], index as u8 + 1) {
            let measured: u32 = measured_vbus_mv as u32 * 100;
            let nominal: u32 = pdo.millivolts as u32;
            if pdo.millivolts <= 20_000 && measured >= nominal * 80 && measured <= nominal * 120 {
                assert(here == Some(pdo.millivolts));
                let nearer: bool = match matched {
                    None => true,
                    Some(best) => distance(pdo.millivolts, measured_vbus_mv) < distance(
                        best,
                        measured_vbus_mv,
                    ),
                };
                if nearer {
                    matched = Some(pdo.millivolts);
                    proof {
                        at = index as int;
                    }
                }
            }
        }
        index = index + 1;
    }
    match matched {
        Some(millivolts) => Ok(
            Contract {
                source_position: rdo.source_position,
                millivolts,
                operating_milliamps: rdo.operating_milliamps,
                maximum_milliamps: rdo.maximum_milliamps,
            },
        ),
        None => Err(PdError::ContractMismatch),
    }
}

fn distance(left: u16, right: u16) -> (result: u16)
    ensures
        result as int == apart(left, right),
{
    if left < right {
        right - left
    } else {
        left - right
    }
}

} // verus!
