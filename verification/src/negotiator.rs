//! The negotiation state machine and its service loop.

use crate::executor::{clock_after, clock_reached};
use crate::little_endian::{bytes32, le16, le32, to_bytes32, u32_at};
use crate::pd::{
    capabilities_wf, decode_rdo, decode_source_capabilities, encode_sink_fixed_pdo,
    match_passive_contract, object_count, passive_contract, request, richest,
    select_highest_power_fixed, sink_fixed_pdo, Contract, PdBus, PdError, Rdo, Selection, Transfer,
    ACTIVE_RDO, COMMAND_CTRL, DEVICE_ID, DEVICE_IDS, GET_SOURCE_CAPABILITIES, OPERATION_TIMEOUT_MS,
    PASSIVE_DISCOVERY_MS, PD_MESSAGE_RECEIVED, PE_FSM, PE_SINK_READY, PORT_STATUS, PRT_STATUS,
    RX_BYTE_COUNT, RX_DATA, RX_HEADER, SEND_COMMAND, SINK_PDO1, SINK_PDO3, SINK_PDO_COUNT,
    TX_HEADER,
};
use vstd::prelude::*;

verus! {

/// How far a negotiation has come.
#[derive(Clone, Copy, Debug, PartialEq, Eq, Structural)]
pub enum State {
    Discover,
    WaitReady { deadline: u16 },
    WaitCapabilities { deadline: u16 },
    WaitContract { deadline: u16, selection: Selection },
    Ready(Contract),
    Failed(PdError),
}

#[derive(Clone, Copy, Debug, PartialEq, Eq, Structural)]
pub enum PdEvent {
    Negotiated(Contract),
    Lost(PdError),
}

#[derive(Clone, Copy, Debug, PartialEq, Eq, Structural)]
pub enum ServiceEvent {
    NegotiationStarted,
    Pd(PdEvent),
}

/// The transfers of `after` that came after `before`.
pub open spec fn added(before: Seq<Transfer>, after: Seq<Transfer>) -> Seq<Transfer> {
    after.skip(before.len() as int)
}

/// True when a transfer succeeded.
pub open spec fn succeeded(transfer: Transfer) -> bool {
    match transfer {
        Transfer::Read { register, values, ok } => ok,
        Transfer::Write { register, values, ok } => ok,
    }
}

/// The bytes of a transfer.
pub open spec fn data(transfer: Transfer) -> Seq<u8> {
    match transfer {
        Transfer::Read { register, values, ok } => values,
        Transfer::Write { register, values, ok } => values,
    }
}

/// True of a read of `count` bytes from `register`.
pub open spec fn reads(transfer: Transfer, register: u8, count: int) -> bool {
    transfer matches Transfer::Read { register: found, values, ok } && found == register
        && values.len() == count
}

/// True of a write of `bytes` to `register`.
pub open spec fn writes(transfer: Transfer, register: u8, bytes: Seq<u8>) -> bool {
    transfer matches Transfer::Write { register: found, values, ok } && found == register && values
        == bytes
}

/// True of the identities of the supported controllers.
pub open spec fn known_device(identity: u8) -> bool {
    identity == 0x25 || identity == 0x21
}

/// True of a port status that reports an attached source.
pub open spec fn attached(status: u8) -> bool {
    status & 1 != 0
}

/// The step ended with `error` after `count` transfers, in the state it began
/// in.
pub open spec fn ended(
    count: int,
    error: PdError,
    state: State,
    transfers: Seq<Transfer>,
    next: State,
    result: Result<Option<PdEvent>, PdError>,
) -> bool {
    transfers.len() == count && next == state && result == Err::<Option<PdEvent>, PdError>(error)
}

/// The step ended in state `reached` after `count` transfers, with `event`.
pub open spec fn moved(
    count: int,
    reached: State,
    event: Option<PdEvent>,
    transfers: Seq<Transfer>,
    next: State,
    result: Result<Option<PdEvent>, PdError>,
) -> bool {
    transfers.len() == count && next == reached && result == Ok::<Option<PdEvent>, PdError>(event)
}

/// The step waits on: it ended in the state it began in, or with `error` where
/// the deadline has come.
pub open spec fn waited(
    count: int,
    now: u16,
    deadline: u16,
    error: PdError,
    state: State,
    transfers: Seq<Transfer>,
    next: State,
    result: Result<Option<PdEvent>, PdError>,
) -> bool {
    if clock_reached(now, deadline) {
        ended(count, error, state, transfers, next, result)
    } else {
        moved(count, state, None, transfers, next, result)
    }
}

/// The source capabilities were asked for from transfer `from` on; then the
/// step ended in state `reached`.
pub open spec fn asked_capabilities(
    from: int,
    reached: State,
    state: State,
    transfers: Seq<Transfer>,
    next: State,
    result: Result<Option<PdEvent>, PdError>,
) -> bool {
    &&& transfers.len() > from
    &&& writes(transfers[from], TX_HEADER, GET_SOURCE_CAPABILITIES@)
    &&& if !succeeded(transfers[from]) {
        ended(from + 1, PdError::Bus, state, transfers, next, result)
    } else {
        &&& transfers.len() > from + 1
        &&& writes(transfers[from + 1], COMMAND_CTRL, seq![SEND_COMMAND])
        &&& if !succeeded(transfers[from + 1]) {
            ended(from + 2, PdError::Bus, state, transfers, next, result)
        } else {
            moved(from + 2, reached, None, transfers, next, result)
        }
    }
}

/// A step of discovery: the controller must be known and a source attached.
pub open spec fn discovered(
    state: State,
    now: u16,
    transfers: Seq<Transfer>,
    next: State,
    result: Result<Option<PdEvent>, PdError>,
) -> bool {
    &&& transfers.len() > 0
    &&& reads(transfers[0], DEVICE_ID, 1)
    &&& if !succeeded(transfers[0]) {
        ended(1, PdError::Bus, state, transfers, next, result)
    } else if !known_device(data(transfers[0])[0]) {
        ended(1, PdError::WrongDevice, state, transfers, next, result)
    } else {
        &&& transfers.len() > 1
        &&& reads(transfers[1], PORT_STATUS, 1)
        &&& if !succeeded(transfers[1]) {
            ended(2, PdError::Bus, state, transfers, next, result)
        } else if !attached(data(transfers[1])[0]) {
            ended(2, PdError::Detached, state, transfers, next, result)
        } else {
            moved(
                2,
                State::WaitReady { deadline: clock_after(now, OPERATION_TIMEOUT_MS) },
                None,
                transfers,
                next,
                result,
            )
        }
    }
}

/// A step that waits for the policy engine, then asks for the capabilities.
pub open spec fn awaited_ready(
    state: State,
    deadline: u16,
    now: u16,
    transfers: Seq<Transfer>,
    next: State,
    result: Result<Option<PdEvent>, PdError>,
) -> bool {
    &&& transfers.len() > 0
    &&& reads(transfers[0], PE_FSM, 1)
    &&& if !succeeded(transfers[0]) {
        ended(1, PdError::Bus, state, transfers, next, result)
    } else if data(transfers[0])[0] != PE_SINK_READY {
        waited(1, now, deadline, PdError::Timeout, state, transfers, next, result)
    } else {
        asked_capabilities(
            1,
            State::WaitCapabilities { deadline: clock_after(now, OPERATION_TIMEOUT_MS) },
            state,
            transfers,
            next,
            result,
        )
    }
}

/// The objects of a capabilities message.
pub open spec fn objects(bytes: Seq<u8>, count: int) -> Seq<u32> {
    Seq::new(count as nat, |i: int| le32(bytes, 4 * i) as u32)
}

/// The choice among the objects was made and written; then the capabilities
/// were asked for again.
pub open spec fn chose(
    state: State,
    chosen: Option<Selection>,
    now: u16,
    transfers: Seq<Transfer>,
    next: State,
    result: Result<Option<PdEvent>, PdError>,
) -> bool {
    match chosen {
        None => ended(4, PdError::NoSuitablePdo, state, transfers, next, result),
        Some(selection) => match sink_fixed_pdo(
            selection.source.millivolts,
            selection.requested_milliamps,
        ) {
            None => ended(4, PdError::NoSuitablePdo, state, transfers, next, result),
            Some(raw) => {
                &&& transfers.len() > 4
                &&& writes(transfers[4], SINK_PDO3, bytes32(raw))
                &&& if !succeeded(transfers[4]) {
                    ended(5, PdError::Bus, state, transfers, next, result)
                } else {
                    asked_capabilities(
                        5,
                        State::WaitContract {
                            deadline: clock_after(now, OPERATION_TIMEOUT_MS),
                            selection,
                        },
                        state,
                        transfers,
                        next,
                        result,
                    )
                }
            },
        },
    }
}

/// A step that waits for the capabilities and chooses among them.
pub open spec fn awaited_capabilities(
    state: State,
    deadline: u16,
    current_cap_ma: u16,
    now: u16,
    transfers: Seq<Transfer>,
    next: State,
    result: Result<Option<PdEvent>, PdError>,
) -> bool {
    &&& transfers.len() > 0
    &&& reads(transfers[0], PRT_STATUS, 1)
    &&& if !succeeded(transfers[0]) {
        ended(1, PdError::Bus, state, transfers, next, result)
    } else if data(transfers[0])[0] & PD_MESSAGE_RECEIVED == 0 {
        waited(1, now, deadline, PdError::Timeout, state, transfers, next, result)
    } else {
        let header = le16(data(transfers[1])[0], data(transfers[1])[1]);
        let count = object_count(header);
        &&& transfers.len() > 1
        &&& reads(transfers[1], RX_HEADER, 2)
        &&& if !succeeded(transfers[1]) {
            ended(2, PdError::Bus, state, transfers, next, result)
        } else if header % 0x20 != 1 {
            moved(2, state, None, transfers, next, result)
        } else {
            &&& transfers.len() > 2
            &&& reads(transfers[2], RX_BYTE_COUNT, 1)
            &&& if !succeeded(transfers[2]) {
                ended(3, PdError::Bus, state, transfers, next, result)
            } else if count == 0 || data(transfers[2])[0] != count * 4 {
                ended(3, PdError::MalformedCapabilities, state, transfers, next, result)
            } else {
                &&& transfers.len() > 3
                &&& reads(transfers[3], RX_DATA, count * 4)
                &&& if !succeeded(transfers[3]) {
                    ended(4, PdError::Bus, state, transfers, next, result)
                } else {
                    exists|chosen: Option<Selection>| #[trigger]
                        richest(
                            objects(data(transfers[3]), count),
                            count,
                            20_000,
                            current_cap_ma,
                            chosen,
                        ) && chose(state, chosen, now, transfers, next, result)
                }
            }
        }
    }
}

/// True when a request is for what was selected.
pub open spec fn grants(rdo: Rdo, selection: Selection) -> bool {
    rdo.source_position == selection.source.source_position && !rdo.capability_mismatch
        && rdo.operating_milliamps == selection.requested_milliamps && rdo.maximum_milliamps
        == selection.source.milliamps
}

/// True when a request is the one that a contract rests on.
pub open spec fn upholds(rdo: Rdo, contract: Contract) -> bool {
    rdo.source_position == contract.source_position && !rdo.capability_mismatch
        && rdo.operating_milliamps == contract.operating_milliamps && rdo.maximum_milliamps
        == contract.maximum_milliamps
}

/// The contract that a granted selection makes.
pub open spec fn contract_of(selection: Selection) -> Contract {
    Contract {
        source_position: selection.source.source_position,
        millivolts: selection.source.millivolts,
        operating_milliamps: selection.requested_milliamps,
        maximum_milliamps: selection.source.milliamps,
    }
}

/// A step that waits for the source to grant the selection.
pub open spec fn awaited_contract(
    state: State,
    deadline: u16,
    selection: Selection,
    now: u16,
    transfers: Seq<Transfer>,
    next: State,
    result: Result<Option<PdEvent>, PdError>,
) -> bool {
    &&& transfers.len() > 0
    &&& reads(transfers[0], PORT_STATUS, 1)
    &&& if !succeeded(transfers[0]) {
        ended(1, PdError::Bus, state, transfers, next, result)
    } else if !attached(data(transfers[0])[0]) {
        ended(1, PdError::Detached, state, transfers, next, result)
    } else {
        &&& transfers.len() > 1
        &&& reads(transfers[1], PE_FSM, 1)
        &&& if !succeeded(transfers[1]) {
            ended(2, PdError::Bus, state, transfers, next, result)
        } else if data(transfers[1])[0] != PE_SINK_READY {
            waited(2, now, deadline, PdError::Timeout, state, transfers, next, result)
        } else {
            &&& transfers.len() > 2
            &&& reads(transfers[2], ACTIVE_RDO, 4)
            &&& if !succeeded(transfers[2]) {
                ended(3, PdError::Bus, state, transfers, next, result)
            } else {
                match request(le32(data(transfers[2]), 0)) {
                    Err(error) => ended(3, error, state, transfers, next, result),
                    Ok(rdo) => if grants(rdo, selection) {
                        moved(
                            3,
                            State::Ready(contract_of(selection)),
                            Some(PdEvent::Negotiated(contract_of(selection))),
                            transfers,
                            next,
                            result,
                        )
                    } else {
                        waited(
                            3,
                            now,
                            deadline,
                            PdError::ContractMismatch,
                            state,
                            transfers,
                            next,
                            result,
                        )
                    },
                }
            }
        }
    }
}

/// A step that watches over a contract.
pub open spec fn watched(
    state: State,
    contract: Contract,
    transfers: Seq<Transfer>,
    next: State,
    result: Result<Option<PdEvent>, PdError>,
) -> bool {
    &&& transfers.len() > 0
    &&& reads(transfers[0], PORT_STATUS, 1)
    &&& if !succeeded(transfers[0]) {
        ended(1, PdError::Bus, state, transfers, next, result)
    } else if !attached(data(transfers[0])[0]) {
        ended(1, PdError::Detached, state, transfers, next, result)
    } else {
        &&& transfers.len() > 1
        &&& reads(transfers[1], PE_FSM, 1)
        &&& if !succeeded(transfers[1]) {
            ended(2, PdError::Bus, state, transfers, next, result)
        } else if data(transfers[1])[0] != PE_SINK_READY {
            ended(2, PdError::Detached, state, transfers, next, result)
        } else {
            &&& transfers.len() > 2
            &&& reads(transfers[2], ACTIVE_RDO, 4)
            &&& if !succeeded(transfers[2]) {
                ended(3, PdError::Bus, state, transfers, next, result)
            } else {
                match request(le32(data(transfers[2]), 0)) {
                    Err(error) => ended(3, error, state, transfers, next, result),
                    Ok(rdo) => if upholds(rdo, contract) {
                        moved(3, state, None, transfers, next, result)
                    } else {
                        ended(3, PdError::ContractMismatch, state, transfers, next, result)
                    },
                }
            }
        }
    }
}

/// One bounded step of the negotiation: the transfers that it makes, the state
/// that it reaches, and its result. An error leaves the state as it was.
pub open spec fn stepped(
    state: State,
    current_cap_ma: u16,
    now: u16,
    transfers: Seq<Transfer>,
    next: State,
    result: Result<Option<PdEvent>, PdError>,
) -> bool {
    match state {
        State::Discover => discovered(state, now, transfers, next, result),
        State::WaitReady { deadline } => awaited_ready(
            state,
            deadline,
            now,
            transfers,
            next,
            result,
        ),
        State::WaitCapabilities { deadline } => awaited_capabilities(
            state,
            deadline,
            current_cap_ma,
            now,
            transfers,
            next,
            result,
        ),
        State::WaitContract { deadline, selection } => awaited_contract(
            state,
            deadline,
            selection,
            now,
            transfers,
            next,
            result,
        ),
        State::Ready(contract) => watched(state, contract, transfers, next, result),
        State::Failed(_) => moved(0, state, None, transfers, next, result),
    }
}

/// A step with its errors made terminal: an error is reported once and leaves
/// the negotiation failed.
pub open spec fn stepped_to(
    state: State,
    current_cap_ma: u16,
    now: u16,
    transfers: Seq<Transfer>,
    next: State,
    event: Option<PdEvent>,
) -> bool {
    ||| stepped(state, current_cap_ma, now, transfers, next, Ok(event))
    ||| event matches Some(PdEvent::Lost(error)) && next == State::Failed(error) && stepped(
        state,
        current_cap_ma,
        now,
        transfers,
        state,
        Err(error),
    )
}

/// A contract was looked for without a single write.
pub open spec fn imported(
    measured_vbus_mv: u16,
    transfers: Seq<Transfer>,
    result: Result<Contract, PdError>,
) -> bool {
    let failed = |count: int, error: PdError|
        transfers.len() == count && result == Err::<Contract, PdError>(error);
    let held = (data(transfers[3])[0] % 8) as int;
    &&& transfers.len() > 0
    &&& reads(transfers[0], DEVICE_ID, 1)
    &&& if !succeeded(transfers[0]) {
        failed(1, PdError::Bus)
    } else if !known_device(data(transfers[0])[0]) {
        failed(1, PdError::WrongDevice)
    } else {
        &&& transfers.len() > 1
        &&& reads(transfers[1], PORT_STATUS, 1)
        &&& if !succeeded(transfers[1]) {
            failed(2, PdError::Bus)
        } else if !attached(data(transfers[1])[0]) {
            failed(2, PdError::Detached)
        } else {
            &&& transfers.len() > 2
            &&& reads(transfers[2], PE_FSM, 1)
            &&& if !succeeded(transfers[2]) {
                failed(3, PdError::Bus)
            } else if data(transfers[2])[0] != PE_SINK_READY {
                failed(3, PdError::Detached)
            } else {
                &&& transfers.len() > 3
                &&& reads(transfers[3], SINK_PDO_COUNT, 1)
                &&& if !succeeded(transfers[3]) {
                    failed(4, PdError::Bus)
                } else if !(1 <= held <= 3) {
                    failed(4, PdError::ContractMismatch)
                } else {
                    &&& transfers.len() > 4
                    &&& reads(transfers[4], SINK_PDO1, held * 4)
                    &&& if !succeeded(transfers[4]) {
                        failed(5, PdError::Bus)
                    } else {
                        &&& transfers.len() == 6
                        &&& reads(transfers[5], ACTIVE_RDO, 4)
                        &&& if !succeeded(transfers[5]) {
                            failed(6, PdError::Bus)
                        } else {
                            passive_contract(
                                objects(data(transfers[4]), held),
                                le32(data(transfers[5]), 0),
                                measured_vbus_mv,
                                result,
                            )
                        }
                    }
                }
            }
        }
    }
}

/// Negotiates a contract, one bounded step at a time.
pub struct Negotiator {
    pub state: State,
    pub current_cap_ma: u16,
}

fn expired(now: u16, deadline: u16) -> (reached: bool)
    ensures
        reached == clock_reached(now, deadline),
{
    now.wrapping_sub(deadline) < 0x8000
}

fn timeout_from(now: u16) -> (deadline: u16)
    ensures
        deadline == clock_after(now, OPERATION_TIMEOUT_MS),
{
    now.wrapping_add(OPERATION_TIMEOUT_MS)
}

impl Negotiator {
    pub fn new(current_cap_ma: u16) -> (negotiator: Self)
        ensures
            negotiator == (Negotiator { state: State::Discover, current_cap_ma }),
    {
        Negotiator { state: State::Discover, current_cap_ma }
    }

    /// The contract that holds, if one does.
    pub open spec fn held_contract(self) -> Option<Contract> {
        match self.state {
            State::Ready(contract) => Some(contract),
            _ => None,
        }
    }

    /// The error that ended the negotiation, if one did.
    pub open spec fn failure(self) -> Option<PdError> {
        match self.state {
            State::Failed(error) => Some(error),
            _ => None,
        }
    }

    pub fn contract(&self) -> (contract: Option<Contract>)
        ensures
            contract == self.held_contract(),
    {
        match self.state {
            State::Ready(contract) => Some(contract),
            _ => None,
        }
    }

    pub fn current_cap_ma(&self) -> (milliamps: u16)
        ensures
            milliamps == self.current_cap_ma,
    {
        self.current_cap_ma
    }

    pub fn restart(&mut self, current_cap_ma: u16)
        ensures
            *final(self) == (Negotiator { state: State::Discover, current_cap_ma }),
    {
        self.current_cap_ma = current_cap_ma;
        self.state = State::Discover;
    }

    pub fn failed(&self) -> (error: Option<PdError>)
        ensures
            error == self.failure(),
    {
        match self.state {
            State::Failed(error) => Some(error),
            _ => None,
        }
    }

    fn fail(&mut self, error: PdError) -> (event: Option<PdEvent>)
        ensures
            *final(self) == (Negotiator { state: State::Failed(error), ..*old(self) }),
            event == Some(PdEvent::Lost(error)),
    {
        self.state = State::Failed(error);
        Some(PdEvent::Lost(error))
    }

    fn read_byte<B: PdBus>(bus: &mut B, register: u8) -> (result: Result<u8, PdError>)
        ensures
            ({
                let transfer = final(bus).log().last();
                &&& final(bus).log() == old(bus).log().push(transfer)
                &&& reads(transfer, register, 1)
                &&& result == (if succeeded(transfer) {
                    Ok::<u8, PdError>(data(transfer)[0])
                } else {
                    Err::<u8, PdError>(PdError::Bus)
                })
            }),
    {
        let mut value: [u8; 1] = [0];
        match bus.read(register, &mut value) {
            Ok(()) => Ok(value[0]),
            Err(_) => Err(PdError::Bus),
        }
    }

    fn send_get_source_capabilities<B: PdBus>(bus: &mut B) -> (result: Result<(), PdError>)
        ensures
            ({
                let transfers = added(old(bus).log(), final(bus).log());
                &&& old(bus).log().is_prefix_of(final(bus).log())
                &&& transfers.len() > 0
                &&& writes(transfers[0], TX_HEADER, GET_SOURCE_CAPABILITIES@)
                &&& if succeeded(transfers[0]) {
                    &&& transfers.len() == 2
                    &&& writes(transfers[1], COMMAND_CTRL, seq![SEND_COMMAND])
                    &&& result == (if succeeded(transfers[1]) {
                        Ok::<(), PdError>(())
                    } else {
                        Err::<(), PdError>(PdError::Bus)
                    })
                } else {
                    transfers.len() == 1 && result == Err::<(), PdError>(PdError::Bus)
                }
            }),
    {
        let header: [u8; 2] = GET_SOURCE_CAPABILITIES;
        if bus.write(TX_HEADER, header.as_slice()).is_err() {
            return Err(PdError::Bus);
        }
        let command: [u8; 1] = [SEND_COMMAND];
        assert(command@ =~= seq![SEND_COMMAND]);
        match bus.write(COMMAND_CTRL, command.as_slice()) {
            Ok(()) => Ok(()),
            Err(_) => Err(PdError::Bus),
        }
    }

    fn is_known_device(identity: u8) -> (known: bool)
        ensures
            known == known_device(identity),
    {
        identity == DEVICE_IDS[0] || identity == DEVICE_IDS[1]
    }

    fn read_request<B: PdBus>(bus: &mut B) -> (result: Result<Rdo, PdError>)
        ensures
            ({
                let transfer = final(bus).log().last();
                &&& final(bus).log() == old(bus).log().push(transfer)
                &&& reads(transfer, ACTIVE_RDO, 4)
                &&& result == (if succeeded(transfer) {
                    request(le32(data(transfer), 0))
                } else {
                    Err::<Rdo, PdError>(PdError::Bus)
                })
            }),
    {
        let mut bytes: [u8; 4] = [0;4];
        match bus.read(ACTIVE_RDO, &mut bytes) {
            Ok(()) => decode_rdo(bytes),
            Err(_) => Err(PdError::Bus),
        }
    }

    fn discover<B: PdBus>(&mut self, bus: &mut B, now: u16) -> (result: Result<
        Option<PdEvent>,
        PdError,
    >)
        ensures
            discovered(
                old(self).state,
                now,
                added(old(bus).log(), final(bus).log()),
                final(self).state,
                result,
            ),
            final(self).current_cap_ma == old(self).current_cap_ma,
            old(bus).log().is_prefix_of(final(bus).log()),
    {
        match Self::read_byte(bus, DEVICE_ID) {
            Ok(identity) => if !Self::is_known_device(identity) {
                return Err(PdError::WrongDevice);
            },
            Err(error) => {
                return Err(error);
            },
        }
        match Self::read_byte(bus, PORT_STATUS) {
            Ok(status) => if status & 1 == 0 {
                return Err(PdError::Detached);
            },
            Err(error) => {
                return Err(error);
            },
        }
        self.state = State::WaitReady { deadline: timeout_from(now) };
        Ok(None)
    }

    fn await_ready<B: PdBus>(&mut self, bus: &mut B, deadline: u16, now: u16) -> (result: Result<
        Option<PdEvent>,
        PdError,
    >)
        ensures
            awaited_ready(
                old(self).state,
                deadline,
                now,
                added(old(bus).log(), final(bus).log()),
                final(self).state,
                result,
            ),
            final(self).current_cap_ma == old(self).current_cap_ma,
            old(bus).log().is_prefix_of(final(bus).log()),
    {
        let ghost before = bus.log();
        match Self::read_byte(bus, PE_FSM) {
            Ok(state) => if state != PE_SINK_READY {
                return if expired(now, deadline) {
                    Err(PdError::Timeout)
                } else {
                    Ok(None)
                };
            },
            Err(error) => {
                return Err(error);
            },
        }
        let ghost ready = bus.log();
        let sent = Self::send_get_source_capabilities(bus);
        proof {
            lemma_added(before, ready, bus.log());
        }
        match sent {
            Ok(()) => {
                self.state = State::WaitCapabilities { deadline: timeout_from(now) };
                Ok(None)
            },
            Err(error) => Err(error),
        }
    }

    /// Chooses among the objects of a capabilities message and writes the
    /// choice, four transfers after `start`.
    fn choose_source<B: PdBus>(
        &mut self,
        bus: &mut B,
        header: [u8; 2],
        byte_count: u8,
        bytes: &[u8],
        now: u16,
        Ghost(start): Ghost<Seq<Transfer>>,
    ) -> (result: Result<Option<PdEvent>, PdError>)
        requires
            capabilities_wf(le16(header[0], header[1]), byte_count, bytes@),
            start.is_prefix_of(old(bus).log()),
            added(start, old(bus).log()).len() == 4,
        ensures
            ({
                let count = object_count(le16(header[0], header[1]));
                exists|chosen: Option<Selection>| #[trigger]
                    richest(
                        objects(bytes@, count),
                        count,
                        20_000,
                        old(self).current_cap_ma,
                        chosen,
                    ) && chose(
                        old(self).state,
                        chosen,
                        now,
                        added(start, final(bus).log()),
                        final(self).state,
                        result,
                    )
            }),
            final(self).current_cap_ma == old(self).current_cap_ma,
            old(bus).log().is_prefix_of(final(bus).log()),
    {
        let (pdos, count) = match decode_source_capabilities(header, byte_count, bytes) {
            Ok(decoded) => decoded,
            Err(error) => {
                return Err(error);
            },
        };
        let offers = vstd::slice::slice_subrange(pdos.as_slice(), 0, count);
        assert(offers@ =~= objects(bytes@, count as int));
        let chosen = select_highest_power_fixed(offers, 20_000, self.current_cap_ma);
        let selection = match chosen {
            Some(selection) => selection,
            None => {
                return Err(PdError::NoSuitablePdo);
            },
        };
        let raw: u32 = match encode_sink_fixed_pdo(
            selection.source.millivolts,
            selection.requested_milliamps,
        ) {
            Some(raw) => raw,
            None => {
                return Err(PdError::NoSuitablePdo);
            },
        };
        let wanted: [u8; 4] = to_bytes32(raw);
        if bus.write(SINK_PDO3, wanted.as_slice()).is_err() {
            return Err(PdError::Bus);
        }
        let ghost written = bus.log();
        match Self::send_get_source_capabilities(bus) {
            Ok(()) => {},
            Err(error) => {
                proof {
                    lemma_added(start, written, bus.log());
                }
                return Err(error);
            },
        }
        proof {
            lemma_added(start, written, bus.log());
        }
        self.state = State::WaitContract { deadline: timeout_from(now), selection };
        Ok(None)
    }

    fn await_capabilities<B: PdBus>(&mut self, bus: &mut B, deadline: u16, now: u16) -> (result:
        Result<Option<PdEvent>, PdError>)
        ensures
            awaited_capabilities(
                old(self).state,
                deadline,
                old(self).current_cap_ma,
                now,
                added(old(bus).log(), final(bus).log()),
                final(self).state,
                result,
            ),
            final(self).current_cap_ma == old(self).current_cap_ma,
            old(bus).log().is_prefix_of(final(bus).log()),
    {
        let ghost start = bus.log();
        match Self::read_byte(bus, PRT_STATUS) {
            Ok(status) => if status & PD_MESSAGE_RECEIVED == 0 {
                return if expired(now, deadline) {
                    Err(PdError::Timeout)
                } else {
                    Ok(None)
                };
            },
            Err(error) => {
                return Err(error);
            },
        }
        let mut header: [u8; 2] = [0;2];
        if bus.read(RX_HEADER, &mut header).is_err() {
            return Err(PdError::Bus);
        }
        let word: u16 = header[0] as u16 + 0x100 * (header[1] as u16);
        if word % 0x20 != 1 {
            return Ok(None);
        }
        let byte_count: u8 = match Self::read_byte(bus, RX_BYTE_COUNT) {
            Ok(byte_count) => byte_count,
            Err(error) => {
                return Err(error);
            },
        };
        let count: usize = (word / 0x1000 % 8) as usize;
        if count == 0 || byte_count as usize != count * 4 {
            return Err(PdError::MalformedCapabilities);
        }
        let mut bytes: Vec<u8> = vec![0u8; count * 4];
        if bus.read(RX_DATA, bytes.as_mut_slice()).is_err() {
            return Err(PdError::Bus);
        }
        let ghost received = bus.log();
        let result = self.choose_source(
            bus,
            header,
            byte_count,
            bytes.as_slice(),
            now,
            Ghost(start),
        );
        proof {
            let transfers = added(start, bus.log());
            lemma_added(start, received, bus.log());
            assert(transfers[3] == added(start, received)[3]);
            assert(data(transfers[3]) == bytes@);
        }
        result
    }

    fn await_contract<B: PdBus>(
        &mut self,
        bus: &mut B,
        deadline: u16,
        selection: Selection,
        now: u16,
    ) -> (result: Result<Option<PdEvent>, PdError>)
        ensures
            awaited_contract(
                old(self).state,
                deadline,
                selection,
                now,
                added(old(bus).log(), final(bus).log()),
                final(self).state,
                result,
            ),
            final(self).current_cap_ma == old(self).current_cap_ma,
            old(bus).log().is_prefix_of(final(bus).log()),
    {
        match Self::read_byte(bus, PORT_STATUS) {
            Ok(status) => if status & 1 == 0 {
                return Err(PdError::Detached);
            },
            Err(error) => {
                return Err(error);
            },
        }
        match Self::read_byte(bus, PE_FSM) {
            Ok(state) => if state != PE_SINK_READY {
                return if expired(now, deadline) {
                    Err(PdError::Timeout)
                } else {
                    Ok(None)
                };
            },
            Err(error) => {
                return Err(error);
            },
        }
        let rdo = match Self::read_request(bus) {
            Ok(rdo) => rdo,
            Err(error) => {
                return Err(error);
            },
        };
        if rdo.source_position != selection.source.source_position || rdo.capability_mismatch
            || rdo.operating_milliamps != selection.requested_milliamps || rdo.maximum_milliamps
            != selection.source.milliamps {
            return if expired(now, deadline) {
                Err(PdError::ContractMismatch)
            } else {
                Ok(None)
            };
        }
        let contract = Contract {
            source_position: rdo.source_position,
            millivolts: selection.source.millivolts,
            operating_milliamps: rdo.operating_milliamps,
            maximum_milliamps: rdo.maximum_milliamps,
        };
        self.state = State::Ready(contract);
        Ok(Some(PdEvent::Negotiated(contract)))
    }

    fn watch<B: PdBus>(&mut self, bus: &mut B, contract: Contract) -> (result: Result<
        Option<PdEvent>,
        PdError,
    >)
        ensures
            watched(
                old(self).state,
                contract,
                added(old(bus).log(), final(bus).log()),
                final(self).state,
                result,
            ),
            final(self).current_cap_ma == old(self).current_cap_ma,
            old(bus).log().is_prefix_of(final(bus).log()),
    {
        match Self::read_byte(bus, PORT_STATUS) {
            Ok(status) => if status & 1 == 0 {
                return Err(PdError::Detached);
            },
            Err(error) => {
                return Err(error);
            },
        }
        match Self::read_byte(bus, PE_FSM) {
            Ok(state) => if state != PE_SINK_READY {
                return Err(PdError::Detached);
            },
            Err(error) => {
                return Err(error);
            },
        }
        let rdo = match Self::read_request(bus) {
            Ok(rdo) => rdo,
            Err(error) => {
                return Err(error);
            },
        };
        if rdo.source_position != contract.source_position || rdo.capability_mismatch
            || rdo.operating_milliamps != contract.operating_milliamps || rdo.maximum_milliamps
            != contract.maximum_milliamps {
            Err(PdError::ContractMismatch)
        } else {
            Ok(None)
        }
    }

    /// Takes one bounded step, and leaves the negotiator as it was where that
    /// ends with an error.
    pub fn step_result<B: PdBus>(&mut self, bus: &mut B, now: u16) -> (result: Result<
        Option<PdEvent>,
        PdError,
    >)
        ensures
            stepped(
                old(self).state,
                old(self).current_cap_ma,
                now,
                added(old(bus).log(), final(bus).log()),
                final(self).state,
                result,
            ),
            final(self).current_cap_ma == old(self).current_cap_ma,
            result is Err ==> *final(self) == *old(self),
            old(bus).log().is_prefix_of(final(bus).log()),
    {
        match self.state {
            State::Discover => self.discover(bus, now),
            State::WaitReady { deadline } => self.await_ready(bus, deadline, now),
            State::WaitCapabilities { deadline } => self.await_capabilities(bus, deadline, now),
            State::WaitContract { deadline, selection } => self.await_contract(
                bus,
                deadline,
                selection,
                now,
            ),
            State::Ready(contract) => self.watch(bus, contract),
            State::Failed(_) => Ok(None),
        }
    }

    /// Takes one bounded step. An error is reported once and ends the
    /// negotiation until it is restarted.
    pub fn step<B: PdBus>(&mut self, bus: &mut B, now: u16) -> (event: Option<PdEvent>)
        ensures
            stepped_to(
                old(self).state,
                old(self).current_cap_ma,
                now,
                added(old(bus).log(), final(bus).log()),
                final(self).state,
                event,
            ),
            final(self).current_cap_ma == old(self).current_cap_ma,
            old(bus).log().is_prefix_of(final(bus).log()),
    {
        match self.step_result(bus, now) {
            Ok(event) => event,
            Err(error) => self.fail(error),
        }
    }

    /// Looks for a contract that the controller negotiated on its own.
    fn import_passive<B: PdBus>(
        &mut self,
        bus: &mut B,
        measured_vbus_mv: u16,
        current_cap_ma: u16,
    ) -> (result: Result<Contract, PdError>)
        ensures
            imported(measured_vbus_mv, added(old(bus).log(), final(bus).log()), result),
            *final(self) == (match result {
                Ok(contract) => Negotiator { state: State::Ready(contract), current_cap_ma },
                Err(_) => *old(self),
            }),
            old(bus).log().is_prefix_of(final(bus).log()),
    {
        let ghost start = bus.log();
        match Self::read_byte(bus, DEVICE_ID) {
            Ok(identity) => if !Self::is_known_device(identity) {
                return Err(PdError::WrongDevice);
            },
            Err(error) => {
                return Err(error);
            },
        }
        match Self::read_byte(bus, PORT_STATUS) {
            Ok(status) => if status & 1 == 0 {
                return Err(PdError::Detached);
            },
            Err(error) => {
                return Err(error);
            },
        }
        match Self::read_byte(bus, PE_FSM) {
            Ok(state) => if state != PE_SINK_READY {
                return Err(PdError::Detached);
            },
            Err(error) => {
                return Err(error);
            },
        }
        let count: usize = match Self::read_byte(bus, SINK_PDO_COUNT) {
            Ok(value) => (value % 8) as usize,
            Err(error) => {
                return Err(error);
            },
        };
        if count < 1 || count > 3 {
            return Err(PdError::ContractMismatch);
        }
        let mut pdo_bytes: Vec<u8> = vec![0u8; count * 4];
        if bus.read(SINK_PDO1, pdo_bytes.as_mut_slice()).is_err() {
            return Err(PdError::Bus);
        }
        let mut sink_pdos: Vec<u32> = Vec::new();
        let mut index: usize = 0;
        while index < count
            invariant
                index <= count <= 3,
                pdo_bytes@.len() == count * 4,
                sink_pdos@ == objects(pdo_bytes@, index as int),
            decreases count - index,
        {
            let pdo: u32 = u32_at(pdo_bytes.as_slice(), index * 4);
            sink_pdos.push(pdo);
            assert(sink_pdos@ =~= objects(pdo_bytes@, index + 1));
            index = index + 1;
        }
        let mut rdo: [u8; 4] = [0;4];
        if bus.read(ACTIVE_RDO, &mut rdo).is_err() {
            return Err(PdError::Bus);
        }
        assert(data(added(start, bus.log())[4]) == pdo_bytes@);
        assert(data(added(start, bus.log())[5]) == rdo@);
        match match_passive_contract(sink_pdos.as_slice(), rdo, measured_vbus_mv) {
            Ok(contract) => {
                self.current_cap_ma = current_cap_ma;
                self.state = State::Ready(contract);
                Ok(contract)
            },
            Err(error) => Err(error),
        }
    }
}

/// Runs the negotiator at its cadence. Nothing is ever transmitted before
/// `request_negotiation`, nor after a failed negotiation until the next
/// request: until then the service only looks for a contract that is there.
pub struct Service {
    pub negotiator: Negotiator,
    pub cadence_ms: u16,
    pub active: bool,
    pub started_pending: bool,
}

/// The events of one tick: a start, and what the negotiator reports.
pub open spec fn tick_events(started: bool, event: Option<PdEvent>) -> Seq<Option<ServiceEvent>> {
    seq![
        if started {
            Some(ServiceEvent::NegotiationStarted)
        } else {
            None
        },
        match event {
            Some(event) => Some(ServiceEvent::Pd(event)),
            None => None,
        },
    ]
}

/// One tick of a service that has not been asked to negotiate: every half
/// second, with all outputs off and a measured input, it looks for a contract.
pub open spec fn ticked_passively(
    before: Service,
    elapsed_ms: u16,
    outputs_off: bool,
    requested_current_cap_ma: u16,
    measured_vbus_mv: Option<u16>,
    transfers: Seq<Transfer>,
    after: Service,
    events: Seq<Option<ServiceEvent>>,
) -> bool {
    let cadence = before.cadence_ms + elapsed_ms;
    if cadence < PASSIVE_DISCOVERY_MS {
        &&& after == Service { cadence_ms: cadence as u16, ..before }
        &&& transfers.len() == 0
        &&& events == tick_events(false, None)
    } else if !outputs_off || measured_vbus_mv is None {
        &&& after == Service { cadence_ms: 0, ..before }
        &&& transfers.len() == 0
        &&& events == tick_events(false, None)
    } else {
        exists|result: Result<Contract, PdError>| #[trigger]
            imported(measured_vbus_mv->Some_0, transfers, result) && match result {
                Ok(contract) => {
                    &&& after == Service {
                        negotiator: Negotiator {
                            state: State::Ready(contract),
                            current_cap_ma: requested_current_cap_ma,
                        },
                        cadence_ms: 0,
                        active: true,
                        ..before
                    }
                    &&& events == tick_events(false, Some(PdEvent::Negotiated(contract)))
                },
                Err(_) => {
                    &&& after == Service { cadence_ms: 0, ..before }
                    &&& events == tick_events(false, None)
                },
            }
    }
}

/// One tick of a service that negotiates or watches over a contract: one step
/// of the negotiator every 20 ms. A loss ends its activity.
pub open spec fn ticked_actively(
    before: Service,
    elapsed_ms: u16,
    now: u16,
    transfers: Seq<Transfer>,
    after: Service,
    events: Seq<Option<ServiceEvent>>,
) -> bool {
    let cadence = clock_after(before.cadence_ms, elapsed_ms);
    if cadence < 20 {
        &&& after == Service { cadence_ms: cadence, started_pending: false, ..before }
        &&& transfers.len() == 0
        &&& events == tick_events(before.started_pending, None)
    } else {
        exists|event: Option<PdEvent>| #[trigger]
            stepped_to(
                before.negotiator.state,
                before.negotiator.current_cap_ma,
                now,
                transfers,
                after.negotiator.state,
                event,
            ) && events == tick_events(before.started_pending, event) && after == (Service {
                negotiator: Negotiator {
                    state: after.negotiator.state,
                    ..before.negotiator
                },
                cadence_ms: 0,
                active: !(event matches Some(PdEvent::Lost(_))),
                started_pending: false,
            })
    }
}

impl Service {
    pub fn new(current_cap_ma: u16) -> (service: Self)
        ensures
            service == (Service {
                negotiator: Negotiator { state: State::Discover, current_cap_ma },
                cadence_ms: 0,
                active: false,
                started_pending: false,
            }),
    {
        Service {
            negotiator: Negotiator::new(current_cap_ma),
            cadence_ms: 0,
            active: false,
            started_pending: false,
        }
    }

    /// Asks for a negotiation; it starts with the next tick.
    pub fn request_negotiation(&mut self, current_cap_ma: u16)
        ensures
            *final(self) == (Service {
                negotiator: Negotiator { state: State::Discover, current_cap_ma },
                cadence_ms: 20,
                active: true,
                started_pending: true,
            }),
    {
        self.negotiator.restart(current_cap_ma);
        self.cadence_ms = 20;
        self.active = true;
        self.started_pending = true;
    }

    pub fn current_cap_ma(&self) -> (milliamps: u16)
        ensures
            milliamps == self.negotiator.current_cap_ma,
    {
        self.negotiator.current_cap_ma()
    }

    pub fn tick<B: PdBus>(
        &mut self,
        elapsed_ms: u16,
        now: u16,
        outputs_off: bool,
        requested_current_cap_ma: u16,
        measured_vbus_mv: Option<u16>,
        bus: &mut B,
    ) -> (events: [Option<ServiceEvent>; 2])
        ensures
            old(bus).log().is_prefix_of(final(bus).log()),
            !old(self).active ==> ticked_passively(
                *old(self),
                elapsed_ms,
                outputs_off,
                requested_current_cap_ma,
                measured_vbus_mv,
                added(old(bus).log(), final(bus).log()),
                *final(self),
                events@,
            ),
            old(self).active ==> ticked_actively(
                *old(self),
                elapsed_ms,
                now,
                added(old(bus).log(), final(bus).log()),
                *final(self),
                events@,
            ),
    {
        let mut events: [Option<ServiceEvent>; 2] = [None, None];
        if !self.active {
            self.cadence_ms = self.cadence_ms.saturating_add(elapsed_ms);
            if self.cadence_ms < PASSIVE_DISCOVERY_MS {
                assert(events@ =~= tick_events(false, None));
                return events;
            }
            self.cadence_ms = 0;
            if outputs_off {
                if let Some(measured_vbus_mv) = measured_vbus_mv {
                    if let Ok(contract) = self.negotiator.import_passive(
                        bus,
                        measured_vbus_mv,
                        requested_current_cap_ma,
                    ) {
                        self.active = true;
                        events[1] = Some(ServiceEvent::Pd(PdEvent::Negotiated(contract)));
                        assert(events@ =~= tick_events(
                            false,
                            Some(PdEvent::Negotiated(contract)),
                        ));
                        return events;
                    }
                }
            }
            assert(events@ =~= tick_events(false, None));
            return events;
        }
        let started: bool = self.started_pending;
        if started {
            self.started_pending = false;
            events[0] = Some(ServiceEvent::NegotiationStarted);
        }
        self.cadence_ms = self.cadence_ms.wrapping_add(elapsed_ms);
        if self.cadence_ms < 20 {
            assert(events@ =~= tick_events(started, None));
            return events;
        }
        self.cadence_ms = 0;
        let event = self.negotiator.step(bus, now);
        if matches!(event, Some(PdEvent::Lost(_))) {
            self.active = false;
        }
        events[1] = match event {
            Some(event) => Some(ServiceEvent::Pd(event)),
            None => None,
        };
        assert(events@ =~= tick_events(started, event));
        events
    }
}

/// Nothing is transmitted before a negotiation is asked for: such a tick makes
/// reads only.
pub proof fn passive_ticks_never_write(
    before: Service,
    elapsed_ms: u16,
    outputs_off: bool,
    requested_current_cap_ma: u16,
    measured_vbus_mv: Option<u16>,
    transfers: Seq<Transfer>,
    after: Service,
    events: Seq<Option<ServiceEvent>>,
)
    requires
        ticked_passively(
            before,
            elapsed_ms,
            outputs_off,
            requested_current_cap_ma,
            measured_vbus_mv,
            transfers,
            after,
            events,
        ),
    ensures
        forall|i: int| 0 <= i < transfers.len() ==> (#[trigger] transfers[i]) is Read,
{
}

/// A step that ends with an error takes nothing back and gets nowhere: the
/// contract, the failure, the stage and the cap are what they were before it.
pub proof fn errors_leave_the_negotiator_alone(
    before: Negotiator,
    now: u16,
    transfers: Seq<Transfer>,
    after: Negotiator,
    error: PdError,
)
    requires
        stepped(before.state, before.current_cap_ma, now, transfers, after.state, Err(error)),
        after.current_cap_ma == before.current_cap_ma,
    ensures
        after.held_contract() == before.held_contract(),
        after.failure() == before.failure(),
        after.state == before.state,
        after == before,
{
}

/// A failed negotiation is over: the service goes passive, and the negotiator
/// makes no transfer until it is restarted.
pub proof fn failure_is_terminal(
    before: Service,
    elapsed_ms: u16,
    now: u16,
    transfers: Seq<Transfer>,
    after: Service,
    events: Seq<Option<ServiceEvent>>,
    error: PdError,
    later: u16,
    later_transfers: Seq<Transfer>,
    next: State,
    event: Option<PdEvent>,
)
    requires
        ticked_actively(before, elapsed_ms, now, transfers, after, events),
        events[1] == Some(ServiceEvent::Pd(PdEvent::Lost(error))),
        stepped_to(
            after.negotiator.state,
            after.negotiator.current_cap_ma,
            later,
            later_transfers,
            next,
            event,
        ),
    ensures
        !after.active,
        after.negotiator.state == State::Failed(error),
        later_transfers.len() == 0,
        next == State::Failed(error),
        event is None,
{
}

/// A contract is only ever reported for what the source granted: the voltage,
/// current and object that were selected.
pub proof fn negotiated_contract_is_the_selection(
    deadline: u16,
    selection: Selection,
    current_cap_ma: u16,
    now: u16,
    transfers: Seq<Transfer>,
    next: State,
    contract: Contract,
)
    requires
        stepped_to(
            State::WaitContract { deadline, selection },
            current_cap_ma,
            now,
            transfers,
            next,
            Some(PdEvent::Negotiated(contract)),
        ),
    ensures
        contract == contract_of(selection),
        next == State::Ready(contract),
        request(le32(data(transfers[2]), 0)) matches Ok(rdo) && grants(rdo, selection),
{
}

/// Transfers add up.
proof fn lemma_added(first: Seq<Transfer>, second: Seq<Transfer>, third: Seq<Transfer>)
    requires
        first.is_prefix_of(second),
        second.is_prefix_of(third),
    ensures
        first.is_prefix_of(third),
        added(first, third) == added(first, second) + added(second, third),
{
    assert(added(first, third) =~= added(first, second) + added(second, third));
}

} // verus!
