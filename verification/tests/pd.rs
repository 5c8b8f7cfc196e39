//! USB PD negotiation.

use benchvolt_poc::pd::{
    decode_fixed_pdo, decode_rdo, decode_source_capabilities, encode_sink_fixed_pdo,
    match_passive_contract, select_highest_power_fixed, BusError, Contract, Negotiator, PdBus,
    PdError, PdEvent, Service, ServiceEvent, State, ACTIVE_RDO, COMMAND_CTRL, DEVICE_ID,
    GET_SOURCE_CAPABILITIES, PD_MESSAGE_RECEIVED, PE_FSM, PE_SINK_READY, PORT_STATUS, PRT_STATUS,
    RX_BYTE_COUNT, RX_DATA, RX_HEADER, SEND_COMMAND, SINK_PDO1, SINK_PDO3, SINK_PDO_COUNT,
    TX_HEADER,
};
use std::collections::VecDeque;

struct FailingBus;

impl PdBus for FailingBus {
    fn read(&mut self, _: u8, _: &mut [u8]) -> Result<(), BusError> {
        Err(BusError)
    }

    fn write(&mut self, _: u8, _: &[u8]) -> Result<(), BusError> {
        Err(BusError)
    }
}

#[test]
fn service_never_transmits_until_a_deliberate_request() {
    let mut service = Service::new(2_000);
    let mut bus = FailingBus;
    for now in [20, 2_020, 4_020, 60_000] {
        assert_eq!(
            service.tick(2_000, now, true, 5_000, None, &mut bus),
            [None; 2]
        );
    }

    service.request_negotiation(1_500);
    assert_eq!(
        service.tick(0, 60_001, true, 5_000, None, &mut bus),
        [
            Some(ServiceEvent::NegotiationStarted),
            Some(ServiceEvent::Pd(PdEvent::Lost(PdError::Bus)))
        ]
    );
    assert_eq!(service.current_cap_ma(), 1_500);
}

#[test]
fn failed_pd_negotiation_never_retries_without_another_request() {
    let mut service = Service::new(2_000);
    let mut bus = FailingBus;
    service.request_negotiation(2_000);
    assert_eq!(
        service.tick(0, 0, true, 2_000, None, &mut bus)[1],
        Some(ServiceEvent::Pd(PdEvent::Lost(PdError::Bus)))
    );
    for now in [2_000, 4_000, 30_000] {
        assert_eq!(
            service.tick(2_000, now, true, 2_000, None, &mut bus),
            [None; 2]
        );
    }
}

fn fixed(millivolts: u16, milliamps: u16) -> u32 {
    encode_sink_fixed_pdo(millivolts, milliamps).unwrap()
}

#[test]
fn fixed_pdo_codec_enforces_product_limits_and_resolution() {
    assert_eq!(
        decode_fixed_pdo(fixed(20_000, 5_000), 3)
            .unwrap()
            .millivolts,
        20_000
    );
    assert!(encode_sink_fixed_pdo(20_050, 1_000).is_none());
    assert!(encode_sink_fixed_pdo(9_001, 1_000).is_none());
    assert!(encode_sink_fixed_pdo(9_000, 1_001).is_none());
    assert!(decode_fixed_pdo((1 << 30) | fixed(9_000, 1_000), 1).is_none());
}

#[test]
fn passive_contract_uses_measured_vbus_to_identify_the_local_sink_profile() {
    let sink_pdos = [
        fixed(5_000, 3_000),
        fixed(12_000, 2_000),
        fixed(20_000, 1_500),
    ];
    let rdo = ((4u32 << 28) | (1_500u32 / 10 << 10) | (2_250u32 / 10)).to_le_bytes();
    assert_eq!(
        match_passive_contract(&sink_pdos, rdo, 19_750),
        Ok(Contract {
            source_position: 4,
            millivolts: 20_000,
            operating_milliamps: 1_500,
            maximum_milliamps: 2_250,
        })
    );
    assert_eq!(
        match_passive_contract(&sink_pdos, rdo, 8_000),
        Err(PdError::ContractMismatch)
    );
    let mismatch = u32::from_le_bytes(rdo) | (1 << 26);
    assert_eq!(
        match_passive_contract(&sink_pdos, mismatch.to_le_bytes(), 20_000),
        Err(PdError::ContractMismatch)
    );
}

#[test]
fn selection_chooses_highest_safe_power_and_caps_requested_current() {
    let pdos = [
        fixed(5_000, 3_000),
        fixed(9_000, 3_000),
        fixed(20_000, 2_000),
        (21_000u32 / 50 << 10) | (5_000u32 / 10),
    ];
    let selected = select_highest_power_fixed(&pdos, 20_000, 1_500).unwrap();
    assert_eq!(selected.source.source_position, 3);
    assert_eq!(selected.source.millivolts, 20_000);
    assert_eq!(selected.requested_milliamps, 1_500);
    assert!(select_highest_power_fixed(&pdos, 20_000, 0).is_none());
}

#[test]
fn source_capability_and_rdo_parsers_reject_malformed_frames() {
    let header = [0x01, 0x30];
    let data = [
        fixed(5_000, 3_000),
        fixed(9_000, 3_000),
        fixed(20_000, 2_000),
    ]
    .map(u32::to_le_bytes)
    .concat();
    let (_, count) = decode_source_capabilities(header, 12, &data).unwrap();
    assert_eq!(count, 3);
    assert_eq!(
        decode_source_capabilities([0x02, 0x30], 12, &data),
        Err(PdError::MalformedCapabilities)
    );
    assert_eq!(
        decode_source_capabilities(header, 8, &data),
        Err(PdError::MalformedCapabilities)
    );

    let raw = (3u32 << 28) | (1_500u32 / 10 << 10) | (2_000u32 / 10);
    assert_eq!(
        decode_rdo(raw.to_le_bytes()).unwrap().operating_milliamps,
        1_500
    );
    assert_eq!(decode_rdo([0; 4]), Err(PdError::ContractMismatch));
}

enum Operation {
    Read(u8, Vec<u8>),
    Write(u8, Vec<u8>),
}

struct ScriptBus(VecDeque<Operation>);

impl PdBus for ScriptBus {
    fn read(&mut self, register: u8, values: &mut [u8]) -> Result<(), BusError> {
        match self.0.pop_front() {
            Some(Operation::Read(expected, result))
                if expected == register && result.len() == values.len() =>
            {
                values.copy_from_slice(&result);
                Ok(())
            }
            _ => Err(BusError),
        }
    }

    fn write(&mut self, register: u8, values: &[u8]) -> Result<(), BusError> {
        match self.0.pop_front() {
            Some(Operation::Write(expected, result))
                if expected == register && result == values =>
            {
                Ok(())
            }
            _ => Err(BusError),
        }
    }
}

#[test]
fn service_imports_an_autonomous_contract_with_reads_only_after_settling() {
    let sink_pdos = [
        fixed(5_000, 3_000),
        fixed(12_000, 2_000),
        fixed(20_000, 1_500),
    ];
    let rdo = ((3u32 << 28) | (1_500u32 / 10 << 10) | (2_000u32 / 10)).to_le_bytes();
    let mut bus = ScriptBus(VecDeque::from(vec![
        Operation::Read(DEVICE_ID, vec![0x25]),
        Operation::Read(PORT_STATUS, vec![1]),
        Operation::Read(PE_FSM, vec![PE_SINK_READY]),
        Operation::Read(SINK_PDO_COUNT, vec![3]),
        Operation::Read(SINK_PDO1, sink_pdos.map(u32::to_le_bytes).concat()),
        Operation::Read(ACTIVE_RDO, rdo.to_vec()),
    ]));
    let mut service = Service::new(5_000);

    assert_eq!(
        service.tick(499, 499, true, 2_500, Some(19_800), &mut bus),
        [None; 2]
    );
    assert_eq!(bus.0.len(), 6);
    assert_eq!(
        service.tick(1, 500, false, 2_500, Some(19_800), &mut bus),
        [None; 2]
    );
    assert_eq!(bus.0.len(), 6);
    assert_eq!(
        service.tick(500, 1_000, true, 2_500, Some(19_800), &mut bus)[1],
        Some(ServiceEvent::Pd(PdEvent::Negotiated(Contract {
            source_position: 3,
            millivolts: 20_000,
            operating_milliamps: 1_500,
            maximum_milliamps: 2_000,
        })))
    );
    assert!(bus.0.is_empty());
    assert_eq!(service.current_cap_ma(), 2_500);
}

#[test]
fn negotiator_executes_bounded_active_sequence_and_verifies_rdo() {
    let source = [
        fixed(5_000, 3_000),
        fixed(9_000, 3_000),
        fixed(20_000, 2_000),
    ];
    let source_bytes = source.map(u32::to_le_bytes).concat();
    let requested = fixed(20_000, 1_500).to_le_bytes();
    let rdo = ((3u32 << 28) | (1_500u32 / 10 << 10) | (2_000u32 / 10)).to_le_bytes();
    let mut bus = ScriptBus(VecDeque::from(vec![
        Operation::Read(DEVICE_ID, vec![0x25]),
        Operation::Read(PORT_STATUS, vec![1]),
        Operation::Read(PE_FSM, vec![PE_SINK_READY]),
        Operation::Write(TX_HEADER, GET_SOURCE_CAPABILITIES.to_vec()),
        Operation::Write(COMMAND_CTRL, vec![SEND_COMMAND]),
        Operation::Read(PRT_STATUS, vec![PD_MESSAGE_RECEIVED]),
        Operation::Read(RX_HEADER, vec![0x01, 0x30]),
        Operation::Read(RX_BYTE_COUNT, vec![12]),
        Operation::Read(RX_DATA, source_bytes),
        Operation::Write(SINK_PDO3, requested.to_vec()),
        Operation::Write(TX_HEADER, GET_SOURCE_CAPABILITIES.to_vec()),
        Operation::Write(COMMAND_CTRL, vec![SEND_COMMAND]),
        Operation::Read(PORT_STATUS, vec![1]),
        Operation::Read(PE_FSM, vec![PE_SINK_READY]),
        Operation::Read(ACTIVE_RDO, rdo.to_vec()),
    ]));
    let mut negotiator = Negotiator::new(1_500);
    assert_eq!(negotiator.step(&mut bus, 0), None);
    assert_eq!(negotiator.step(&mut bus, 1), None);
    assert_eq!(negotiator.step(&mut bus, 2), None);
    assert_eq!(
        negotiator.step(&mut bus, 3),
        Some(PdEvent::Negotiated(Contract {
            source_position: 3,
            millivolts: 20_000,
            operating_milliamps: 1_500,
            maximum_milliamps: 2_000,
        }))
    );
    assert!(bus.0.is_empty());
}

#[test]
fn unrelated_pd_messages_are_ignored_without_extending_the_deadline() {
    let mut negotiator = Negotiator {
        state: State::WaitCapabilities { deadline: 500 },
        current_cap_ma: 1_500,
    };
    let mut bus = ScriptBus(VecDeque::from(vec![
        Operation::Read(PRT_STATUS, vec![PD_MESSAGE_RECEIVED]),
        Operation::Read(RX_HEADER, vec![0x0f, 0x00]),
    ]));

    assert_eq!(negotiator.step(&mut bus, 100), None);
    assert_eq!(negotiator.state, State::WaitCapabilities { deadline: 500 });
    assert!(bus.0.is_empty());
}

#[test]
fn ready_contract_rejects_any_rdo_identity_change() {
    let contract = Contract {
        source_position: 3,
        millivolts: 20_000,
        operating_milliamps: 1_500,
        maximum_milliamps: 2_000,
    };
    for changed_rdo in [
        (3u32 << 28) | (1_510u32 / 10 << 10) | (2_000u32 / 10),
        (3u32 << 28) | (1_500u32 / 10 << 10) | (1_990u32 / 10),
    ] {
        let mut negotiator = Negotiator {
            state: State::Ready(contract),
            current_cap_ma: 1_500,
        };
        let mut bus = ScriptBus(VecDeque::from(vec![
            Operation::Read(PORT_STATUS, vec![1]),
            Operation::Read(PE_FSM, vec![PE_SINK_READY]),
            Operation::Read(ACTIVE_RDO, changed_rdo.to_le_bytes().to_vec()),
        ]));

        assert_eq!(
            negotiator.step(&mut bus, 0),
            Some(PdEvent::Lost(PdError::ContractMismatch))
        );
    }
}

#[test]
fn negotiation_times_out_without_an_unbounded_poll_loop() {
    let mut bus = ScriptBus(VecDeque::from(vec![
        Operation::Read(DEVICE_ID, vec![0x25]),
        Operation::Read(PORT_STATUS, vec![1]),
        Operation::Read(PE_FSM, vec![0]),
        Operation::Read(PE_FSM, vec![0]),
    ]));
    let mut negotiator = Negotiator::new(3_000);
    assert_eq!(negotiator.step(&mut bus, u16::MAX - 100), None);
    assert_eq!(negotiator.step(&mut bus, u16::MAX - 99), None);
    assert_eq!(
        negotiator.step(&mut bus, 400),
        Some(PdEvent::Lost(PdError::Timeout))
    );
    assert_eq!(negotiator.failed(), Some(PdError::Timeout));
    assert!(bus.0.is_empty());
}

#[test]
fn every_bus_failure_becomes_a_terminal_reported_error() {
    let mut bus = ScriptBus(VecDeque::new());
    let mut negotiator = Negotiator::new(3_000);
    assert_eq!(
        negotiator.step(&mut bus, 0),
        Some(PdEvent::Lost(PdError::Bus))
    );
    assert_eq!(negotiator.step(&mut bus, 1), None);
    negotiator.restart(2_000);
    assert_eq!(negotiator.current_cap_ma(), 2_000);
}

#[test]
fn a_step_that_fails_keeps_the_cap() {
    let mut negotiator =
        Negotiator { state: State::WaitReady { deadline: 100 }, current_cap_ma: 1_500 };
    assert_eq!(negotiator.step(&mut FailingBus, 0), Some(PdEvent::Lost(PdError::Bus)));
    assert_eq!(negotiator.failed(), Some(PdError::Bus));
    assert_eq!(negotiator.contract(), None);
    assert_eq!(negotiator.current_cap_ma(), 1_500);
}

#[test]
fn a_result_that_is_an_error_leaves_the_negotiator_alone() {
    let contract = Contract {
        source_position: 3,
        millivolts: 20_000,
        operating_milliamps: 1_500,
        maximum_milliamps: 2_000,
    };
    for state in [State::Discover, State::WaitReady { deadline: 100 }, State::Ready(contract)] {
        let mut negotiator = Negotiator { state, current_cap_ma: 1_500 };
        assert_eq!(negotiator.step_result(&mut FailingBus, 0), Err(PdError::Bus));
        assert_eq!(negotiator.state, state);
        assert_eq!(negotiator.current_cap_ma(), 1_500);
        assert_eq!(negotiator.failed(), None);
    }
}
