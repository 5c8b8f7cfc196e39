//! The boot cores' USB device.

use benchvolt_poc::boot_usb::desc::{init_serial, manufacturer, product, CONFIG, DEVICE};
use benchvolt_poc::boot_usb::regs::{
    bd, clear_ctr_rx, clear_ctr_tx, clocks_48mhz, ep_init, ep_modify, ep_type_of, pma_count_rx,
    pma_count_tx, pma_read_bytes, pma_write_bytes, set_stat_rx, set_stat_tx, stat_tx_of,
    ClockStep, EP_TYPE_CONTROL, STAT_NAK, STAT_STALL, STAT_VALID,
};
use benchvolt_poc::boot_usb::{
    desc_bytes, Desc, Event, PollPhase, Stage, Usb, UsbStep, DESC_CONFIG, EP_BULK, EP_CONTROL,
    GET_DESCRIPTOR, GET_LINE_CODING, GET_STATUS, SET_ADDRESS, SET_CONFIGURATION, SET_LINE_CODING,
};

/// What the endpoint register holds after a write.
fn after_write(current: u16, written: u16) -> u16 {
    ((current ^ written) & 0x7070) | (current & written & 0x8080) | (current & 0x0800)
        | (written & 0x070f)
}

#[test]
fn endpoint_writes_change_only_what_is_asked() {
    for current in [0u16, 0x3220, 0xb2f1, 0xffff, 0x8a80] {
        let after = after_write(current, set_stat_tx(current, STAT_VALID));
        assert_eq!(stat_tx_of(after), STAT_VALID);
        assert_eq!(after & !0x0030, current & !0x0030);
        let after = after_write(current, set_stat_rx(current, STAT_STALL));
        assert_eq!(after & 0x3000, 0x1000);
        assert_eq!(after & !0x3000, current & !0x3000);
        assert_eq!(after_write(current, clear_ctr_rx(current)), current & 0x7fff);
        assert_eq!(after_write(current, clear_ctr_tx(current)), current & 0xff7f);
        let after = after_write(current, ep_modify(current, Some(2), Some(3), true, true));
        assert_eq!(after & 0x30b0, 0x3020);
        let after = after_write(current, ep_init(current, 1, EP_TYPE_CONTROL, STAT_NAK, STAT_VALID));
        assert_eq!(after & 0xf7ff, 0x3221);
        assert_eq!(ep_type_of(after), EP_TYPE_CONTROL);
    }
}

#[test]
fn packet_memory_packs_two_bytes_per_half_word() {
    let writes = pma_write_bytes(0xc0, &[1, 2, 3]);
    assert_eq!(writes, [(0xc0, 0x0201), (0xc2, 0x0003)]);
    let words: Vec<u16> = writes.iter().map(|write| write.1).collect();
    assert_eq!(pma_read_bytes(&words, 3), [1, 2, 3]);
    assert_eq!(bd(2), 16);
    assert_eq!(pma_count_tx(1, 5), (10, 5));
    assert_eq!(pma_count_rx(1), 14);
}

#[test]
fn clocks_come_up_before_usb() {
    let plan = clocks_48mhz();
    assert_eq!(plan.len(), 10);
    assert_eq!(
        plan[9],
        ClockStep::Change { address: 0x4002_101C, clear: 0, set: 1 << 23 }
    );
}

#[test]
fn strings_are_exactly_as_long_as_they_say() {
    let text = |descriptor: &[u8]| -> Vec<u8> {
        assert_eq!(descriptor[0] as usize, descriptor.len());
        assert_eq!(descriptor[1], 3);
        descriptor[2..].chunks(2).map(|unit| unit[0]).collect()
    };
    assert_eq!(text(&manufacturer()), b"STMicroelectronics");
    assert_eq!(text(&product()), b"STM32 Virtual ComPort");
    assert_eq!(text(&init_serial(0x0123_4567, 0x89ab_cdef, 1)), b"0123456889AB");
    assert_eq!(text(&init_serial(0xffff_ffff, 0, 1)), b"000000000000");
}

fn device() -> Usb {
    let mut usb = Usb::new(1, 2, 3);
    let steps = usb.attach();
    assert_eq!(steps[0], UsbStep::PullUp(false));
    assert_eq!(steps.last(), Some(&UsbStep::PullUp(true)));
    usb
}

/// The packet that the steps queue on the control endpoint.
fn queued(steps: &[UsbStep]) -> Vec<u8> {
    let mut words = Vec::new();
    let mut count = None;
    for step in steps {
        match step {
            UsbStep::Memory { offset: 2, value } => count = Some(*value as usize),
            UsbStep::Memory { offset, value } if *offset >= 0x18 => words.push(*value),
            _ => {}
        }
    }
    pma_read_bytes(&words, count.unwrap())
}

#[test]
fn a_long_descriptor_is_served_in_packets() {
    let mut usb = device();
    let mut received =
        queued(&usb.ep0_setup(&[0x80, GET_DESCRIPTOR, 0, DESC_CONFIG, 0, 0, 0xff, 0]));
    assert_eq!(received.len(), 64);
    received.extend(queued(&usb.ep0_tx_done()));
    assert_eq!(received, CONFIG);
    assert!(matches!(usb.stage, Stage::TxIn { .. }));
    usb.ep0_tx_done();
    assert_eq!(usb.stage, Stage::StatusOut);
    usb.ep0_rx_out();
    assert_eq!(usb.stage, Stage::Idle);
}

#[test]
fn the_host_gets_no_more_than_it_asks_for() {
    let mut usb = device();
    let packet = queued(&usb.ep0_setup(&[0x80, GET_DESCRIPTOR, 0, 1, 0, 0, 8, 0]));
    assert_eq!(packet, DEVICE[..8]);
    assert_eq!(queued(&usb.ep0_setup(&[0x80, GET_STATUS, 0, 0, 0, 0, 2, 0])), [0, 0]);
    assert_eq!(
        queued(&usb.ep0_setup(&[0xa1, GET_LINE_CODING, 0, 0, 0, 0, 7, 0])),
        desc_bytes(Desc::LineCoding, &usb.serial)
    );
    assert_eq!(
        queued(&usb.ep0_setup(&[0x80, GET_DESCRIPTOR, 3, 3, 0, 0, 64, 0])),
        usb.serial
    );
}

#[test]
fn a_new_address_counts_after_the_status_packet() {
    let mut usb = device();
    let steps = usb.ep0_setup(&[0, SET_ADDRESS, 0x2a, 0, 0, 0, 0, 0]);
    assert!(!steps.iter().any(|step| matches!(step, UsbStep::DeviceAddress(_))));
    assert_eq!(usb.stage, Stage::StatusIn { address: 0x2a });
    let steps = usb.ep0_tx_done();
    assert_eq!(steps[1], UsbStep::DeviceAddress(0xaa));
    assert_eq!(usb.stage, Stage::Idle);
}

#[test]
fn requests_that_are_not_known_are_stalled() {
    let mut usb = device();
    let steps = usb.ep0_setup(&[0x80, GET_DESCRIPTOR, 9, 3, 0, 0, 64, 0]);
    assert!(matches!(
        steps[0],
        UsbStep::Modify { endpoint: EP_CONTROL, stat_tx: Some(STAT_STALL), .. }
    ));
    usb.ep0_setup(&[0x80, GET_DESCRIPTOR, 0, 1, 0, 0, 0, 0]);
    assert_eq!(usb.stage, Stage::Idle);
    usb.ep0_setup(&[0x21, SET_LINE_CODING, 0, 0, 0, 0, 7, 0]);
    assert_eq!(usb.stage, Stage::RxOut);
    usb.ep0_rx_out();
    assert_eq!(usb.stage, Stage::StatusIn { address: 0 });
    usb.ep0_setup(&[0, SET_CONFIGURATION, 1, 0, 0, 0, 0, 0]);
    assert!(usb.configured);
}

#[test]
fn a_bulk_packet_is_polled_received_and_released() {
    let mut usb = device();
    let none = [0; 8];
    let (steps, phase) = usb.poll(PollPhase::BusReset, 0, &none);
    assert!(steps.is_empty());
    assert_eq!(phase, PollPhase::ControlSent);
    let (_, phase) = usb.poll(phase, 0x3220, &none);
    assert_eq!(phase, PollPhase::ControlReceived);
    let (_, phase) = usb.poll(phase, 0x3220, &none);
    assert_eq!(phase, PollPhase::BulkReceived);
    let (steps, phase) = usb.poll(phase, 0xa021, &none);
    assert!(matches!(steps[0], UsbStep::Modify { endpoint: EP_BULK, clear_rx: true, .. }));
    let (_, phase) = usb.poll(phase, 0x8402, &none);
    let (_, phase) = usb.poll(phase, 0x8403, &none);
    let (_, phase) = usb.poll(phase, 0x8403, &none);
    assert_eq!(phase, PollPhase::Over(Event::BulkRx));
    assert_eq!(usb.recv(&[0x0201, 0x0003], 64), [1, 2, 3]);
    assert_eq!(usb.bulk_rx_len, 0);
    assert!(matches!(
        usb.rx_release(),
        UsbStep::Modify { endpoint: EP_BULK, stat_rx: Some(STAT_VALID), .. }
    ));
    let steps = usb.send(&[9; 70]);
    assert_eq!(steps.len(), 34);
    assert_eq!(steps[32], UsbStep::Memory { offset: 10, value: 64 });
    assert!(usb.bulk_tx_idle(0x0020));
    assert!(!usb.bulk_tx_idle(0x0030));
}

#[test]
fn a_bus_reset_starts_over() {
    let mut usb = device();
    usb.configured = true;
    usb.ep0_setup(&[0x80, GET_DESCRIPTOR, 0, 1, 0, 0, 8, 0]);
    let (steps, phase) = usb.poll(PollPhase::BusReset, 0x0400, &[0; 8]);
    assert_eq!(phase, PollPhase::Over(Event::Quiet));
    assert_eq!(usb.stage, Stage::Idle);
    assert!(!usb.configured);
    assert_eq!(steps.last(), Some(&UsbStep::DeviceAddress(0x80)));
}

#[test]
fn wiped_endpoints_are_set_up_again() {
    let mut usb = device();
    let (steps, phase) = usb.poll(PollPhase::Wiped, 0, &[0; 8]);
    assert_eq!(steps.len(), 14);
    let (steps, phase) = usb.poll(phase, 0, &[0; 8]);
    assert_eq!(steps, [UsbStep::DeviceAddress(0x80)]);
    let (steps, phase) = usb.poll(phase, 0, &[0; 8]);
    assert!(matches!(steps[0], UsbStep::Init { endpoint: EP_CONTROL, .. }));
    let (steps, phase) = usb.poll(phase, 0, &[0; 8]);
    assert_eq!(steps.len(), 2);
    assert_eq!(phase, PollPhase::Over(Event::Quiet));
}
