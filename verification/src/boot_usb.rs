//! Polled USB serial device for the boot cores: endpoint registers, control
//! transfers, and bulk packets.
//!
//! The device is a state machine. It is handed what the peripheral's registers
//! hold, and names the accesses that follow.

pub mod ctrl;
pub mod desc;
pub mod regs;

use crate::boot_usb::desc::{
    init_serial, manufacturer, manufacturer_text, product, product_text, serial_text,
    string_descriptor, CONFIG, DEVICE, STRING_LANGID,
};
use crate::boot_usb::regs::{
    packed_writes, pma_read_bytes, pma_write_bytes, stat_tx_of, tx_status, unpacked, HalfWord,
    CNTR_CTRM, CNTR_FRES, CNTR_RESETM, DADDR_EF, EP_TYPE_BULK, EP_TYPE_CONTROL, EP_TYPE_INTERRUPT,
    STAT_DISABLED, STAT_NAK, STAT_VALID,
};
use vstd::prelude::*;
use vstd::slice::slice_subrange;

verus! {

pub const EP_CONTROL: u8 = 0;

pub const EP_BULK: u8 = 1;

pub const EP_INT: u8 = 2;

pub const EP0_TX_BUF: u16 = 0x18;

pub const EP0_RX_BUF: u16 = 0x58;

pub const EP1_TX_BUF: u16 = 0xC0;

pub const EP1_RX_BUF: u16 = 0x110;

pub const EP2_TX_BUF: u16 = 0x100;

/// Offsets inside a buffer descriptor.
pub const BD_TX_ADDR: u16 = 0;

pub const BD_TX_COUNT: u16 = 2;

pub const BD_RX_ADDR: u16 = 4;

pub const BD_RX_COUNT: u16 = 6;

/// Offsets of the buffer descriptors of the endpoints.
pub const BD_CONTROL: u16 = 0;

pub const BD_BULK: u16 = 8;

pub const BD_INT: u16 = 16;

pub const MAX_PACKET: usize = 64;

/// The receive count of a 64-byte buffer: two blocks of 32 bytes.
pub const COUNT_RX_64: u16 = 0x8400;

pub const DESC_DEVICE: u8 = 1;

pub const DESC_CONFIG: u8 = 2;

pub const DESC_STRING: u8 = 3;

pub const GET_STATUS: u8 = 0x00;

pub const SET_ADDRESS: u8 = 0x05;

pub const GET_DESCRIPTOR: u8 = 0x06;

pub const SET_CONFIGURATION: u8 = 0x09;

pub const SET_INTERFACE: u8 = 0x0B;

pub const SET_LINE_CODING: u8 = 0x20;

pub const GET_LINE_CODING: u8 = 0x21;

pub const SET_CONTROL_LINE_STATE: u8 = 0x22;

/// 115200 baud, 8 data bits, no parity, one stop bit.
pub const LINE_CODING: [u8; 7] = [0x00, 0xC2, 0x01, 0x00, 0x00, 0x00, 0x08];

/// GET_STATUS response: self-powered, no remote wakeup, no error.
pub const STATUS_DATA: [u8; 2] = [0x00, 0x00];

/// What a control transfer can send to the host.
#[derive(Clone, Copy, Debug, PartialEq, Eq, Structural)]
pub enum Desc {
    Device,
    Config,
    LangId,
    Manufacturer,
    Product,
    Serial,
    Status,
    LineCoding,
}

/// The bytes of a descriptor.
pub open spec fn desc_content(which: Desc, serial: Seq<u8>) -> Seq<u8> {
    match which {
        Desc::Device => DEVICE@,
        Desc::Config => CONFIG@,
        Desc::LangId => STRING_LANGID@,
        Desc::Manufacturer => string_descriptor(38, manufacturer_text()),
        Desc::Product => string_descriptor(44, product_text()),
        Desc::Serial => serial,
        Desc::Status => STATUS_DATA@,
        Desc::LineCoding => LINE_CODING@,
    }
}

pub fn desc_bytes(which: Desc, serial: &[u8; 26]) -> (bytes: Vec<u8>)
    ensures
        bytes@ == desc_content(which, serial@),
        0 < bytes@.len() <= 67,
{
    match which {
        Desc::Device => vstd::slice::slice_to_vec(DEVICE.as_slice()),
        Desc::Config => vstd::slice::slice_to_vec(CONFIG.as_slice()),
        Desc::LangId => vstd::slice::slice_to_vec(STRING_LANGID.as_slice()),
        Desc::Manufacturer => vstd::slice::slice_to_vec(manufacturer().as_slice()),
        Desc::Product => vstd::slice::slice_to_vec(product().as_slice()),
        Desc::Serial => vstd::slice::slice_to_vec(serial.as_slice()),
        Desc::Status => vstd::slice::slice_to_vec(STATUS_DATA.as_slice()),
        Desc::LineCoding => vstd::slice::slice_to_vec(LINE_CODING.as_slice()),
    }
}

/// Where a control transfer stands.
#[derive(Clone, Copy, Debug, PartialEq, Eq, Structural)]
pub enum Stage {
    Idle,
    TxIn { which: Desc, total: usize },
    StatusIn { address: u8 },
    RxOut,
    StatusOut,
}

#[derive(Clone, Copy, Debug, PartialEq, Eq, Structural)]
pub enum Event {
    Quiet,
    /// Bulk-OUT packet received; retrieve with `recv()`.
    BulkRx,
}

/// One access to the peripheral.
#[derive(Clone, Copy, Debug, PartialEq, Eq)]
pub enum UsbStep {
    /// Change an endpoint register from its current value.
    Modify {
        endpoint: u8,
        stat_tx: Option<u8>,
        stat_rx: Option<u8>,
        clear_rx: bool,
        clear_tx: bool,
    },
    /// Bring an endpoint register into a known state.
    Init { endpoint: u8, ep_type: u16, status_tx: u8, status_rx: u8 },
    /// Write a half-word of the packet memory.
    Memory { offset: u16, value: u16 },
    BufferTable(u32),
    DeviceAddress(u32),
    Control(u32),
    InterruptFlags(u32),
    PullUp(bool),
    FeedWatchdog,
    Spin(u32),
}

/// An endpoint gets a transmit status.
pub open spec fn transmit(endpoint: u8, status: u8) -> UsbStep {
    UsbStep::Modify {
        endpoint,
        stat_tx: Some(status),
        stat_rx: None,
        clear_rx: false,
        clear_tx: false,
    }
}

/// An endpoint gets a receive status.
pub open spec fn receive(endpoint: u8, status: u8) -> UsbStep {
    UsbStep::Modify {
        endpoint,
        stat_tx: None,
        stat_rx: Some(status),
        clear_rx: false,
        clear_tx: false,
    }
}

/// The control endpoint is ready for the next setup packet.
pub open spec fn control_ready() -> UsbStep {
    UsbStep::Modify {
        endpoint: EP_CONTROL,
        stat_tx: Some(STAT_NAK),
        stat_rx: Some(STAT_VALID),
        clear_rx: false,
        clear_tx: false,
    }
}

/// The control endpoint is set up from scratch.
pub open spec fn control_init() -> UsbStep {
    UsbStep::Init {
        endpoint: EP_CONTROL,
        ep_type: EP_TYPE_CONTROL,
        status_tx: STAT_NAK,
        status_rx: STAT_VALID,
    }
}

pub fn transmit_step(endpoint: u8, status: u8) -> (step: UsbStep)
    ensures
        step == transmit(endpoint, status),
{
    UsbStep::Modify {
        endpoint,
        stat_tx: Some(status),
        stat_rx: None,
        clear_rx: false,
        clear_tx: false,
    }
}

pub fn receive_step(endpoint: u8, status: u8) -> (step: UsbStep)
    ensures
        step == receive(endpoint, status),
{
    UsbStep::Modify {
        endpoint,
        stat_tx: None,
        stat_rx: Some(status),
        clear_rx: false,
        clear_tx: false,
    }
}

/// Half-words on their way into the packet memory.
pub open spec fn memory_steps(writes: Seq<HalfWord>) -> Seq<UsbStep> {
    writes.map_values(|write: HalfWord| UsbStep::Memory { offset: write.0, value: write.1 })
}

/// A packet is put into a buffer, its length into the buffer descriptor, and
/// the endpoint is armed.
pub open spec fn packet_steps(endpoint: u8, buffer: u16, count_at: u16, data: Seq<u8>) -> Seq<
    UsbStep,
> {
    memory_steps(packed_writes(buffer, data)).push(
        UsbStep::Memory { offset: count_at, value: data.len() as u16 },
    ).push(transmit(endpoint, STAT_VALID))
}

pub fn queue_packet(endpoint: u8, buffer: u16, count_at: u16, data: &[u8]) -> (steps: Vec<UsbStep>)
    requires
        data@.len() <= MAX_PACKET,
        buffer <= 0x400,
    ensures
        steps@ == packet_steps(endpoint, buffer, count_at, data@),
{
    let writes = pma_write_bytes(buffer, data);
    let mut steps: Vec<UsbStep> = Vec::new();
    let mut index: usize = 0;
    assert(steps@ =~= memory_steps(writes@).take(0));
    while index < writes.len()
        invariant
            index <= writes@.len(),
            steps@ == memory_steps(writes@).take(index as int),
        decreases writes@.len() - index,
    {
        let (offset, value) = writes[index];
        steps.push(UsbStep::Memory { offset, value });
        index = index + 1;
        assert(steps@ =~= memory_steps(writes@).take(index as int));
    }
    assert(steps@ =~= memory_steps(writes@));
    steps.push(UsbStep::Memory { offset: count_at, value: data.len() as u16 });
    steps.push(transmit_step(endpoint, STAT_VALID));
    steps
}

/// The device.
#[derive(Clone, Copy, Debug, PartialEq, Eq)]
pub struct Usb {
    pub stage: Stage,
    /// Descriptor and bytes already acknowledged of the control data stage.
    pub tx: Option<(Desc, usize)>,
    pub bulk_rx_len: usize,
    pub last_chunk_len: usize,
    pub configured: bool,
    pub serial: [u8; 26],
}

/// The accesses that attach the device to the bus: a host-visible disconnect
/// first, long enough for the host to tear down what was attached before, then
/// the transceiver.
pub open spec fn attach_steps() -> Seq<UsbStep> {
    seq![UsbStep::PullUp(false)] + Seq::new(
        16,
        |i: int|
            if i % 2 == 0 {
                UsbStep::FeedWatchdog
            } else {
                UsbStep::Spin(12_000_000)
            },
    ) + seq![
        UsbStep::Control(CNTR_FRES),
        UsbStep::Spin(100),
        UsbStep::Control(0),
        UsbStep::InterruptFlags(0),
        UsbStep::BufferTable(0),
    ]
}

/// The accesses that let the host see the device.
pub open spec fn appear_steps() -> Seq<UsbStep> {
    seq![
        UsbStep::DeviceAddress(DADDR_EF),
        UsbStep::Control(CNTR_CTRM | CNTR_RESETM),
        UsbStep::PullUp(true),
    ]
}

/// The buffer descriptors of the endpoints.
pub open spec fn descriptor_table() -> Seq<UsbStep> {
    seq![
        UsbStep::BufferTable(0),
        UsbStep::Memory { offset: 4, value: EP0_RX_BUF },
        UsbStep::Memory { offset: 6, value: COUNT_RX_64 },
        UsbStep::Memory { offset: 0, value: EP0_TX_BUF },
        UsbStep::Memory { offset: 2, value: 0 },
        UsbStep::Memory { offset: 12, value: EP1_RX_BUF },
        UsbStep::Memory { offset: 14, value: COUNT_RX_64 },
        UsbStep::Memory { offset: 8, value: EP1_TX_BUF },
        UsbStep::Memory { offset: 10, value: 0 },
        UsbStep::Memory { offset: 16, value: EP2_TX_BUF },
        UsbStep::Memory { offset: 18, value: 0 },
    ]
}

/// The endpoints are set up: control and bulk wait for packets, the interrupt
/// endpoint has nothing to notify.
pub open spec fn endpoint_steps() -> Seq<UsbStep> {
    descriptor_table() + seq![
        control_init(),
        UsbStep::Init {
            endpoint: EP_INT,
            ep_type: EP_TYPE_INTERRUPT,
            status_tx: STAT_NAK,
            status_rx: STAT_DISABLED,
        },
        UsbStep::Init {
            endpoint: EP_BULK,
            ep_type: EP_TYPE_BULK,
            status_tx: STAT_NAK,
            status_rx: STAT_VALID,
        },
    ]
}

/// A phase of one poll, and what it has to be told.
#[derive(Clone, Copy, Debug, PartialEq, Eq)]
pub enum PollPhase {
    /// The interrupt flags.
    BusReset,
    /// The control endpoint register, for a transfer that was sent.
    ControlSent,
    /// The control endpoint register, freshly read, and the first bytes of its
    /// receive buffer.
    ControlReceived,
    /// The bulk endpoint register.
    BulkReceived,
    /// The receive count of the bulk endpoint, until two reads agree.
    BulkCount { last: Option<u16>, left: u16 },
    /// The bulk endpoint register, to find it wiped by the end of a reset.
    Wiped,
    /// The device address register.
    Address,
    /// The control endpoint register.
    ControlGuard,
    /// The bulk endpoint register.
    BulkGuard,
    /// The poll is over.
    Over(Event),
}

impl Usb {
    /// What a device in the middle of a control data stage keeps: the chunk on
    /// its way is part of what was asked for.
    pub open spec fn wf(self) -> bool {
        self.stage matches Stage::TxIn { which, total } ==> {
            &&& 0 < total <= desc_content(which, self.serial@).len()
            &&& self.tx matches Some((source, sent)) && source == which && sent < total
                && self.last_chunk_len == chunk_of(total, sent as int)
        }
    }

    /// The device with its endpoints set up from scratch.
    pub open spec fn rearmed(self) -> Self {
        Usb { stage: Stage::Idle, tx: None, bulk_rx_len: 0, last_chunk_len: 0, ..self }
    }

    /// A device that knows its chip's identity, before it is attached.
    pub fn new(uid0: u32, uid1: u32, uid2: u32) -> (usb: Self)
        ensures
            usb.wf(),
            usb.stage == Stage::Idle,
            usb.tx is None,
            usb.bulk_rx_len == 0,
            usb.last_chunk_len == 0,
            !usb.configured,
            usb.serial@ == string_descriptor(26, serial_text(uid0, uid1, uid2)),
    {
        Usb {
            stage: Stage::Idle,
            tx: None,
            bulk_rx_len: 0,
            last_chunk_len: 0,
            configured: false,
            serial: init_serial(uid0, uid1, uid2),
        }
    }

    /// The accesses that bring the device up on the bus, with clocks running.
    pub fn attach(&mut self) -> (steps: Vec<UsbStep>)
        ensures
            final(self).wf(),
            *final(self) == old(self).rearmed(),
            steps@ == attach_steps() + endpoint_steps() + appear_steps(),
    {
        let mut steps: Vec<UsbStep> = Vec::new();
        steps.push(UsbStep::PullUp(false));
        let mut hold: usize = 0;
        while hold < 8
            invariant
                hold <= 8,
                steps@ == attach_steps().take(1 + 2 * hold),
            decreases 8 - hold,
        {
            let ghost before = steps@;
            steps.push(UsbStep::FeedWatchdog);
            steps.push(UsbStep::Spin(12_000_000));
            hold = hold + 1;
            assert(steps@ =~= attach_steps().take(1 + 2 * hold)) by {
                assert(attach_steps().take(1 + 2 * hold)[2 * hold - 1] == UsbStep::FeedWatchdog);
                assert(attach_steps().take(1 + 2 * hold)[2 * hold] == UsbStep::Spin(12_000_000));
                assert(before =~= attach_steps().take(1 + 2 * hold).take(2 * hold - 1));
            }
        }
        steps.push(UsbStep::Control(CNTR_FRES));
        steps.push(UsbStep::Spin(100));
        steps.push(UsbStep::Control(0));
        steps.push(UsbStep::InterruptFlags(0));
        steps.push(UsbStep::BufferTable(0));
        assert(steps@ =~= attach_steps());
        let mut endpoints = self.endpoints_init();
        steps.append(&mut endpoints);
        steps.push(UsbStep::DeviceAddress(DADDR_EF));
        steps.push(UsbStep::Control(CNTR_CTRM | CNTR_RESETM));
        steps.push(UsbStep::PullUp(true));
        assert(steps@ =~= attach_steps() + endpoint_steps() + appear_steps());
        steps
    }

    /// (Re)initialize buffer descriptors and endpoint registers; also used
    /// on bus reset.
    pub fn endpoints_init(&mut self) -> (steps: Vec<UsbStep>)
        ensures
            final(self).wf(),
            *final(self) == old(self).rearmed(),
            steps@ == endpoint_steps(),
    {
        self.stage = Stage::Idle;
        self.tx = None;
        self.bulk_rx_len = 0;
        self.last_chunk_len = 0;
        let steps = vec![
            UsbStep::BufferTable(0),
            UsbStep::Memory { offset: BD_CONTROL + BD_RX_ADDR, value: EP0_RX_BUF },
            UsbStep::Memory { offset: BD_CONTROL + BD_RX_COUNT, value: COUNT_RX_64 },
            UsbStep::Memory { offset: BD_CONTROL + BD_TX_ADDR, value: EP0_TX_BUF },
            UsbStep::Memory { offset: BD_CONTROL + BD_TX_COUNT, value: 0 },
            UsbStep::Memory { offset: BD_BULK + BD_RX_ADDR, value: EP1_RX_BUF },
            UsbStep::Memory { offset: BD_BULK + BD_RX_COUNT, value: COUNT_RX_64 },
            UsbStep::Memory { offset: BD_BULK + BD_TX_ADDR, value: EP1_TX_BUF },
            UsbStep::Memory { offset: BD_BULK + BD_TX_COUNT, value: 0 },
            UsbStep::Memory { offset: BD_INT + BD_TX_ADDR, value: EP2_TX_BUF },
            UsbStep::Memory { offset: BD_INT + BD_TX_COUNT, value: 0 },
            UsbStep::Init {
                endpoint: EP_CONTROL,
                ep_type: EP_TYPE_CONTROL,
                status_tx: STAT_NAK,
                status_rx: STAT_VALID,
            },
            UsbStep::Init {
                endpoint: EP_INT,
                ep_type: EP_TYPE_INTERRUPT,
                status_tx: STAT_NAK,
                status_rx: STAT_DISABLED,
            },
            UsbStep::Init {
                endpoint: EP_BULK,
                ep_type: EP_TYPE_BULK,
                status_tx: STAT_NAK,
                status_rx: STAT_VALID,
            },
        ];
        assert(steps@ =~= endpoint_steps());
        steps
    }

    /// Copy a received bulk-OUT packet out of `words`, the half-words of its
    /// buffer; at most `capacity` bytes are kept. Reception stays off until
    /// `rx_release()` - call it once the packet is fully processed.
    pub fn recv(&mut self, words: &[u16], capacity: usize) -> (packet: Vec<u8>)
        requires
            old(self).bulk_rx_len <= 2 * words@.len() || capacity <= 2 * words@.len(),
        ensures
            *final(self) == (Usb { bulk_rx_len: 0, ..*old(self) }),
            packet@ == Seq::new(
                if old(self).bulk_rx_len < capacity {
                    old(self).bulk_rx_len as nat
                } else {
                    capacity as nat
                },
                |i: int| unpacked(words@, i),
            ),
    {
        let count: usize = if self.bulk_rx_len < capacity {
            self.bulk_rx_len
        } else {
            capacity
        };
        self.bulk_rx_len = 0;
        pma_read_bytes(words, count)
    }

    /// Re-arm bulk-OUT reception after the current packet's command has
    /// been handled. The host is held off in between - correct flow control,
    /// and it keeps the event/count reads race-free.
    pub fn rx_release(&self) -> (step: UsbStep)
        ensures
            step == receive(EP_BULK, STAT_VALID),
    {
        receive_step(EP_BULK, STAT_VALID)
    }

    /// Queue a bulk-IN packet; at most 64 bytes are sent.
    pub fn send(&self, data: &[u8]) -> (steps: Vec<UsbStep>)
        ensures
            steps@ == packet_steps(
                EP_BULK,
                EP1_TX_BUF,
                10,
                data@.take(
                    if data@.len() < MAX_PACKET {
                        data@.len() as int
                    } else {
                        MAX_PACKET as int
                    },
                ),
            ),
    {
        let count: usize = if data.len() < MAX_PACKET {
            data.len()
        } else {
            MAX_PACKET
        };
        let packet = slice_subrange(data, 0, count);
        assert(packet@ =~= data@.take(count as int));
        queue_packet(EP_BULK, EP1_TX_BUF, BD_BULK + BD_TX_COUNT, packet)
    }

    /// True when no bulk-IN transfer is in flight, from the bulk endpoint
    /// register.
    pub fn bulk_tx_idle(&self, bulk: u16) -> (idle: bool)
        ensures
            idle == (tx_status(bulk) == STAT_NAK),
    {
        stat_tx_of(bulk) == STAT_NAK
    }
}

/// The length of the chunk that follows `sent` bytes of `total`.
pub open spec fn chunk_of(total: usize, sent: int) -> int {
    if total - sent < 64 {
        total - sent
    } else {
        64
    }
}

} // verus!
