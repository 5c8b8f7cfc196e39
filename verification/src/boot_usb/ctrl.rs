//! Control transfers, and the poll that drives the device.
//!
//! Handled requests: standard SET_ADDRESS / GET_DESCRIPTOR / SET_CONFIGURATION /
//! SET_INTERFACE / GET_STATUS, and CDC class SET_LINE_CODING (data swallowed),
//! GET_LINE_CODING (fixed 115200-8-N-1), SET_CONTROL_LINE_STATE.

use crate::boot_usb::regs::{
    stat_tx_of, tx_status, DADDR_EF, EP_ADDR_FIELD, EP_CTR_RX, EP_CTR_TX, EP_SETUP, EP_STAT_RX,
    EP_TYPE_CONTROL, ISTR_RESET, STAT_DISABLED, STAT_NAK, STAT_STALL, STAT_VALID,
};
use crate::boot_usb::{
    chunk_of, control_init, control_ready, desc_bytes, desc_content, endpoint_steps, packet_steps,
    queue_packet, receive, receive_step, transmit, transmit_step, Desc, Event, PollPhase, Stage,
    Usb, UsbStep, DESC_CONFIG, DESC_DEVICE, DESC_STRING, EP0_TX_BUF, EP_BULK, EP_CONTROL,
    GET_DESCRIPTOR, GET_LINE_CODING, GET_STATUS, SET_ADDRESS, SET_CONFIGURATION,
    SET_CONTROL_LINE_STATE, SET_INTERFACE, SET_LINE_CODING,
};
use crate::little_endian::{le16, u16_at};
use vstd::prelude::*;
use vstd::slice::slice_subrange;

verus! {

/// The device after a step, and the accesses that belong to it.
pub type Outcome = (Usb, Seq<UsbStep>);

/// The status stage of a transfer towards the device: an empty packet. Its
/// count is written too, as the count of an earlier data stage would send
/// stale bytes.
pub open spec fn status_in(usb: Usb, address: u8) -> Outcome {
    (
        Usb { stage: Stage::StatusIn { address }, ..usb },
        seq![
            UsbStep::Memory { offset: 2, value: 0 },
            transmit(EP_CONTROL, STAT_VALID),
        ],
    )
}

/// A request that is not answered.
pub open spec fn stalled(usb: Usb) -> Outcome {
    (
        Usb { stage: Stage::Idle, tx: None, ..usb },
        seq![transmit(EP_CONTROL, STAT_STALL), receive(EP_CONTROL, STAT_STALL)],
    )
}

/// The next chunk of a data stage of `total` bytes, of which `sent` have
/// arrived.
pub open spec fn chunk_sent(usb: Usb, which: Desc, total: usize, sent: usize) -> Outcome {
    let chunk = chunk_of(total, sent as int);
    (
        Usb {
            stage: Stage::TxIn { which, total },
            tx: Some((which, sent)),
            last_chunk_len: chunk as usize,
            ..usb
        },
        packet_steps(
            EP_CONTROL,
            EP0_TX_BUF,
            2,
            desc_content(which, usb.serial@).subrange(sent as int, sent + chunk),
        ),
    )
}

/// The beginning of a data stage: no more than the host asked for, and no more
/// than there is.
pub open spec fn data_begun(usb: Usb, which: Desc, asked: int) -> Outcome {
    let length = desc_content(which, usb.serial@).len();
    chunk_sent(
        usb,
        which,
        if length < asked {
            length as usize
        } else {
            asked as usize
        },
        0,
    )
}

/// The descriptor that a request names.
pub open spec fn requested(kind: u8, index: u8) -> Option<Desc> {
    if kind == DESC_DEVICE {
        Some(Desc::Device)
    } else if kind == DESC_CONFIG {
        Some(Desc::Config)
    } else if kind == DESC_STRING {
        match index {
            0 => Some(Desc::LangId),
            1 => Some(Desc::Manufacturer),
            2 => Some(Desc::Product),
            3 => Some(Desc::Serial),
            _ => None,
        }
    } else {
        None
    }
}

/// What a setup packet leads to. It aborts whatever transfer was in flight.
pub open spec fn setup_outcome(before: Usb, packet: Seq<u8>) -> Outcome {
    let usb = Usb { tx: None, ..before };
    let kind = packet[0];
    let request = packet[1];
    if kind == 0x00 && request == SET_ADDRESS {
        status_in(usb, packet[2])
    } else if kind == 0x00 && request == SET_CONFIGURATION {
        status_in(Usb { configured: packet[2] != 0, ..usb }, 0)
    } else if kind == 0x00 && request == SET_INTERFACE {
        status_in(usb, 0)
    } else if kind == 0x80 && request == GET_STATUS {
        data_begun(usb, Desc::Status, 2)
    } else if kind == 0x80 && request == GET_DESCRIPTOR {
        match requested(packet[3], packet[2]) {
            Some(which) => if le16(packet[6], packet[7]) > 0 {
                data_begun(usb, which, le16(packet[6], packet[7]))
            } else {
                stalled(usb)
            },
            None => stalled(usb),
        }
    } else if kind == 0x21 && request == SET_LINE_CODING {
        (Usb { stage: Stage::RxOut, ..usb }, seq![receive(EP_CONTROL, STAT_VALID)])
    } else if kind == 0xA1 && request == GET_LINE_CODING {
        data_begun(usb, Desc::LineCoding, 7)
    } else if kind == 0x21 && request == SET_CONTROL_LINE_STATE {
        status_in(usb, 0)
    } else {
        stalled(usb)
    }
}

/// What a data or status packet from the host leads to.
pub open spec fn out_outcome(usb: Usb) -> Outcome {
    match usb.stage {
        Stage::RxOut => status_in(usb, 0),
        Stage::StatusOut => (Usb { stage: Stage::Idle, ..usb }, seq![control_ready()]),
        _ => (usb, seq![receive(EP_CONTROL, STAT_VALID)]),
    }
}

/// The control endpoint's transmit flag is cleared.
pub open spec fn sent_cleared() -> UsbStep {
    UsbStep::Modify {
        endpoint: EP_CONTROL,
        stat_tx: None,
        stat_rx: None,
        clear_rx: false,
        clear_tx: true,
    }
}

/// An endpoint's receive flag is cleared.
pub open spec fn received_cleared(endpoint: u8) -> UsbStep {
    UsbStep::Modify {
        endpoint,
        stat_tx: None,
        stat_rx: None,
        clear_rx: true,
        clear_tx: false,
    }
}

/// What follows a packet that the host has taken: the next chunk, the status
/// stage, or the end. Only now does a new address count.
pub open spec fn sent_outcome(usb: Usb) -> Outcome {
    match usb.stage {
        Stage::TxIn { which, total } => {
            let sent = (usb.tx->Some_0.1 + usb.last_chunk_len) as usize;
            if sent >= total {
                (
                    Usb { stage: Stage::StatusOut, tx: None, ..usb },
                    seq![sent_cleared(), receive(EP_CONTROL, STAT_VALID)],
                )
            } else {
                let (after, steps) = chunk_sent(usb, which, total, sent);
                (after, seq![sent_cleared()] + steps)
            }
        },
        Stage::StatusIn { address } => (
            Usb { stage: Stage::Idle, ..usb },
            if address != 0 {
                seq![
                    sent_cleared(),
                    UsbStep::DeviceAddress(address as u32 & 0x7F | DADDR_EF),
                    control_ready(),
                ]
            } else {
                seq![sent_cleared(), control_ready()]
            },
        ),
        _ => (usb, seq![sent_cleared()]),
    }
}

impl Usb {
    fn arm_status_in(&mut self, address: u8) -> (steps: Vec<UsbStep>)
        ensures
            (*final(self), steps@) == status_in(*old(self), address),
            final(self).wf(),
    {
        self.stage = Stage::StatusIn { address };
        let steps = vec![
            UsbStep::Memory { offset: 2, value: 0 },
            transmit_step(EP_CONTROL, STAT_VALID),
        ];
        assert(steps@ =~= status_in(*old(self), address).1);
        steps
    }

    fn stall_ep0(&mut self) -> (steps: Vec<UsbStep>)
        ensures
            (*final(self), steps@) == stalled(*old(self)),
            final(self).wf(),
    {
        self.stage = Stage::Idle;
        self.tx = None;
        let steps = vec![
            transmit_step(EP_CONTROL, STAT_STALL),
            receive_step(EP_CONTROL, STAT_STALL),
        ];
        assert(steps@ =~= stalled(*old(self)).1);
        steps
    }

    fn tx_chunk(&mut self, which: Desc, total: usize, sent: usize) -> (steps: Vec<UsbStep>)
        requires
            sent < total <= desc_content(which, old(self).serial@).len(),
        ensures
            (*final(self), steps@) == chunk_sent(*old(self), which, total, sent),
            final(self).wf(),
    {
        let bytes = desc_bytes(which, &self.serial);
        let chunk: usize = if total - sent < 64 {
            total - sent
        } else {
            64
        };
        let part = slice_subrange(bytes.as_slice(), sent, sent + chunk);
        let steps = queue_packet(EP_CONTROL, EP0_TX_BUF, 2, part);
        self.stage = Stage::TxIn { which, total };
        self.tx = Some((which, sent));
        self.last_chunk_len = chunk;
        steps
    }

    fn begin_tx(&mut self, which: Desc, asked: usize) -> (steps: Vec<UsbStep>)
        requires
            asked > 0,
        ensures
            (*final(self), steps@) == data_begun(*old(self), which, asked as int),
            final(self).wf(),
    {
        let length: usize = desc_bytes(which, &self.serial).len();
        let total: usize = if length < asked {
            length
        } else {
            asked
        };
        self.tx_chunk(which, total, 0)
    }

    /// SETUP received: parse, dispatch.
    pub fn ep0_setup(&mut self, packet: &[u8; 8]) -> (steps: Vec<UsbStep>)
        ensures
            (*final(self), steps@) == setup_outcome(*old(self), packet@),
            final(self).wf(),
    {
        self.tx = None;
        let kind: u8 = packet[0];
        let request: u8 = packet[1];
        let asked: usize = u16_at(packet.as_slice(), 6) as usize;
        if kind == 0x00 && request == SET_ADDRESS {
            self.arm_status_in(packet[2])
        } else if kind == 0x00 && request == SET_CONFIGURATION {
            self.configured = packet[2] != 0;
            self.arm_status_in(0)
        } else if kind == 0x00 && request == SET_INTERFACE {
            self.arm_status_in(0)
        } else if kind == 0x80 && request == GET_STATUS {
            self.begin_tx(Desc::Status, 2)
        } else if kind == 0x80 && request == GET_DESCRIPTOR {
            let which = match packet[3] {
                DESC_DEVICE => Some(Desc::Device),
                DESC_CONFIG => Some(Desc::Config),
                DESC_STRING => match packet[2] {
                    0 => Some(Desc::LangId),
                    1 => Some(Desc::Manufacturer),
                    2 => Some(Desc::Product),
                    3 => Some(Desc::Serial),
                    _ => None,
                },
                _ => None,
            };
            match which {
                Some(which) => if asked > 0 {
                    self.begin_tx(which, asked)
                } else {
                    self.stall_ep0()
                },
                None => self.stall_ep0(),
            }
        } else if kind == 0x21 && request == SET_LINE_CODING {
            self.stage = Stage::RxOut;
            let steps = vec![receive_step(EP_CONTROL, STAT_VALID)];
            assert(steps@ =~= seq![receive(EP_CONTROL, STAT_VALID)]);
            steps
        } else if kind == 0xA1 && request == GET_LINE_CODING {
            self.begin_tx(Desc::LineCoding, 7)
        } else if kind == 0x21 && request == SET_CONTROL_LINE_STATE {
            self.arm_status_in(0)
        } else {
            self.stall_ep0()
        }
    }

    /// OUT data stage on the control endpoint (SET_LINE_CODING payload or an
    /// empty status packet).
    pub fn ep0_rx_out(&mut self) -> (steps: Vec<UsbStep>)
        requires
            old(self).wf(),
        ensures
            (*final(self), steps@) == out_outcome(*old(self)),
            final(self).wf(),
    {
        match self.stage {
            Stage::RxOut => self.arm_status_in(0),
            Stage::StatusOut => {
                self.stage = Stage::Idle;
                let steps = vec![
                    UsbStep::Modify {
                        endpoint: EP_CONTROL,
                        stat_tx: Some(STAT_NAK),
                        stat_rx: Some(STAT_VALID),
                        clear_rx: false,
                        clear_tx: false,
                    },
                ];
                assert(steps@ =~= seq![control_ready()]);
                steps
            },
            _ => {
                let steps = vec![receive_step(EP_CONTROL, STAT_VALID)];
                assert(steps@ =~= seq![receive(EP_CONTROL, STAT_VALID)]);
                steps
            },
        }
    }

    /// A packet was taken by the host: advance the control data/status stage.
    pub fn ep0_tx_done(&mut self) -> (steps: Vec<UsbStep>)
        requires
            old(self).wf(),
        ensures
            (*final(self), steps@) == sent_outcome(*old(self)),
            final(self).wf(),
    {
        let mut steps: Vec<UsbStep> = vec![
            UsbStep::Modify {
                endpoint: EP_CONTROL,
                stat_tx: None,
                stat_rx: None,
                clear_rx: false,
                clear_tx: true,
            },
        ];
        assert(steps@ =~= seq![sent_cleared()]);
        match self.stage {
            Stage::TxIn { which, total } => {
                let before: usize = match self.tx {
                    Some((_, sent)) => sent,
                    None => 0,
                };
                let sent: usize = before + self.last_chunk_len;
                if sent >= total {
                    self.stage = Stage::StatusOut;
                    self.tx = None;
                    steps.push(receive_step(EP_CONTROL, STAT_VALID));
                } else {
                    let mut more = self.tx_chunk(which, total, sent);
                    steps.append(&mut more);
                }
            },
            Stage::StatusIn { address } => {
                self.stage = Stage::Idle;
                if address != 0 {
                    steps.push(UsbStep::DeviceAddress(address as u32 & 0x7F | DADDR_EF));
                }
                steps.push(
                    UsbStep::Modify {
                        endpoint: EP_CONTROL,
                        stat_tx: Some(STAT_NAK),
                        stat_rx: Some(STAT_VALID),
                        clear_rx: false,
                        clear_tx: false,
                    },
                );
            },
            _ => {},
        }
        assert(steps@ =~= sent_outcome(*old(self)).1);
        steps
    }
}

/// The reads of the bulk receive count before it is taken as it is.
pub const COUNT_READS: u16 = 1_000;

/// One phase of a poll: the device and the accesses, and the next phase.
pub struct PollOutcome {
    pub usb: Usb,
    pub steps: Seq<UsbStep>,
    pub next: PollPhase,
}

/// What one phase of a poll does with what it is told. A transfer that was sent
/// is handled before one that was received, each from a fresh reading: a packet
/// that is done belongs to the transfer in progress, a setup packet starts a
/// new one.
pub open spec fn poll_outcome(
    usb: Usb,
    phase: PollPhase,
    reading: u32,
    packet: Seq<u8>,
) -> PollOutcome {
    let register = reading as u16;
    let nothing = Seq::<UsbStep>::empty();
    match phase {
        PollPhase::BusReset => if reading & ISTR_RESET != 0 {
            PollOutcome {
                usb: Usb { configured: false, ..usb }.rearmed(),
                steps: seq![UsbStep::InterruptFlags(!ISTR_RESET)] + endpoint_steps() + seq![
                    UsbStep::DeviceAddress(DADDR_EF),
                ],
                next: PollPhase::Over(Event::Quiet),
            }
        } else {
            PollOutcome { usb, steps: nothing, next: PollPhase::ControlSent }
        },
        PollPhase::ControlSent => if register & EP_CTR_TX != 0 {
            PollOutcome {
                usb: sent_outcome(usb).0,
                steps: sent_outcome(usb).1,
                next: PollPhase::ControlReceived,
            }
        } else {
            PollOutcome { usb, steps: nothing, next: PollPhase::ControlReceived }
        },
        PollPhase::ControlReceived => {
            let (after, more) = if register & EP_CTR_RX == 0 {
                (usb, nothing)
            } else if register & EP_SETUP != 0 {
                setup_outcome(usb, packet)
            } else {
                out_outcome(usb)
            };
            PollOutcome {
                usb: after,
                steps: if register & EP_CTR_RX == 0 {
                    nothing
                } else {
                    seq![received_cleared(EP_CONTROL)] + more
                },
                next: if after.bulk_rx_len == 0 {
                    PollPhase::BulkReceived
                } else {
                    PollPhase::Wiped
                },
            }
        },
        PollPhase::BulkReceived => if register & EP_CTR_RX != 0 {
            PollOutcome {
                usb,
                steps: seq![received_cleared(EP_BULK), UsbStep::Spin(100)],
                next: PollPhase::BulkCount { last: None, left: COUNT_READS },
            }
        } else {
            PollOutcome { usb, steps: nothing, next: PollPhase::Wiped }
        },
        PollPhase::BulkCount { last, left } => {
            let count = register & 0x03FF;
            match last {
                None => PollOutcome {
                    usb,
                    steps: nothing,
                    next: PollPhase::BulkCount { last: Some(count), left },
                },
                Some(seen) => if seen == count || left <= 1 {
                    PollOutcome {
                        usb: Usb { bulk_rx_len: count as usize, ..usb },
                        steps: nothing,
                        next: PollPhase::Over(Event::BulkRx),
                    }
                } else {
                    PollOutcome {
                        usb,
                        steps: nothing,
                        next: PollPhase::BulkCount { last: Some(count), left: (left - 1) as u16 },
                    }
                },
            }
        },
        PollPhase::Wiped => if register & EP_ADDR_FIELD == 0 {
            PollOutcome {
                usb: Usb { configured: false, ..usb }.rearmed(),
                steps: endpoint_steps(),
                next: PollPhase::Address,
            }
        } else {
            PollOutcome { usb, steps: nothing, next: PollPhase::Address }
        },
        PollPhase::Address => PollOutcome {
            usb,
            steps: if reading & DADDR_EF == 0 {
                seq![UsbStep::DeviceAddress(DADDR_EF)]
            } else {
                nothing
            },
            next: PollPhase::ControlGuard,
        },
        PollPhase::ControlGuard => if register & EP_STAT_RX == 0 {
            PollOutcome {
                usb: Usb { stage: Stage::Idle, tx: None, ..usb },
                steps: seq![control_init()],
                next: PollPhase::BulkGuard,
            }
        } else {
            PollOutcome { usb, steps: nothing, next: PollPhase::BulkGuard }
        },
        PollPhase::BulkGuard => {
            let sending = if tx_status(register) == STAT_DISABLED {
                seq![transmit(EP_BULK, STAT_NAK)]
            } else {
                nothing
            };
            PollOutcome {
                usb,
                steps: if register & EP_STAT_RX == 0 && usb.bulk_rx_len == 0 {
                    sending.push(receive(EP_BULK, STAT_VALID))
                } else {
                    sending
                },
                next: PollPhase::Over(Event::Quiet),
            }
        },
        PollPhase::Over(_) => PollOutcome { usb, steps: nothing, next: phase },
    }
}

fn received_flag(endpoint: u8) -> (step: UsbStep)
    ensures
        step == received_cleared(endpoint),
{
    UsbStep::Modify { endpoint, stat_tx: None, stat_rx: None, clear_rx: true, clear_tx: false }
}

impl Usb {
    /// One phase of a poll: handles bus reset and control traffic, and reports
    /// `Event::BulkRx` when a bulk-OUT packet awaits `recv()`. `reading` is
    /// what the phase asks for, `packet` the start of the control receive
    /// buffer.
    pub fn poll(&mut self, phase: PollPhase, reading: u32, packet: &[u8; 8]) -> (result: (
        Vec<UsbStep>,
        PollPhase,
    ))
        requires
            old(self).wf(),
        ensures
            final(self).wf(),
            ({
                let expected = poll_outcome(*old(self), phase, reading, packet@);
                &&& *final(self) == expected.usb
                &&& result.0@ == expected.steps
                &&& result.1 == expected.next
            }),
    {
        let ghost expected = poll_outcome(*old(self), phase, reading, packet@);
        let register: u16 = (reading & 0xFFFF) as u16;
        assert((reading & 0xFFFF) as u16 == reading as u16) by (bit_vector);
        let mut steps: Vec<UsbStep> = Vec::new();
        match phase {
            PollPhase::BusReset => {
                if reading & ISTR_RESET == 0 {
                    assert(steps@ =~= expected.steps);
                    return (steps, PollPhase::ControlSent);
                }
                self.configured = false;
                steps.push(UsbStep::InterruptFlags(!ISTR_RESET));
                let mut endpoints = self.endpoints_init();
                steps.append(&mut endpoints);
                steps.push(UsbStep::DeviceAddress(DADDR_EF));
                assert(steps@ =~= expected.steps);
                (steps, PollPhase::Over(Event::Quiet))
            },
            PollPhase::ControlSent => {
                if register & EP_CTR_TX != 0 {
                    return (self.ep0_tx_done(), PollPhase::ControlReceived);
                }
                assert(steps@ =~= expected.steps);
                (steps, PollPhase::ControlReceived)
            },
            PollPhase::ControlReceived => {
                if register & EP_CTR_RX != 0 {
                    steps.push(received_flag(EP_CONTROL));
                    let mut more = if register & EP_SETUP != 0 {
                        self.ep0_setup(packet)
                    } else {
                        self.ep0_rx_out()
                    };
                    steps.append(&mut more);
                }
                assert(steps@ =~= expected.steps);
                if self.bulk_rx_len == 0 {
                    (steps, PollPhase::BulkReceived)
                } else {
                    (steps, PollPhase::Wiped)
                }
            },
            PollPhase::BulkReceived => {
                if register & EP_CTR_RX == 0 {
                    assert(steps@ =~= expected.steps);
                    return (steps, PollPhase::Wiped);
                }
                steps.push(received_flag(EP_BULK));
                steps.push(UsbStep::Spin(100));
                assert(steps@ =~= expected.steps);
                (steps, PollPhase::BulkCount { last: None, left: COUNT_READS })
            },
            PollPhase::BulkCount { last, left } => {
                assert(steps@ =~= expected.steps);
                let count: u16 = register & 0x03FF;
                match last {
                    None => (steps, PollPhase::BulkCount { last: Some(count), left }),
                    Some(seen) => {
                        if seen == count || left <= 1 {
                            self.bulk_rx_len = count as usize;
                            (steps, PollPhase::Over(Event::BulkRx))
                        } else {
                            (steps, PollPhase::BulkCount { last: Some(count), left: left - 1 })
                        }
                    },
                }
            },
            PollPhase::Wiped => {
                if register & EP_ADDR_FIELD == 0 {
                    self.configured = false;
                    return (self.endpoints_init(), PollPhase::Address);
                }
                assert(steps@ =~= expected.steps);
                (steps, PollPhase::Address)
            },
            PollPhase::Address => {
                if reading & DADDR_EF == 0 {
                    steps.push(UsbStep::DeviceAddress(DADDR_EF));
                }
                assert(steps@ =~= expected.steps);
                (steps, PollPhase::ControlGuard)
            },
            PollPhase::ControlGuard => {
                if register & EP_STAT_RX == 0 {
                    steps.push(
                        UsbStep::Init {
                            endpoint: EP_CONTROL,
                            ep_type: EP_TYPE_CONTROL,
                            status_tx: STAT_NAK,
                            status_rx: STAT_VALID,
                        },
                    );
                    self.stage = Stage::Idle;
                    self.tx = None;
                }
                assert(steps@ =~= expected.steps);
                (steps, PollPhase::BulkGuard)
            },
            PollPhase::BulkGuard => {
                if stat_tx_of(register) == STAT_DISABLED {
                    steps.push(transmit_step(EP_BULK, STAT_NAK));
                }
                if register & EP_STAT_RX == 0 && self.bulk_rx_len == 0 {
                    steps.push(receive_step(EP_BULK, STAT_VALID));
                }
                assert(steps@ =~= expected.steps);
                (steps, PollPhase::Over(Event::Quiet))
            },
            PollPhase::Over(event) => {
                assert(steps@ =~= expected.steps);
                (steps, PollPhase::Over(event))
            },
        }
    }
}

/// What the host has been handed of the descriptor in progress, the chunk on
/// its way with it.
pub open spec fn handed_out(usb: Usb) -> Seq<u8> {
    match usb.stage {
        Stage::TxIn { which, total } => desc_content(which, usb.serial@).take(
            usb.tx->Some_0.1 + usb.last_chunk_len,
        ),
        _ => Seq::empty(),
    }
}

/// A descriptor reaches the host complete and in order: each packet that the
/// host takes is followed by the next bytes, and the data stage ends only when
/// everything that was asked for was handed out.
pub proof fn descriptors_arrive_complete(usb: Usb)
    requires
        usb.wf(),
        usb.stage is TxIn,
    ensures
        ({
            let total = usb.stage->total;
            let which = usb.stage->which;
            let all = desc_content(which, usb.serial@).take(total as int);
            let (after, steps) = sent_outcome(usb);
            &&& after.stage == Stage::StatusOut ==> handed_out(usb) == all
            &&& after.stage != Stage::StatusOut ==> {
                &&& after.stage == usb.stage
                &&& after.wf()
                &&& handed_out(after) == handed_out(usb) + desc_content(
                    which,
                    usb.serial@,
                ).subrange(
                    after.tx->Some_0.1 as int,
                    after.tx->Some_0.1 + after.last_chunk_len,
                )
                &&& handed_out(after).len() > handed_out(usb).len()
            }
        }),
{
    let which = usb.stage->which;
    let total = usb.stage->total;
    let content = desc_content(which, usb.serial@);
    let (after, steps) = sent_outcome(usb);
    if after.stage != Stage::StatusOut {
        assert(handed_out(after) =~= handed_out(usb) + content.subrange(
            after.tx->Some_0.1 as int,
            after.tx->Some_0.1 + after.last_chunk_len,
        ));
    }
}

/// A new address takes effect only after the host has taken the status packet:
/// no setup packet changes it.
pub proof fn setup_never_changes_the_address(usb: Usb, packet: Seq<u8>, index: int)
    requires
        packet.len() == 8,
        0 <= index < setup_outcome(usb, packet).1.len(),
    ensures
        !(setup_outcome(usb, packet).1[index] is DeviceAddress),
{
}

/// The bulk receive buffer is not touched while a packet waits to be taken:
/// nothing arms its reception.
pub proof fn a_waiting_packet_is_safe(usb: Usb, phase: PollPhase, reading: u32, packet: Seq<u8>)
    requires
        usb.bulk_rx_len != 0,
        phase == PollPhase::BulkGuard,
    ensures
        !poll_outcome(usb, phase, reading, packet).steps.contains(receive(EP_BULK, STAT_VALID)),
{
}

} // verus!
