//! Register values of the STM32F070 USB peripheral.
//!
//! The status and toggle bits of an endpoint register flip where a one is
//! written, and its transfer flags clear where a zero is written. So every
//! write is computed from the current value.

use vstd::prelude::*;

verus! {

pub const BCDR_DPPU: u32 = 0x8000;

pub const CNTR_FRES: u32 = 0x0001;

pub const CNTR_PDWN: u32 = 0x0002;

pub const CNTR_CTRM: u32 = 0x8000;

pub const CNTR_RESETM: u32 = 0x0400;

pub const DADDR_EF: u32 = 0x0080;

pub const ISTR_RESET: u32 = 0x0400;

pub const EP_CTR_RX: u16 = 0x8000;

pub const EP_DTOG_RX: u16 = 0x4000;

pub const EP_STAT_RX: u16 = 0x3000;

pub const EP_SETUP: u16 = 0x0800;

pub const EP_TYPE_CONTROL: u16 = 0x0200;

pub const EP_TYPE_BULK: u16 = 0x0000;

pub const EP_TYPE_INTERRUPT: u16 = 0x0600;

pub const EP_KIND: u16 = 0x0100;

pub const EP_CTR_TX: u16 = 0x0080;

pub const EP_DTOG_TX: u16 = 0x0040;

pub const EP_STAT_TX: u16 = 0x0030;

pub const EP_ADDR_FIELD: u16 = 0x000F;

pub const EP_T_FIELD: u16 = 0x0600;

pub const STAT_DISABLED: u8 = 0;

pub const STAT_STALL: u8 = 1;

pub const STAT_NAK: u8 = 2;

pub const STAT_VALID: u8 = 3;

/// The transmit status of an endpoint register.
pub open spec fn tx_status(register: u16) -> u8 {
    ((register & 0x0030) >> 4) as u8
}

/// The receive status of an endpoint register.
pub open spec fn rx_status(register: u16) -> u8 {
    ((register & 0x3000) >> 12) as u8
}

/// The bits that turn a status into the one that is asked for.
pub open spec fn flips(current: u8, target: Option<u8>) -> u16 {
    match target {
        Some(wanted) => (current ^ wanted) as u16,
        None => 0,
    }
}

/// The value that changes an endpoint register: type, kind and address are
/// written back as read, a status flips where it differs from what is asked
/// for, and a transfer flag is cleared where that is asked for.
pub open spec fn modified(
    current: u16,
    stat_tx: Option<u8>,
    stat_rx: Option<u8>,
    clear_rx: bool,
    clear_tx: bool,
) -> u16 {
    (current & 0x070F) | ((flips(tx_status(current), stat_tx) & 3) << 4) | ((flips(
        rx_status(current),
        stat_rx,
    ) & 3) << 12) | (if clear_rx {
        0u16
    } else {
        0x8000
    }) | (if clear_tx {
        0u16
    } else {
        0x0080
    })
}

/// Computes what is written to an endpoint register. `None` keeps a status.
pub fn ep_modify(
    current: u16,
    stat_tx: Option<u8>,
    stat_rx: Option<u8>,
    clear_ctr_rx: bool,
    clear_ctr_tx: bool,
) -> (written: u16)
    ensures
        written == modified(current, stat_tx, stat_rx, clear_ctr_rx, clear_ctr_tx),
{
    let cur_tx: u8 = ((current & 0x0030) >> 4) as u8;
    let cur_rx: u8 = ((current & 0x3000) >> 12) as u8;
    let tx_bits: u16 = match stat_tx {
        Some(target) => (cur_tx ^ target) as u16,
        None => 0,
    };
    let rx_bits: u16 = match stat_rx {
        Some(target) => (cur_rx ^ target) as u16,
        None => 0,
    };
    let rx_flag: u16 = if clear_ctr_rx {
        0
    } else {
        EP_CTR_RX
    };
    let tx_flag: u16 = if clear_ctr_tx {
        0
    } else {
        EP_CTR_TX
    };
    (current & 0x070F) | ((tx_bits & 3) << 4) | ((rx_bits & 3) << 12) | rx_flag | tx_flag
}

/// The value that brings an endpoint register into a known state from any
/// other: the toggles flip back to zero, and pending transfer flags clear.
pub open spec fn initialized(
    current: u16,
    endpoint: u8,
    ep_type: u16,
    stat_tx: u8,
    stat_rx: u8,
) -> u16 {
    ep_type | (endpoint as u16 & 0x000F) | (current & 0x4040) | (((tx_status(current) as u16)
        ^ (stat_tx as u16)) << 4) | (((rx_status(current) as u16) ^ (stat_rx as u16)) << 12)
}

/// Computes what is written to bring an endpoint register into a known armed
/// state from ANY current state. Writing a fixed value here instead disables an
/// endpoint that is already armed.
pub fn ep_init(current: u16, endpoint: u8, ep_type: u16, stat_tx: u8, stat_rx: u8) -> (written: u16)
    ensures
        written == initialized(current, endpoint, ep_type, stat_tx, stat_rx),
{
    let cur_tx: u8 = ((current & 0x0030) >> 4) as u8;
    let cur_rx: u8 = ((current & 0x3000) >> 12) as u8;
    ep_type | (endpoint as u16 & 0x000F) | (current & 0x4040) | (((cur_tx as u16) ^ (
    stat_tx as u16)) << 4) | (((cur_rx as u16) ^ (stat_rx as u16)) << 12)
}

/// What is written to give an endpoint a transmit status.
pub fn set_stat_tx(current: u16, target: u8) -> (written: u16)
    ensures
        written == modified(current, Some(target), None, false, false),
{
    ep_modify(current, Some(target), None, false, false)
}

/// What is written to give an endpoint a receive status.
pub fn set_stat_rx(current: u16, target: u8) -> (written: u16)
    ensures
        written == modified(current, None, Some(target), false, false),
{
    ep_modify(current, None, Some(target), false, false)
}

/// What is written to clear an endpoint's receive flag.
pub fn clear_ctr_rx(current: u16) -> (written: u16)
    ensures
        written == modified(current, None, None, true, false),
{
    ep_modify(current, None, None, true, false)
}

/// What is written to clear an endpoint's transmit flag.
pub fn clear_ctr_tx(current: u16) -> (written: u16)
    ensures
        written == modified(current, None, None, false, true),
{
    ep_modify(current, None, None, false, true)
}

/// The type bits of an endpoint register.
pub fn ep_type_of(register: u16) -> (ep_type: u16)
    ensures
        ep_type == register & EP_T_FIELD,
{
    register & EP_T_FIELD
}

/// STAT_TX field of a raw register value as a 2-bit field value.
pub fn stat_tx_of(register: u16) -> (status: u8)
    ensures
        status == tx_status(register),
{
    ((register & 0x0030) >> 4) as u8
}

/// What an endpoint register holds after a write: status and toggle bits flip
/// on ones, transfer flags clear on zeros, the setup flag is read-only, and the
/// rest is taken over.
pub open spec fn register_after(current: u16, written: u16) -> u16 {
    ((current ^ written) & 0x7070) | (current & written & 0x8080) | (current & 0x0800) | (written
        & 0x070F)
}

/// Modifying an endpoint register does what was asked and no more: it sets the
/// statuses that were given, clears the flags that were given, and keeps every
/// other bit.
pub proof fn modifying_changes_only_what_is_asked(
    current: u16,
    stat_tx: Option<u8>,
    stat_rx: Option<u8>,
    clear_rx: bool,
    clear_tx: bool,
)
    requires
        stat_tx matches Some(target) ==> target <= 3,
        stat_rx matches Some(target) ==> target <= 3,
    ensures
        ({
            let after = register_after(
                current,
                modified(current, stat_tx, stat_rx, clear_rx, clear_tx),
            );
            &&& tx_status(after) == (match stat_tx {
                Some(target) => target,
                None => tx_status(current),
            })
            &&& rx_status(after) == (match stat_rx {
                Some(target) => target,
                None => rx_status(current),
            })
            &&& after & 0x8000 == (if clear_rx {
                0
            } else {
                current & 0x8000
            })
            &&& after & 0x0080 == (if clear_tx {
                0
            } else {
                current & 0x0080
            })
            &&& after & 0x4F4F == current & 0x4F4F
        }),
{
    let tx: u16 = match stat_tx {
        Some(target) => target as u16,
        None => (current & 0x0030) >> 4,
    };
    let rx: u16 = match stat_rx {
        Some(target) => target as u16,
        None => (current & 0x3000) >> 12,
    };
    let tx_bits = flips(tx_status(current), stat_tx);
    let rx_bits = flips(rx_status(current), stat_rx);
    assert((current & 0x0030) >> 4 <= 3 && (current & 0x3000) >> 12 <= 3) by (bit_vector);
    assert(tx_bits == ((current & 0x0030) >> 4) ^ tx) by {
        lemma_flip((current & 0x0030) >> 4, stat_tx);
    }
    assert(rx_bits == ((current & 0x3000) >> 12) ^ rx) by {
        lemma_flip((current & 0x3000) >> 12, stat_rx);
    }
    let rx_flag: u16 = if clear_rx {
        0
    } else {
        0x8000
    };
    let tx_flag: u16 = if clear_tx {
        0
    } else {
        0x0080
    };
    let written = (current & 0x070F) | ((tx_bits & 3) << 4) | ((rx_bits & 3) << 12) | rx_flag
        | tx_flag;
    let after = ((current ^ written) & 0x7070) | (current & written & 0x8080) | (current & 0x0800)
        | (written & 0x070F);
    assert(tx <= 3 && rx <= 3);
    assert((after & 0x0030) >> 4 == tx && (after & 0x3000) >> 12 == rx && after & 0x8000 == current
        & rx_flag && after & 0x0080 == current & tx_flag && after & 0x4F4F == current & 0x4F4F)
        by (bit_vector)
        requires
            tx <= 3,
            rx <= 3,
            tx_bits == ((current & 0x0030) >> 4) ^ tx,
            rx_bits == ((current & 0x3000) >> 12) ^ rx,
            rx_flag == 0 || rx_flag == 0x8000,
            tx_flag == 0 || tx_flag == 0x0080,
            written == (current & 0x070F) | ((tx_bits & 3) << 4) | ((rx_bits & 3) << 12) | rx_flag
                | tx_flag,
            after == ((current ^ written) & 0x7070) | (current & written & 0x8080) | (current
                & 0x0800) | (written & 0x070F),
    ;
    assert(current & 0 == 0) by (bit_vector);
}

proof fn lemma_flip(field: u16, target: Option<u8>)
    requires
        field <= 3,
        target matches Some(wanted) ==> wanted <= 3,
    ensures
        flips(field as u8, target) == field ^ (match target {
            Some(wanted) => wanted as u16,
            None => field,
        }),
{
    match target {
        Some(wanted) => {
            let narrow = field as u8;
            assert((narrow ^ wanted) as u16 == (narrow as u16) ^ (wanted as u16)) by (bit_vector);
        },
        None => {
            assert(field ^ field == 0) by (bit_vector);
        },
    }
}

/// Initializing an endpoint register gives it the statuses, type and address
/// asked for whatever it held before, with toggles and transfer flags clear.
pub proof fn initializing_forgets_the_past(
    current: u16,
    endpoint: u8,
    ep_type: u16,
    stat_tx: u8,
    stat_rx: u8,
)
    requires
        stat_tx <= 3,
        stat_rx <= 3,
        ep_type & 0x0600 == ep_type,
    ensures
        ({
            let after = register_after(
                current,
                initialized(current, endpoint, ep_type, stat_tx, stat_rx),
            );
            &&& tx_status(after) == stat_tx
            &&& rx_status(after) == stat_rx
            &&& after & 0x0600 == ep_type
            &&& after & 0x000F == endpoint as u16 & 0x000F
            &&& after & 0xC0C0 == 0
        }),
{
    let tx = stat_tx as u16;
    let rx = stat_rx as u16;
    let number = endpoint as u16;
    assert((current & 0x0030) >> 4 <= 3 && (current & 0x3000) >> 12 <= 3) by (bit_vector);
    let cur_tx = (current & 0x0030) >> 4;
    let cur_rx = (current & 0x3000) >> 12;
    assert(tx_status(current) as u16 == cur_tx);
    assert(rx_status(current) as u16 == cur_rx);
    let written = ep_type | (number & 0x000F) | (current & 0x4040) | ((cur_tx ^ tx) << 4) | ((
    cur_rx ^ rx) << 12);
    let after = ((current ^ written) & 0x7070) | (current & written & 0x8080) | (current & 0x0800)
        | (written & 0x070F);
    assert((after & 0x0030) >> 4 == tx && (after & 0x3000) >> 12 == rx && after & 0x0600 == ep_type
        && after & 0x000F == number & 0x000F && after & 0xC0C0 == 0) by (bit_vector)
        requires
            tx <= 3,
            rx <= 3,
            ep_type & 0x0600 == ep_type,
            cur_tx == (current & 0x0030) >> 4,
            cur_rx == (current & 0x3000) >> 12,
            written == ep_type | (number & 0x000F) | (current & 0x4040) | ((cur_tx ^ tx) << 4) | ((
            cur_rx ^ rx) << 12),
            after == ((current ^ written) & 0x7070) | (current & written & 0x8080) | (current
                & 0x0800) | (written & 0x070F),
    ;
}

/// The offset of an endpoint's buffer descriptor: transmit address, transmit
/// count, receive address and receive count, two bytes each.
pub fn bd(endpoint: usize) -> (offset: usize)
    requires
        endpoint < 8,
    ensures
        offset == 8 * endpoint,
{
    endpoint * 8
}

/// A half-word of the packet memory: offset and value.
pub type HalfWord = (u16, u16);

/// Half-word `index` of packed bytes: two per half-word, the low one first.
pub open spec fn packed(data: Seq<u8>, index: int) -> u16 {
    if 2 * index + 1 < data.len() {
        (data[2 * index] + 0x100 * data[2 * index + 1]) as u16
    } else {
        data[2 * index] as u16
    }
}

/// The half-words that put bytes into the packet memory.
pub open spec fn packed_writes(buffer: u16, data: Seq<u8>) -> Seq<HalfWord> {
    Seq::new(
        ((data.len() + 1) / 2) as nat,
        |index: int| ((buffer + 2 * index) as u16, packed(data, index)),
    )
}

pub fn pma_write_bytes(buffer: u16, data: &[u8]) -> (writes: Vec<HalfWord>)
    requires
        buffer + data@.len() <= 0x1_0000,
    ensures
        writes@ == packed_writes(buffer, data@),
{
    let mut writes: Vec<HalfWord> = Vec::new();
    let count: usize = (data.len() + 1) / 2;
    let mut index: usize = 0;
    assert(writes@ =~= packed_writes(buffer, data@).take(0));
    while index < count
        invariant
            index <= count,
            count == (data@.len() + 1) / 2,
            buffer + data@.len() <= 0x1_0000,
            writes@ == packed_writes(buffer, data@).take(index as int),
        decreases count - index,
    {
        let word: u16 = if 2 * index + 1 < data.len() {
            data[2 * index] as u16 + 0x100 * data[2 * index + 1] as u16
        } else {
            data[2 * index] as u16
        };
        writes.push((buffer + 2 * index as u16, word));
        index = index + 1;
        assert(writes@ =~= packed_writes(buffer, data@).take(index as int));
    }
    assert(writes@ =~= packed_writes(buffer, data@));
    writes
}

/// Byte `index` of packed half-words.
pub open spec fn unpacked(words: Seq<u16>, index: int) -> u8 {
    if index % 2 == 0 {
        (words[index / 2] % 0x100) as u8
    } else {
        (words[index / 2] / 0x100) as u8
    }
}

/// Takes `count` bytes out of half-words of the packet memory.
pub fn pma_read_bytes(words: &[u16], count: usize) -> (bytes: Vec<u8>)
    requires
        count <= 2 * words@.len(),
    ensures
        bytes@ == Seq::new(count as nat, |i: int| unpacked(words@, i)),
{
    let mut bytes: Vec<u8> = Vec::new();
    let mut index: usize = 0;
    while index < count
        invariant
            index <= count,
            count <= 2 * words@.len(),
            bytes@ == Seq::new(index as nat, |i: int| unpacked(words@, i)),
        decreases count - index,
    {
        let word: u16 = words[index / 2];
        let byte: u8 = if index % 2 == 0 {
            (word % 0x100) as u8
        } else {
            (word / 0x100) as u8
        };
        bytes.push(byte);
        index = index + 1;
        assert(bytes@ =~= Seq::new(index as nat, |i: int| unpacked(words@, i)));
    }
    bytes
}

/// What was put into the packet memory is what is read from it.
pub proof fn packet_memory_round_trip(data: Seq<u8>, index: int)
    requires
        0 <= index < data.len(),
    ensures
        unpacked(
            Seq::new(((data.len() + 1) / 2) as nat, |i: int| packed(data, i)),
            index,
        ) == data[index],
{
    let words = Seq::new(((data.len() + 1) / 2) as nat, |i: int| packed(data, i));
    assert(words[index / 2] == packed(data, index / 2));
    if index % 2 == 0 {
        assert(2 * (index / 2) == index);
    } else {
        assert(2 * (index / 2) + 1 == index);
    }
}

/// The write that sets the transmit count of an endpoint.
pub fn pma_count_tx(endpoint: usize, bytes: u16) -> (write: HalfWord)
    requires
        endpoint < 8,
    ensures
        write == ((8 * endpoint + 2) as u16, bytes),
{
    ((8 * endpoint + 2) as u16, bytes)
}

/// The offset of the receive count of an endpoint.
pub fn pma_count_rx(endpoint: usize) -> (offset: u16)
    requires
        endpoint < 8,
    ensures
        offset == 8 * endpoint + 6,
{
    (8 * endpoint + 6) as u16
}

pub const RCC_CR: u32 = 0x4002_1000;

pub const RCC_CFGR: u32 = 0x4002_1004;

pub const RCC_CFGR3: u32 = 0x4002_1030;

pub const RCC_APB1ENR: u32 = 0x4002_101C;

pub const FLASH_ACR: u32 = 0x4002_2000;

/// One step of the clock set-up.
#[derive(Clone, Copy, Debug, PartialEq, Eq, Structural)]
pub enum ClockStep {
    /// Clear bits of a register, then set others.
    Change { address: u32, clear: u32, set: u32 },
    /// Wait until the masked register has a value.
    Await { address: u32, mask: u32, value: u32 },
}

/// The way to 48 MHz from the external crystal: flash latency first, then the
/// crystal, the multiplier, the switch, and the USB clock.
pub open spec fn clock_plan() -> Seq<ClockStep> {
    seq![
        ClockStep::Change { address: FLASH_ACR, clear: 0x7, set: 0x11 },
        ClockStep::Change { address: RCC_CR, clear: 0, set: 0x0001_0000 },
        ClockStep::Await { address: RCC_CR, mask: 0x0002_0000, value: 0x0002_0000 },
        ClockStep::Change { address: RCC_CFGR, clear: 0x003C_0000, set: 0x0011_0000 },
        ClockStep::Change { address: RCC_CR, clear: 0, set: 0x0100_0000 },
        ClockStep::Await { address: RCC_CR, mask: 0x0200_0000, value: 0x0200_0000 },
        ClockStep::Change { address: RCC_CFGR, clear: 0x3, set: 0x2 },
        ClockStep::Await { address: RCC_CFGR, mask: 0xC, value: 0x8 },
        ClockStep::Change { address: RCC_CFGR3, clear: 0, set: 0x80 },
        ClockStep::Change { address: RCC_APB1ENR, clear: 0, set: 0x0080_0000 },
    ]
}

pub fn clocks_48mhz() -> (plan: Vec<ClockStep>)
    ensures
        plan@ == clock_plan(),
{
    let plan = vec![
        ClockStep::Change { address: FLASH_ACR, clear: 0x7, set: 0x11 },
        ClockStep::Change { address: RCC_CR, clear: 0, set: 0x0001_0000 },
        ClockStep::Await { address: RCC_CR, mask: 0x0002_0000, value: 0x0002_0000 },
        ClockStep::Change { address: RCC_CFGR, clear: 0x003C_0000, set: 0x0011_0000 },
        ClockStep::Change { address: RCC_CR, clear: 0, set: 0x0100_0000 },
        ClockStep::Await { address: RCC_CR, mask: 0x0200_0000, value: 0x0200_0000 },
        ClockStep::Change { address: RCC_CFGR, clear: 0x3, set: 0x2 },
        ClockStep::Await { address: RCC_CFGR, mask: 0xC, value: 0x8 },
        ClockStep::Change { address: RCC_CFGR3, clear: 0, set: 0x80 },
        ClockStep::Change { address: RCC_APB1ENR, clear: 0, set: 0x0080_0000 },
    ];
    assert(plan@ =~= clock_plan());
    plan
}

} // verus!
