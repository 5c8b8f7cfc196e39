//! USB descriptors of the boot cores.

use crate::text::{ascii, hex_digit};
use vstd::prelude::*;
use vstd::string::*;

verus! {

pub const VID: u16 = 0x0483;

pub const PID_BOOT_CORE: u16 = 0x5740;

pub const EP0_PACKET: u8 = 64;

pub const BULK_PACKET: u8 = 64;

pub const STRING_INDEX_MANUFACTURER: u8 = 1;

pub const STRING_INDEX_PRODUCT: u8 = 2;

/// USB 2.0, class CDC, control packets of 64 bytes, the vendor and product
/// above, release 2.00, three strings and one configuration.
pub const DEVICE: [u8; 18] = [
    0x12,
    0x01,
    0x00,
    0x02,
    0x02,
    0x00,
    0x00,
    0x40,
    0x83,
    0x04,
    0x40,
    0x57,
    0x00,
    0x02,
    1,
    2,
    3,
    1,
];

/// Self-powered, 100 mA: interface 0 for communication (header, call
/// management, ACM, union, interrupt IN endpoint 2), interface 1 for data (bulk
/// IN and OUT endpoint 1).
pub const CONFIG: [u8; 67] = [
    9, 0x02, 67, 0, 2, 1, 0, 0xC0, 50,
    9, 0x04, 0, 0, 1, 0x02, 0x02, 0x01, 0,
    5, 0x24, 0x00, 0x10, 0x01,
    5, 0x24, 0x01, 0x00, 0x01,
    4, 0x24, 0x02, 0x02,
    5, 0x24, 0x06, 0x00, 0x01,
    7, 0x05, 0x82, 0x03, 0x08, 0x00, 0x20,
    9, 0x04, 1, 0, 2, 0x0A, 0x00, 0x00, 0,
    7, 0x05, 0x81, 0x02, 0x40, 0x00, 0x00,
    7, 0x05, 0x01, 0x02, 0x40, 0x00, 0x00,
];

pub const STRING_LANGID: [u8; 4] = [4, 0x03, 0x09, 0x04];

/// A string descriptor of `length` bytes: its length, its type, and the
/// characters as 16-bit code units.
pub open spec fn string_descriptor(length: int, text: Seq<u8>) -> Seq<u8> {
    Seq::new(
        length as nat,
        |i: int|
            if i == 0 {
                length as u8
            } else if i == 1 {
                0x03u8
            } else if i % 2 == 0 {
                text[(i - 2) / 2]
            } else {
                0u8
            },
    )
}

/// A string descriptor that is exactly as long as its text asks for. Serving a
/// padded buffer instead hangs the control endpoint when the host asks for more
/// than the real length.
pub fn string_const<const N: usize>(text: &str) -> (out: [u8; N])
    requires
        N == 2 + 2 * text.spec_bytes().len(),
    ensures
        out@ == string_descriptor(N as int, text.spec_bytes()),
{
    let mut out: [u8; N] = [0u8;N];
    let bytes = text.as_bytes();
    out[0] = N as u8;
    out[1] = 0x03;
    let mut index: usize = 0;
    while index < bytes.len()
        invariant
            index <= bytes@.len(),
            bytes@ == text.spec_bytes(),
            N == 2 + 2 * bytes@.len(),
            out@.len() == N,
            out@[0] == N as u8,
            out@[1] == 0x03,
            forall|i: int| 2 <= i < N ==> #[trigger] out@[i] == (if i % 2 == 0 && (i - 2) / 2 < index {
                bytes@[(i - 2) / 2]
            } else {
                0u8
            }),
        decreases bytes@.len() - index,
    {
        out[2 + 2 * index] = bytes[index];
        index = index + 1;
    }
    assert(out@ =~= string_descriptor(N as int, text.spec_bytes()));
    out
}

/// The upper-case hexadecimal digit of a value's nibble, counted from the most
/// significant.
pub open spec fn nibble_digit(value: u32, digit: int) -> u8 {
    hex_digit(
        (if digit == 0 {
            value as int / 0x1000_0000
        } else if digit == 1 {
            value as int / 0x100_0000
        } else if digit == 2 {
            value as int / 0x10_0000
        } else if digit == 3 {
            value as int / 0x1_0000
        } else if digit == 4 {
            value as int / 0x1000
        } else if digit == 5 {
            value as int / 0x100
        } else if digit == 6 {
            value as int / 0x10
        } else {
            value as int
        }) % 0x10,
    )
}

/// The characters of the serial number: eight digits of the sum of the outer
/// identity words, then the first four digits of the middle one.
pub open spec fn serial_text(uid0: u32, uid1: u32, uid2: u32) -> Seq<u8> {
    let sum = ((uid0 + uid2) % 0x1_0000_0000) as u32;
    Seq::new(
        12,
        |i: int|
            if i < 8 {
                nibble_digit(sum, i)
            } else {
                nibble_digit(uid1, i - 8)
            },
    )
}

fn hex_of(value: u32, digit: usize) -> (character: u8)
    requires
        digit < 8,
    ensures
        character == nibble_digit(value, digit as int),
{
    let shifted: u32 = match digit {
        0 => value / 0x1000_0000,
        1 => value / 0x100_0000,
        2 => value / 0x10_0000,
        3 => value / 0x1_0000,
        4 => value / 0x1000,
        5 => value / 0x100,
        6 => value / 0x10,
        _ => value,
    };
    let nibble: u8 = (shifted % 0x10) as u8;
    if nibble < 10 {
        48 + nibble
    } else {
        55 + nibble
    }
}

/// Serial descriptor from the chip's unique identity words. The application
/// presents the same value, so the host's port name stays the same across
/// updates.
pub fn init_serial(uid0: u32, uid1: u32, uid2: u32) -> (serial: [u8; 26])
    ensures
        serial@ == string_descriptor(26, serial_text(uid0, uid1, uid2)),
{
    let sum: u32 = uid0.wrapping_add(uid2);
    let mut serial: [u8; 26] = [0u8;26];
    serial[0] = 26;
    serial[1] = 0x03;
    let mut index: usize = 0;
    while index < 12
        invariant
            index <= 12,
            sum == ((uid0 + uid2) % 0x1_0000_0000) as u32,
            serial@[0] == 26,
            serial@[1] == 0x03,
            forall|i: int| 2 <= i < 26 ==> #[trigger] serial@[i] == (if i % 2 == 0 && (i - 2) / 2
                < index {
                serial_text(uid0, uid1, uid2)[(i - 2) / 2]
            } else {
                0u8
            }),
        decreases 12 - index,
    {
        serial[2 + 2 * index] = if index < 8 {
            hex_of(sum, index)
        } else {
            hex_of(uid1, index - 8)
        };
        index = index + 1;
    }
    assert(serial@ =~= string_descriptor(26, serial_text(uid0, uid1, uid2)));
    serial
}

/// The manufacturer string.
pub open spec fn manufacturer_text() -> Seq<u8> {
    ascii("STMicroelectronics"@)
}

/// The product string.
pub open spec fn product_text() -> Seq<u8> {
    ascii("STM32 Virtual ComPort"@)
}

pub fn manufacturer() -> (descriptor: [u8; 38])
    ensures
        descriptor@ == string_descriptor(38, manufacturer_text()),
{
    proof {
        reveal_strlit("STMicroelectronics");
        broadcast use is_ascii_spec_bytes;
        assert(is_ascii("STMicroelectronics"));
        assert("STMicroelectronics".spec_bytes() =~= manufacturer_text());
    }
    string_const("STMicroelectronics")
}

pub fn product() -> (descriptor: [u8; 44])
    ensures
        descriptor@ == string_descriptor(44, product_text()),
{
    proof {
        reveal_strlit("STM32 Virtual ComPort");
        broadcast use is_ascii_spec_bytes;
        assert(is_ascii("STM32 Virtual ComPort"));
        assert("STM32 Virtual ComPort".spec_bytes() =~= product_text());
    }
    string_const("STM32 Virtual ComPort")
}

/// Every descriptor begins with its own length, and the configuration counts
/// all that follows it.
pub proof fn descriptors_know_their_length()
    ensures
        DEVICE[0] == 18,
        CONFIG[2] + 0x100 * CONFIG[3] == 67,
        STRING_LANGID[0] == 4,
        string_descriptor(38, manufacturer_text())[0] == 38,
        string_descriptor(44, product_text())[0] == 44,
        manufacturer_text().len() == 18,
        product_text().len() == 21,
{
    reveal_strlit("STMicroelectronics");
    reveal_strlit("STM32 Virtual ComPort");
}

} // verus!
