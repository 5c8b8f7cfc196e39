//! Little-endian integers in byte sequences.

use vstd::prelude::*;

verus! {

/// The value of two bytes, the low one first.
pub open spec fn le16(low: u8, high: u8) -> int {
    low + 0x100 * high
}

/// The value of the four bytes of `bytes` from `offset` on, the lowest first.
pub open spec fn le32(bytes: Seq<u8>, offset: int) -> int {
    bytes[offset] + 0x100 * bytes[offset + 1] + 0x1_0000 * bytes[offset + 2] + 0x100_0000
        * bytes[offset + 3]
}

/// The two bytes of a value, the low one first.
pub open spec fn bytes16(value: u16) -> Seq<u8> {
    seq![(value % 0x100) as u8, (value / 0x100) as u8]
}

/// The four bytes of a value, the lowest first.
pub open spec fn bytes32(value: u32) -> Seq<u8> {
    seq![
        (value % 0x100) as u8,
        (value / 0x100 % 0x100) as u8,
        (value / 0x1_0000 % 0x100) as u8,
        (value / 0x100_0000) as u8,
    ]
}

/// Reads a 16-bit value.
pub fn u16_at(bytes: &[u8], offset: usize) -> (value: u16)
    requires
        offset + 2 <= bytes@.len(),
    ensures
        value as int == le16(bytes@[offset as int], bytes@[offset + 1]),
{
    bytes[offset] as u16 + 0x100 * (bytes[offset + 1] as u16)
}

/// Reads a 32-bit value.
pub fn u32_at(bytes: &[u8], offset: usize) -> (value: u32)
    requires
        offset + 4 <= bytes@.len(),
    ensures
        value as int == le32(bytes@, offset as int),
{
    bytes[offset] as u32 + 0x100 * (bytes[offset + 1] as u32) + 0x1_0000 * (bytes[offset
        + 2] as u32) + 0x100_0000 * (bytes[offset + 3] as u32)
}

/// The two bytes of a value, the low one first.
pub fn to_bytes16(value: u16) -> (bytes: [u8; 2])
    ensures
        bytes@ == bytes16(value),
{
    let bytes: [u8; 2] = [(value % 0x100) as u8, (value / 0x100) as u8];
    assert(bytes@ =~= bytes16(value));
    bytes
}

/// The four bytes of a value, the lowest first.
pub fn to_bytes32(value: u32) -> (bytes: [u8; 4])
    ensures
        bytes@ == bytes32(value),
{
    let bytes: [u8; 4] = [
        (value % 0x100) as u8,
        (value / 0x100 % 0x100) as u8,
        (value / 0x1_0000 % 0x100) as u8,
        (value / 0x100_0000) as u8,
    ];
    assert(bytes@ =~= bytes32(value));
    bytes
}

/// Reading a written 16-bit value gives it back.
pub proof fn bytes16_round_trip(value: u16)
    ensures
        le16(bytes16(value)[0], bytes16(value)[1]) == value,
{
}

/// Reading a written 32-bit value gives it back.
pub proof fn bytes32_round_trip(value: u32)
    ensures
        le32(bytes32(value), 0) == value,
{
}

/// Writing the value of four bytes gives them back.
pub proof fn le32_round_trip(first: u8, second: u8, third: u8, fourth: u8)
    ensures
        0 <= le32(seq![first, second, third, fourth], 0) <= u32::MAX,
        bytes32(le32(seq![first, second, third, fourth], 0) as u32) == seq![
            first,
            second,
            third,
            fourth,
        ],
{
    let value = first + 0x100 * second + 0x1_0000 * third + 0x100_0000 * fourth;
    assert(le32(seq![first, second, third, fourth], 0) == value);
    let upper = second + 0x100 * third + 0x1_0000 * fourth;
    assert(value == first + 0x100 * upper);
    assert(value % 0x100 == first && value / 0x100 == upper);
    assert(upper % 0x100 == second && upper / 0x100 == third + 0x100 * fourth);
    assert(value / 0x1_0000 == third + 0x100 * fourth);
    assert(value / 0x100_0000 == fourth);
    assert(bytes32(value as u32) =~= seq![first, second, third, fourth]);
}

} // verus!
