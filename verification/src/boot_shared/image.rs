//! Image descriptors and vector-table checks.

use crate::boot_shared::layout::{
    APP_MAX_SIZE, DESC_MAGIC, LAYOUT_VERSION, RAM_BASE, RAM_TOP, SLOT_MAGIC,
};
use crate::little_endian::{bytes32, le32, to_bytes32, u32_at};
use vstd::prelude::*;

verus! {

/// A 64-byte descriptor, the fixed tail of every application image.
/// `size` counts the payload only (everything before the descriptor).
#[derive(Clone, Copy, Debug, PartialEq, Eq, Structural)]
pub struct AppDescriptor {
    pub layout_version: u32,
    pub size: u32,
    pub crc: u32,
}

/// A 16-byte descriptor occupying the last 16 bytes of a boot-core slot.
#[derive(Clone, Copy, Debug, PartialEq, Eq, Structural)]
pub struct SlotDescriptor {
    pub layout_version: u32,
    pub size: u32,
    pub crc: u32,
}

#[derive(Clone, Copy, Debug, PartialEq, Eq, Structural)]
pub struct VectorCheck {
    pub initial_sp: u32,
    pub reset_vector: u32,
}

/// Stack pointer in SRAM, and a Thumb reset vector inside the image.
pub open spec fn vectors_in_bounds(check: VectorCheck, base: u32, size: u32) -> bool {
    &&& RAM_BASE <= check.initial_sp <= RAM_TOP
    &&& check.reset_vector % 2 == 1
    &&& base <= check.reset_vector - 1 < base + size
}

/// Same sanity checks the stock bootloader applies to an application: SP in
/// SRAM, Thumb reset vector inside the image bounds.
pub fn vectors_valid(check: VectorCheck, base: u32, size: u32) -> (valid: bool)
    requires
        base + size <= u32::MAX,
    ensures
        valid == vectors_in_bounds(check, base, size),
{
    if check.initial_sp < RAM_BASE || check.initial_sp > RAM_TOP {
        return false;
    }
    if check.reset_vector % 2 == 0 {
        return false;
    }
    let entry: u32 = check.reset_vector - 1;
    entry >= base && entry < base + size
}

/// The application descriptor that `bytes` hold.
pub open spec fn app_descriptor(bytes: Seq<u8>) -> Option<AppDescriptor> {
    if le32(bytes, 0) == DESC_MAGIC && le32(bytes, 4) == LAYOUT_VERSION && 0 < le32(bytes, 8)
        <= APP_MAX_SIZE {
        Some(
            AppDescriptor {
                layout_version: LAYOUT_VERSION,
                size: le32(bytes, 8) as u32,
                crc: le32(bytes, 12) as u32,
            },
        )
    } else {
        None
    }
}

/// The slot descriptor that `bytes` hold.
pub open spec fn slot_descriptor(bytes: Seq<u8>) -> Option<SlotDescriptor> {
    if le32(bytes, 0) == SLOT_MAGIC && le32(bytes, 4) == LAYOUT_VERSION && 0 < le32(bytes, 8) {
        Some(
            SlotDescriptor {
                layout_version: LAYOUT_VERSION,
                size: le32(bytes, 8) as u32,
                crc: le32(bytes, 12) as u32,
            },
        )
    } else {
        None
    }
}

/// The four words that every descriptor begins with.
pub open spec fn descriptor_words(magic: u32, size: u32, crc: u32) -> Seq<u8> {
    bytes32(magic) + bytes32(LAYOUT_VERSION) + bytes32(size) + bytes32(crc)
}

/// An application descriptor, filled up with erased bytes.
pub open spec fn app_descriptor_bytes(size: u32, crc: u32) -> Seq<u8> {
    descriptor_words(DESC_MAGIC, size, crc) + Seq::new(48, |i: int| 0xFFu8)
}

pub fn parse_app_descriptor(bytes: &[u8; 64]) -> (descriptor: Option<AppDescriptor>)
    ensures
        descriptor == app_descriptor(bytes@),
{
    let all = bytes.as_slice();
    if u32_at(all, 0) != DESC_MAGIC {
        return None;
    }
    let layout_version: u32 = u32_at(all, 4);
    if layout_version != LAYOUT_VERSION {
        return None;
    }
    let size: u32 = u32_at(all, 8);
    let crc: u32 = u32_at(all, 12);
    if size == 0 || size > APP_MAX_SIZE {
        return None;
    }
    Some(AppDescriptor { layout_version, size, crc })
}

pub fn parse_slot_descriptor(bytes: &[u8; 16]) -> (descriptor: Option<SlotDescriptor>)
    ensures
        descriptor == slot_descriptor(bytes@),
{
    let all = bytes.as_slice();
    if u32_at(all, 0) != SLOT_MAGIC {
        return None;
    }
    let layout_version: u32 = u32_at(all, 4);
    if layout_version != LAYOUT_VERSION {
        return None;
    }
    let size: u32 = u32_at(all, 8);
    let crc: u32 = u32_at(all, 12);
    if size == 0 {
        return None;
    }
    Some(SlotDescriptor { layout_version, size, crc })
}

/// Byte `offset` of the descriptor words.
fn words_byte(words: &[[u8; 4]; 4], offset: usize) -> (byte: u8)
    requires
        offset < 16,
    ensures
        byte == words[offset as int / 4]@[offset as int % 4],
{
    let word: [u8; 4] = words[offset / 4];
    word[offset % 4]
}

/// The descriptor words, one after the other.
proof fn lemma_words(magic: u32, size: u32, crc: u32, words: [[u8; 4]; 4], offset: int)
    requires
        words[0]@ == bytes32(magic),
        words[1]@ == bytes32(LAYOUT_VERSION),
        words[2]@ == bytes32(size),
        words[3]@ == bytes32(crc),
        0 <= offset < 16,
    ensures
        descriptor_words(magic, size, crc).len() == 16,
        descriptor_words(magic, size, crc)[offset] == words[offset / 4]@[offset % 4],
{
}

pub fn build_app_descriptor(size: u32, crc: u32) -> (bytes: [u8; 64])
    ensures
        bytes@ == app_descriptor_bytes(size, crc),
{
    let words: [[u8; 4]; 4] = [
        to_bytes32(DESC_MAGIC),
        to_bytes32(LAYOUT_VERSION),
        to_bytes32(size),
        to_bytes32(crc),
    ];
    let mut bytes: [u8; 64] = [0xFF;64];
    let mut offset: usize = 0;
    while offset < 16
        invariant
            offset <= 16,
            forall|i: int| 0 <= i < offset ==> #[trigger] bytes@[i] == words[i / 4]@[i % 4],
            forall|i: int| offset <= i < 64 ==> #[trigger] bytes@[i] == 0xFF,
        decreases 16 - offset,
    {
        bytes[offset] = words_byte(&words, offset);
        offset = offset + 1;
    }
    assert forall|i: int| 0 <= i < 64 implies bytes@[i] == app_descriptor_bytes(size, crc)[i] by {
        if i < 16 {
            lemma_words(DESC_MAGIC, size, crc, words, i);
        }
    }
    assert(bytes@ =~= app_descriptor_bytes(size, crc));
    bytes
}

pub fn build_slot_descriptor(size: u32, crc: u32) -> (bytes: [u8; 16])
    ensures
        bytes@ == descriptor_words(SLOT_MAGIC, size, crc),
{
    let words: [[u8; 4]; 4] = [
        to_bytes32(SLOT_MAGIC),
        to_bytes32(LAYOUT_VERSION),
        to_bytes32(size),
        to_bytes32(crc),
    ];
    let mut bytes: [u8; 16] = [0xFF;16];
    let mut offset: usize = 0;
    while offset < 16
        invariant
            offset <= 16,
            forall|i: int| 0 <= i < offset ==> #[trigger] bytes@[i] == words[i / 4]@[i % 4],
        decreases 16 - offset,
    {
        bytes[offset] = words_byte(&words, offset);
        offset = offset + 1;
    }
    assert forall|i: int| 0 <= i < 16 implies bytes@[i] == descriptor_words(
        SLOT_MAGIC,
        size,
        crc,
    )[i] by {
        lemma_words(SLOT_MAGIC, size, crc, words, i);
    }
    assert(bytes@ =~= descriptor_words(SLOT_MAGIC, size, crc));
    bytes
}

proof fn lemma_descriptor_words(magic: u32, size: u32, crc: u32, rest: Seq<u8>)
    ensures
        ({
            let bytes = descriptor_words(magic, size, crc) + rest;
            &&& le32(bytes, 0) == magic
            &&& le32(bytes, 4) == LAYOUT_VERSION
            &&& le32(bytes, 8) == size
            &&& le32(bytes, 12) == crc
        }),
{
    let bytes = descriptor_words(magic, size, crc) + rest;
    crate::little_endian::bytes32_round_trip(magic);
    crate::little_endian::bytes32_round_trip(LAYOUT_VERSION);
    crate::little_endian::bytes32_round_trip(size);
    crate::little_endian::bytes32_round_trip(crc);
    assert(le32(bytes, 0) == le32(bytes32(magic), 0));
    assert(le32(bytes, 4) == le32(bytes32(LAYOUT_VERSION), 0));
    assert(le32(bytes, 8) == le32(bytes32(size), 0));
    assert(le32(bytes, 12) == le32(bytes32(crc), 0));
}

/// A built application descriptor parses back, exactly when its size is one
/// that an application can have.
pub proof fn app_descriptor_round_trip(size: u32, crc: u32)
    ensures
        app_descriptor(app_descriptor_bytes(size, crc)) == (if 0 < size <= APP_MAX_SIZE {
            Some(AppDescriptor { layout_version: LAYOUT_VERSION, size, crc })
        } else {
            None
        }),
{
    lemma_descriptor_words(DESC_MAGIC, size, crc, Seq::new(48, |i: int| 0xFFu8));
}

/// A built slot descriptor parses back, exactly when it describes an image.
pub proof fn slot_descriptor_round_trip(size: u32, crc: u32)
    ensures
        slot_descriptor(descriptor_words(SLOT_MAGIC, size, crc)) == (if size > 0 {
            Some(SlotDescriptor { layout_version: LAYOUT_VERSION, size, crc })
        } else {
            None
        }),
{
    lemma_descriptor_words(SLOT_MAGIC, size, crc, Seq::empty());
    assert(descriptor_words(SLOT_MAGIC, size, crc) + Seq::<u8>::empty() =~= descriptor_words(
        SLOT_MAGIC,
        size,
        crc,
    ));
}

} // verus!
