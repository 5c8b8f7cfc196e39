//! The boot seal: the record by which the stock bootloader knows that the
//! installed firmware may be started. It is withdrawn at start-up and restored
//! once the firmware has proven healthy.

use vstd::prelude::*;

verus! {

pub const BOOT_METADATA_ADDR: u32 = 0x0801_F800;

/// The smallest image: its vector table.
pub const MIN_SEALED_SIZE: u32 = 192;

/// The whole application region below the settings.
pub const MAX_SEALED_SIZE: u32 = 0x1_7000;

/// How long the firmware must have run before it is sealed.
pub const HEALTHY_AFTER_MS: u32 = 3_000;

#[derive(Clone, Copy, Debug, PartialEq, Eq, Structural)]
pub struct BootSeal {
    pub crc: u32,
    pub size: u32,
}

/// The seal that the two words of the record hold, if the size is one that an
/// image can have.
pub open spec fn recorded_seal(crc: u32, size: u32) -> Option<BootSeal> {
    if crc != u32::MAX && MIN_SEALED_SIZE <= size <= MAX_SEALED_SIZE {
        Some(BootSeal { crc, size })
    } else {
        None
    }
}

/// What start-up finds: whether the record must be erased, and the seal to be
/// restored later. A record that is erased already arms recovery as it is.
pub fn invalidate_boot_metadata(crc: u32, size: u32) -> (found: (bool, Option<BootSeal>))
    ensures
        found.0 == (crc != u32::MAX),
        found.1 == recorded_seal(crc, size),
{
    if crc == u32::MAX {
        return (false, None);
    }
    if size >= MIN_SEALED_SIZE && size <= MAX_SEALED_SIZE {
        (true, Some(BootSeal { crc, size }))
    } else {
        (true, None)
    }
}

/// True when an erase leaves recovery armed: it was ready in time, without an
/// error flag, and the record reads as erased.
pub open spec fn armed_by(ready: bool, status: u32, crc: u32) -> bool {
    ready && status & 0x14 == 0 && crc == u32::MAX
}

/// Whether recovery is armed after the erase: it was ready in time, without an
/// error flag, and the record reads as erased.
pub fn recovery_armed(ready: bool, status: u32, crc: u32) -> (armed: bool)
    ensures
        armed == (ready && status & 0x14 == 0 && crc == u32::MAX),
        armed == armed_by(ready, status, crc),
{
    ready && status & 0x14 == 0 && crc == u32::MAX
}

/// The half-words that restore a seal: the size first, and the checksum, which
/// is what the bootloader looks at, last.
pub open spec fn seal_writes(seal: BootSeal) -> Seq<(u32, u16)> {
    seq![
        ((BOOT_METADATA_ADDR + 4) as u32, (seal.size % 0x1_0000) as u16),
        ((BOOT_METADATA_ADDR + 6) as u32, (seal.size / 0x1_0000) as u16),
        (BOOT_METADATA_ADDR, (seal.crc % 0x1_0000) as u16),
        ((BOOT_METADATA_ADDR + 2) as u32, (seal.crc / 0x1_0000) as u16),
    ]
}

/// Plans the half-words that restore a seal; `current` is the checksum word of
/// the record, which must read as erased.
pub fn restore_boot_seal(seal: BootSeal, current: u32) -> (writes: Option<[(u32, u16); 4]>)
    ensures
        writes is Some <==> current == u32::MAX,
        writes matches Some(found) ==> found@ == seal_writes(seal),
{
    if current != u32::MAX {
        return None;
    }
    let writes: [(u32, u16); 4] = [
        (BOOT_METADATA_ADDR + 4, (seal.size % 0x1_0000) as u16),
        (BOOT_METADATA_ADDR + 6, (seal.size / 0x1_0000) as u16),
        (BOOT_METADATA_ADDR, (seal.crc % 0x1_0000) as u16),
        (BOOT_METADATA_ADDR + 2, (seal.crc / 0x1_0000) as u16),
    ];
    assert(writes@ =~= seal_writes(seal));
    Some(writes)
}

/// Whether the record reads back as the seal.
pub fn seal_restored(seal: BootSeal, crc: u32, size: u32) -> (restored: bool)
    ensures
        restored == (crc == seal.crc && size == seal.size),
{
    crc == seal.crc && size == seal.size
}

/// True when it is time to seal.
pub open spec fn due_for_seal(attempted: bool, health_ticks: u32, temp_valid: bool) -> bool {
    !attempted && health_ticks >= HEALTHY_AFTER_MS && temp_valid
}

/// Whether it is time to seal: once, after the firmware has run long enough
/// with a working temperature sensor.
pub fn seal_due(attempted: bool, health_ticks: u32, temp_valid: bool) -> (due: bool)
    ensures
        due == (!attempted && health_ticks >= HEALTHY_AFTER_MS && temp_valid),
        due == due_for_seal(attempted, health_ticks, temp_valid),
{
    !attempted && health_ticks >= HEALTHY_AFTER_MS && temp_valid
}

/// The checksum word of an erased record after the first `count` half-words.
pub open spec fn checksum_after(seal: BootSeal, count: int) -> u32 {
    if count < 3 {
        u32::MAX
    } else if count == 3 {
        (0xFFFF_0000 + seal.crc % 0x1_0000) as u32
    } else {
        seal.crc
    }
}

/// A torn seal stays invalid: until the last half-word is written the checksum
/// is not there, unless its upper half is what erased flash reads as anyway.
pub proof fn a_torn_seal_is_invalid(seal: BootSeal, count: int)
    requires
        0 <= count < 4,
        seal.crc < 0xFFFF_0000,
    ensures
        checksum_after(seal, count) != seal.crc,
        seal_writes(seal)[3].0 == BOOT_METADATA_ADDR + 2,
{
}

/// What is restored is what was withdrawn.
pub proof fn a_seal_round_trip(crc: u32, size: u32)
    requires
        recorded_seal(crc, size) is Some,
    ensures
        ({
            let writes = seal_writes(recorded_seal(crc, size)->Some_0);
            &&& writes[0].1 + 0x1_0000 * writes[1].1 == size
            &&& writes[2].1 + 0x1_0000 * writes[3].1 == crc
        }),
{
}

} // verus!
