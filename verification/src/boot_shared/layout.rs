//! Flash map (STM32F070RB, 64 pages of 2 KiB).

use vstd::prelude::*;

verus! {

pub const TRAMPOLINE_BASE: u32 = 0x0800_0000;

pub const TRAMPOLINE_SIZE: u32 = 0x800;

pub const SLOT_A_BASE: u32 = 0x0800_0800;

pub const SLOT_A_SIZE: u32 = 0x1800;

pub const SLOT_B_BASE: u32 = 0x0800_2000;

pub const SLOT_B_SIZE: u32 = 0x3000;

pub const APP_BASE: u32 = 0x0800_5000;

/// 104 KiB minus the 64-byte in-partition app descriptor.
pub const APP_MAX_SIZE: u32 = 0x1_9FC0;

pub const DESC_ADDR: u32 = 0x0801_EFC0;

pub const DESC_SIZE: u32 = 64;

pub const SETTINGS_ADDR: u32 = 0x0801_F000;

pub const SETTINGS_SIZE: u32 = 0x800;

pub const METADATA_ADDR: u32 = 0x0801_F800;

pub const METADATA_SIZE: u32 = 0x800;

/// Where the stock bootloader (and therefore the migrator image) lives.
pub const LEGACY_APP_BASE: u32 = 0x0800_8000;

pub const LEGACY_APP_MAX_SIZE: u32 = 0x1_7000;

/// Vector table copied to SRAM by the stock bootloader; cores reproduce the
/// same handover for the application.
pub const VECTOR_TABLE_SIZE: u32 = 192;

pub const RAM_BASE: u32 = 0x2000_0000;

pub const RAM_TOP: u32 = 0x2000_4000;

/// "BV22"
pub const LAYOUT_VERSION: u32 = 0x3232_5642;

/// "DV2B"
pub const DESC_MAGIC: u32 = 0x4256_3244;

/// "SV2B"
pub const SLOT_MAGIC: u32 = 0x4256_3253;

/// The partitions follow each other without a gap or an overlap, and the
/// descriptor is the tail of the application partition.
pub proof fn partitions_are_contiguous()
    ensures
        TRAMPOLINE_BASE + TRAMPOLINE_SIZE == SLOT_A_BASE,
        SLOT_A_BASE + SLOT_A_SIZE == SLOT_B_BASE,
        SLOT_B_BASE + SLOT_B_SIZE == APP_BASE,
        APP_BASE + APP_MAX_SIZE == DESC_ADDR,
        DESC_ADDR + DESC_SIZE == SETTINGS_ADDR,
        SETTINGS_ADDR + SETTINGS_SIZE == METADATA_ADDR,
        METADATA_ADDR + METADATA_SIZE == 0x0802_0000,
{
}

} // verus!
