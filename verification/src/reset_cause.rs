//! STM32F0 RCC reset-cause decoding.

use vstd::prelude::*;

verus! {

pub const OPTION_BYTE: u8 = 1;

pub const PIN: u8 = 2;

pub const POWER_ON: u8 = 4;

pub const SOFTWARE: u8 = 8;

pub const INDEPENDENT_WATCHDOG: u8 = 16;

pub const WINDOW_WATCHDOG: u8 = 32;

pub const LOW_POWER: u8 = 64;

pub const V18_DOMAIN: u8 = 128;

/// The causes that a status word holds: bits 25 to 31 become bits 0 to 6, and
/// bit 23 becomes bit 7.
pub open spec fn causes_in(csr: u32) -> int {
    csr as int / 0x200_0000 + 128 * (csr as int / 0x80_0000 % 2)
}

/// Compact the sticky RCC_CSR flags into a stable byte for diagnostics: bits
/// 25 to 31 become bits 0 to 6, and bit 23 becomes bit 7.
pub fn decode_rcc_csr(csr: u32) -> (causes: u8)
    ensures
        causes as int == csr as int / 0x200_0000 + 128 * (csr as int / 0x80_0000 % 2),
        causes as int == causes_in(csr),
{
    let low: u8 = (csr / 0x200_0000) as u8;
    let high: u8 = (csr / 0x80_0000 % 2) as u8;
    low + 128 * high
}

/// The oscillator and clear-control bits never show in the causes.
pub proof fn other_bits_are_ignored(csr: u32, other: u32)
    requires
        csr / 0x200_0000 == other / 0x200_0000,
        csr / 0x80_0000 % 2 == other / 0x80_0000 % 2,
    ensures
        csr as int / 0x200_0000 + 128 * (csr as int / 0x80_0000 % 2) == other as int / 0x200_0000
            + 128 * (other as int / 0x80_0000 % 2),
{
}

} // verus!
