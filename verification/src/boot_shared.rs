//! Shared boot architecture: flash map, image descriptors, boot metadata
//! accounting, and the pure boot decisions.

pub mod crc;
pub mod image;
pub mod layout;
pub mod metadata;
pub mod section;

use crate::boot_shared::layout::LAYOUT_VERSION;
use crate::boot_shared::metadata::{
    flag_selects_slot_b, updater_requested, RecordScan, ERASED, SLOT_B_MARK,
};
use vstd::prelude::*;

verus! {

pub const WORD: usize = 4;

/// Boot policy: the working core refuses to launch the application after this
/// many consecutive unhealthy boots and stays in updater mode instead.
pub const UNHEALTHY_BOOT_LIMIT: usize = 3;

/// What the trampoline hands over to.
#[derive(Clone, Copy, Debug, PartialEq, Eq, Structural)]
pub enum BootTarget {
    Golden,
    SlotB,
    Legacy,
    Halt,
}

/// The first valid of golden core, working core and legacy entry.
pub open spec fn fallback_target(a_valid: bool, b_valid: bool, legacy_valid: bool) -> BootTarget {
    if a_valid {
        BootTarget::Golden
    } else if b_valid {
        BootTarget::SlotB
    } else if legacy_valid {
        BootTarget::Legacy
    } else {
        BootTarget::Halt
    }
}

/// The trampoline's decision: the slot flag counts only without the physical
/// interlock, and only for a valid slot.
pub open spec fn boot_target(
    slot_flag: u32,
    encoder_pressed: bool,
    a_valid: bool,
    b_valid: bool,
    legacy_valid: bool,
) -> BootTarget {
    if !encoder_pressed && slot_flag == SLOT_B_MARK && b_valid {
        BootTarget::SlotB
    } else {
        fallback_target(a_valid, b_valid, legacy_valid)
    }
}

/// The trampoline's pure decision table. `a_valid`/`b_valid` come from the
/// slot vector sanity checks; `legacy_valid` from the same checks applied to
/// the legacy application entry.
pub fn trampoline_decision(
    slot_flag: u32,
    encoder_pressed: bool,
    a_valid: bool,
    b_valid: bool,
    legacy_valid: bool,
) -> (target: BootTarget)
    ensures
        target == boot_target(slot_flag, encoder_pressed, a_valid, b_valid, legacy_valid),
{
    if !encoder_pressed && flag_selects_slot_b(slot_flag) && b_valid {
        BootTarget::SlotB
    } else if a_valid {
        BootTarget::Golden
    } else if b_valid {
        BootTarget::SlotB
    } else if legacy_valid {
        BootTarget::Legacy
    } else {
        BootTarget::Halt
    }
}

/// Whether the latest boots were all unhealthy, up to the limit.
pub open spec fn unhealthy_streak(scan: RecordScan) -> bool {
    match scan {
        RecordScan::Empty => false,
        RecordScan::Valid { healthy, unhealthy } => unhealthy >= UNHEALTHY_BOOT_LIMIT,
    }
}

pub fn should_stay_in_updater(scan: &RecordScan) -> (stay: bool)
    ensures
        stay == unhealthy_streak(*scan),
{
    match scan {
        RecordScan::Empty => false,
        RecordScan::Valid { healthy: _, unhealthy } => *unhealthy >= UNHEALTHY_BOOT_LIMIT,
    }
}

/// What a selected core does after the trampoline hands over.
#[derive(Clone, Copy, Debug, PartialEq, Eq, Structural)]
pub enum CoreBoot {
    LaunchApp,
    Updater,
}

/// The core launches the application only where the layout is its own or
/// unknown, nobody asked for the updater, the latest boots were not all
/// unhealthy, and the application is valid.
pub open spec fn core_boot(
    layout_word: u32,
    request_word: u32,
    scan: RecordScan,
    app_valid: bool,
) -> CoreBoot {
    if (layout_word == ERASED || layout_word == LAYOUT_VERSION) && request_word == ERASED
        && !unhealthy_streak(scan) && app_valid {
        CoreBoot::LaunchApp
    } else {
        CoreBoot::Updater
    }
}

/// The core's pure boot decision. `layout_word` is metadata word 0: erased
/// is acceptable (fresh migration / interrupted rebuild - the app descriptor
/// alone decides validity), but a programmed value for a DIFFERENT layout
/// means the flash map disagrees with this core and only the updater is
/// safe. `app_valid` is the full descriptor + CRC + vector check.
pub fn core_boot_decision(
    layout_word: u32,
    request_word: u32,
    scan: &RecordScan,
    app_valid: bool,
) -> (boot: CoreBoot)
    ensures
        boot == core_boot(layout_word, request_word, *scan, app_valid),
{
    if layout_word != ERASED && layout_word != LAYOUT_VERSION {
        return CoreBoot::Updater;
    }
    if updater_requested(request_word) {
        return CoreBoot::Updater;
    }
    if should_stay_in_updater(scan) {
        return CoreBoot::Updater;
    }
    if app_valid {
        CoreBoot::LaunchApp
    } else {
        CoreBoot::Updater
    }
}

/// Nothing that failed its vector checks is ever handed over to.
pub proof fn boot_targets_are_valid(
    slot_flag: u32,
    encoder_pressed: bool,
    a_valid: bool,
    b_valid: bool,
    legacy_valid: bool,
)
    ensures
        match boot_target(slot_flag, encoder_pressed, a_valid, b_valid, legacy_valid) {
            BootTarget::Golden => a_valid,
            BootTarget::SlotB => b_valid,
            BootTarget::Legacy => legacy_valid && !a_valid && !b_valid,
            BootTarget::Halt => !a_valid && !b_valid && !legacy_valid,
        },
{
}

/// The physical interlock, and any flag but the exact mark, reach a valid
/// golden core.
pub proof fn interlock_reaches_golden(
    slot_flag: u32,
    encoder_pressed: bool,
    b_valid: bool,
    legacy_valid: bool,
)
    requires
        encoder_pressed || slot_flag != SLOT_B_MARK,
    ensures
        boot_target(slot_flag, encoder_pressed, true, b_valid, legacy_valid) == BootTarget::Golden,
{
}

} // verus!
