//! Boot-metadata page operations: reads, boot-record claiming, and the
//! rebuild cycle. The page is program-only between rebuilds; every write
//! here degrades toward the erased default (golden, no request) on a torn
//! word, which is the safe direction at every instant.

use crate::boot_core::flash::{FlashAction, PlannedAction};
use crate::boot_shared::layout::{LAYOUT_VERSION, METADATA_ADDR};
use crate::boot_shared::metadata::{
    flag_selects_slot_b, next_attempt, next_attempt_addr, scan, scanned, RecordScan, ATTEMPT_WORD,
    ERASED, OFF_LAYOUT_VERSION, OFF_REQUEST, OFF_SLOT_FLAG, SLOT_B_MARK, WORDS,
};
use vstd::prelude::*;

verus! {

/// Reads the layout version of a metadata page.
pub fn layout_word(page: &[u32]) -> (word: u32)
    requires
        page@.len() == WORDS,
    ensures
        word == page@[OFF_LAYOUT_VERSION as int],
{
    page[OFF_LAYOUT_VERSION]
}

/// Reads the slot flag of a metadata page.
pub fn slot_flag(page: &[u32]) -> (word: u32)
    requires
        page@.len() == WORDS,
    ensures
        word == page@[OFF_SLOT_FLAG as int],
{
    page[OFF_SLOT_FLAG]
}

/// Reads the updater request of a metadata page.
pub fn request_word(page: &[u32]) -> (word: u32)
    requires
        page@.len() == WORDS,
    ensures
        word == page@[OFF_REQUEST as int],
{
    page[OFF_REQUEST]
}

/// What the boot records of a metadata page say.
pub fn scan_records(page: &[u32]) -> (result: RecordScan)
    requires
        page@.len() == WORDS,
    ensures
        result == scanned(page@),
{
    scan(page)
}

/// The address of a metadata word.
pub open spec fn word_address(index: int) -> u32 {
    (METADATA_ADDR + 4 * index) as u32
}

/// The plan of a rebuild: the page is erased, the layout version is programmed,
/// and a slot-B selection is carried over even when the version failed.
pub open spec fn rebuild_plan(flag: u32) -> Seq<PlannedAction> {
    let fresh = seq![
        PlannedAction { action: FlashAction::Erase { address: METADATA_ADDR }, required: true },
        PlannedAction {
            action: FlashAction::Program {
                address: word_address(OFF_LAYOUT_VERSION as int),
                value: LAYOUT_VERSION,
            },
            required: false,
        },
    ];
    if flag == SLOT_B_MARK {
        fresh.push(
            PlannedAction {
                action: FlashAction::Program {
                    address: word_address(OFF_SLOT_FLAG as int),
                    value: flag,
                },
                required: false,
            },
        )
    } else {
        fresh
    }
}

/// Plans to erase the page and reprogram layout version + slot flag (preserving
/// a slot-B selection). Clears the updater request and the record area. A
/// power cut at any point leaves erased words, i.e. golden + no request.
pub fn rebuild(flag: u32) -> (plan: Vec<PlannedAction>)
    ensures
        plan@ == rebuild_plan(flag),
{
    let mut plan: Vec<PlannedAction> = Vec::new();
    plan.push(
        PlannedAction { action: FlashAction::Erase { address: METADATA_ADDR }, required: true },
    );
    plan.push(
        PlannedAction {
            action: FlashAction::Program { address: METADATA_ADDR, value: LAYOUT_VERSION },
            required: false,
        },
    );
    if flag_selects_slot_b(flag) {
        plan.push(
            PlannedAction {
                action: FlashAction::Program { address: METADATA_ADDR + 4, value: flag },
                required: false,
            },
        );
    }
    assert(plan@ =~= rebuild_plan(flag));
    plan
}

/// How a boot attempt is recorded.
#[derive(Debug)]
pub enum Claim {
    /// Program the attempt word at this address.
    Program(u32),
    /// The page is full: carry out this plan, and claim again if it succeeds.
    Rebuild(Vec<PlannedAction>),
}

/// `claim` records a boot attempt on `page`: in the first free record, or, on a
/// full page, after a rebuild that keeps the slot flag.
pub open spec fn claims(page: Seq<u32>, claim: Claim) -> bool {
    match claim {
        Claim::Program(address) => {
            &&& METADATA_ADDR <= address
            &&& (address - METADATA_ADDR) % 4 == 0
            &&& next_attempt(page, Some(((address - METADATA_ADDR) / 4) as usize))
        },
        Claim::Rebuild(plan) => next_attempt(page, None) && plan@ == rebuild_plan(
            page[OFF_SLOT_FLAG as int],
        ),
    }
}

/// Plans this boot's attempt record. Record-keeping must never block a
/// launch: a full page triggers a rebuild, and any flash failure is simply
/// ignored (the next rebuild resets the area).
pub fn claim_attempt(page: &[u32]) -> (claim: Claim)
    requires
        page@.len() == WORDS,
    ensures
        claims(page@, claim),
{
    match next_attempt_addr(page) {
        Some(address) => Claim::Program(address),
        None => Claim::Rebuild(rebuild(slot_flag(page))),
    }
}

/// Where this boot's attempt is recorded once the rebuild of a full page is
/// over, as the page then reads. A rebuild that failed, or that left no room,
/// is not tried again.
pub fn claim_after_rebuild(page: &[u32], rebuilt: bool) -> (address: Option<u32>)
    requires
        page@.len() == WORDS,
    ensures
        address is None <==> !rebuilt || next_attempt(page@, None),
        address matches Some(found) ==> claims(page@, Claim::Program(found)),
{
    if rebuilt {
        next_attempt_addr(page)
    } else {
        None
    }
}

/// The word that records an attempt.
pub fn attempt_action(address: u32) -> (action: FlashAction)
    ensures
        action == (FlashAction::Program { address, value: ATTEMPT_WORD }),
{
    FlashAction::Program { address, value: ATTEMPT_WORD }
}

/// The plan that selects slot B. Nothing is to be done where it is selected;
/// a flag that holds anything else is freed by a rebuild first.
pub open spec fn select_plan(flag: u32) -> Seq<PlannedAction> {
    let program = PlannedAction {
        action: FlashAction::Program {
            address: word_address(OFF_SLOT_FLAG as int),
            value: SLOT_B_MARK,
        },
        required: true,
    };
    if flag == SLOT_B_MARK {
        Seq::empty()
    } else if flag == ERASED {
        seq![program]
    } else {
        seq![
            PlannedAction {
                action: FlashAction::Erase { address: METADATA_ADDR },
                required: true,
            },
            PlannedAction {
                action: FlashAction::Program {
                    address: word_address(OFF_LAYOUT_VERSION as int),
                    value: LAYOUT_VERSION,
                },
                required: true,
            },
            program,
        ]
    }
}

/// Plans to commit a slot-B core: program the slot flag so the trampoline
/// selects B from the next boot. A torn write reads as unknown, so golden
/// (retry-safe).
pub fn select_slot_b(flag: u32) -> (plan: Vec<PlannedAction>)
    ensures
        plan@ == select_plan(flag),
{
    let mut plan: Vec<PlannedAction> = Vec::new();
    if !flag_selects_slot_b(flag) {
        if flag != ERASED {
            plan.push(
                PlannedAction {
                    action: FlashAction::Erase { address: METADATA_ADDR },
                    required: true,
                },
            );
            plan.push(
                PlannedAction {
                    action: FlashAction::Program { address: METADATA_ADDR, value: LAYOUT_VERSION },
                    required: true,
                },
            );
        }
        plan.push(
            PlannedAction {
                action: FlashAction::Program { address: METADATA_ADDR + 4, value: SLOT_B_MARK },
                required: true,
            },
        );
    }
    assert(plan@ =~= select_plan(flag));
    plan
}

/// What a metadata page holds after a program or an erase.
pub open spec fn page_after(page: Seq<u32>, action: FlashAction) -> Seq<u32> {
    match action {
        FlashAction::Erase { address } => if address == METADATA_ADDR {
            Seq::new(page.len(), |i: int| ERASED)
        } else {
            page
        },
        FlashAction::Program { address, value } => if METADATA_ADDR <= address && (address
            - METADATA_ADDR) / 4 < page.len() {
            page.update((address - METADATA_ADDR) / 4, value)
        } else {
            page
        },
    }
}

/// What a metadata page holds after the first `count` operations of a plan.
pub open spec fn page_after_plan(page: Seq<u32>, plan: Seq<PlannedAction>, count: nat) -> Seq<
    u32,
>
    decreases count,
{
    if count == 0 || count > plan.len() {
        page
    } else {
        page_after(page_after_plan(page, plan, (count - 1) as nat), plan[count - 1].action)
    }
}

/// A rebuilt page asks for no updater, has no records, and selects slot B
/// exactly where it did before. So does a page whose rebuild stopped short,
/// except that it may have fallen back to golden.
pub proof fn a_rebuild_is_safe_at_every_instant(page: Seq<u32>, count: nat)
    requires
        page.len() == WORDS,
        1 <= count <= rebuild_plan(page[OFF_SLOT_FLAG as int]).len(),
    ensures
        ({
            let plan = rebuild_plan(page[OFF_SLOT_FLAG as int]);
            let after = page_after_plan(page, plan, count);
            &&& after[OFF_REQUEST as int] == ERASED
            &&& scanned(after) == RecordScan::Empty
            &&& after[OFF_SLOT_FLAG as int] == SLOT_B_MARK || after[OFF_SLOT_FLAG as int] == ERASED
            &&& after[OFF_SLOT_FLAG as int] == SLOT_B_MARK ==> page[OFF_SLOT_FLAG as int]
                == SLOT_B_MARK
            &&& count == plan.len() ==> {
                &&& after[OFF_LAYOUT_VERSION as int] == LAYOUT_VERSION
                &&& after[OFF_SLOT_FLAG as int] == SLOT_B_MARK <==> page[OFF_SLOT_FLAG as int]
                    == SLOT_B_MARK
            }
        }),
{
    reveal_with_fuel(page_after_plan, 4);
}

/// Selecting slot B ends with slot B selected, and never passes through any
/// other selection than the old one, golden, or slot B.
pub proof fn selecting_slot_b_is_safe_at_every_instant(page: Seq<u32>, count: nat)
    requires
        page.len() == WORDS,
        count <= select_plan(page[OFF_SLOT_FLAG as int]).len(),
    ensures
        ({
            let plan = select_plan(page[OFF_SLOT_FLAG as int]);
            let flag = page_after_plan(page, plan, count)[OFF_SLOT_FLAG as int];
            &&& flag == page[OFF_SLOT_FLAG as int] || flag == ERASED || flag == SLOT_B_MARK
            &&& count == plan.len() ==> flag == SLOT_B_MARK
        }),
{
    reveal_with_fuel(page_after_plan, 4);
}

} // verus!
