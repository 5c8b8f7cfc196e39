//! Flash programming: the register steps of one page erase and one word
//! program, and plans made of many of them.

use vstd::prelude::*;

verus! {

pub const PAGE_SIZE: usize = 2_048;

/// PGERR and WRPERR of the status register.
pub const SR_ERRORS: u32 = 0x14;

pub const SR_EOP: u32 = 0x20;

/// Everything that is cleared before an operation.
pub const SR_CLEAR: u32 = 0x34;

pub const CR_PG: u32 = 0x01;

pub const CR_PER: u32 = 0x02;

pub const CR_STRT: u32 = 0x40;

pub const CR_LOCK: u32 = 0x80;

/// The first and the second key that unlock the flash.
pub const KEYR1: u32 = 0x4567_0123;

pub const KEYR2: u32 = 0xCDEF_89AB;

/// Polls of the busy flag before an operation counts as failed.
pub const READY_POLLS: u32 = 2_000_000;

/// One step of a flash operation.
#[derive(Clone, Copy, Debug, PartialEq, Eq, Structural)]
pub enum FlashStep {
    /// Poll the busy flag; the reply says whether it cleared in time.
    WaitReady,
    /// Write the keys, where the control register is locked.
    Unlock,
    ClearStatus,
    ReadStatus,
    SetControl(u32),
    ClearControl(u32),
    /// Clear control bits and lock the flash, in one write.
    Lock { clear: u32 },
    SetAddress(u32),
    WriteHalfWord { address: u32, value: u16 },
    ReadWord { address: u32 },
    /// Check that a page reads as erased.
    CheckBlank { address: u32 },
    /// The operation is over.
    Finish(bool),
}

#[derive(Clone, Copy, Debug, PartialEq, Eq, Structural)]
pub enum FlashReply {
    Done,
    Ready(bool),
    Blank(bool),
    Word(u32),
}

/// Whether the status that was read reports no error.
pub open spec fn clean(reply: FlashReply) -> bool {
    reply matches FlashReply::Word(status) && status & SR_ERRORS == 0
}

pub fn is_clean(reply: FlashReply) -> (result: bool)
    ensures
        result == clean(reply),
{
    match reply {
        FlashReply::Word(status) => status & SR_ERRORS == 0,
        _ => false,
    }
}

/// The steps of a page erase. The erase bit is cleared again on every path, as
/// locking keeps the control bits.
pub open spec fn erase_step(address: u32, replies: Seq<FlashReply>) -> FlashStep {
    let count = replies.len();
    if count == 0 {
        FlashStep::WaitReady
    } else if replies[0] != FlashReply::Ready(true) {
        FlashStep::Finish(false)
    } else if count == 1 {
        FlashStep::Unlock
    } else if count == 2 {
        FlashStep::ClearStatus
    } else if count == 3 {
        FlashStep::SetControl(CR_PER)
    } else if count == 4 {
        FlashStep::SetAddress(address)
    } else if count == 5 {
        FlashStep::SetControl(CR_STRT)
    } else if count == 6 {
        FlashStep::WaitReady
    } else if replies[6] != FlashReply::Ready(true) {
        if count == 7 {
            FlashStep::ClearControl(CR_PER)
        } else if count == 8 {
            FlashStep::SetControl(CR_LOCK)
        } else {
            FlashStep::Finish(false)
        }
    } else if count == 7 {
        FlashStep::ReadStatus
    } else if count == 8 {
        FlashStep::ClearControl(CR_PER)
    } else if count == 9 {
        FlashStep::SetControl(CR_LOCK)
    } else if !clean(replies[7]) {
        FlashStep::Finish(false)
    } else if count == 10 {
        FlashStep::CheckBlank { address }
    } else {
        FlashStep::Finish(replies[10] == FlashReply::Blank(true))
    }
}

/// Erases one 2 KiB page and checks that it is blank afterwards.
pub fn erase_page(address: u32, replies: &Vec<FlashReply>) -> (step: FlashStep)
    ensures
        step == erase_step(address, replies@),
{
    let count: usize = replies.len();
    if count == 0 {
        return FlashStep::WaitReady;
    }
    if replies[0] != FlashReply::Ready(true) {
        return FlashStep::Finish(false);
    }
    match count {
        1 => {
            return FlashStep::Unlock;
        },
        2 => {
            return FlashStep::ClearStatus;
        },
        3 => {
            return FlashStep::SetControl(CR_PER);
        },
        4 => {
            return FlashStep::SetAddress(address);
        },
        5 => {
            return FlashStep::SetControl(CR_STRT);
        },
        6 => {
            return FlashStep::WaitReady;
        },
        _ => {},
    }
    if replies[6] != FlashReply::Ready(true) {
        return match count {
            7 => FlashStep::ClearControl(CR_PER),
            8 => FlashStep::SetControl(CR_LOCK),
            _ => FlashStep::Finish(false),
        };
    }
    match count {
        7 => FlashStep::ReadStatus,
        8 => FlashStep::ClearControl(CR_PER),
        9 => FlashStep::SetControl(CR_LOCK),
        _ => if !is_clean(replies[7]) {
            FlashStep::Finish(false)
        } else if count == 10 {
            FlashStep::CheckBlank { address }
        } else {
            FlashStep::Finish(replies[10] == FlashReply::Blank(true))
        },
    }
}

/// The steps of a word program once `written` replies are in and no half-word
/// is left to be written: status, clean-up, and the read-back.
pub open spec fn program_tail(
    address: u32,
    value: u32,
    replies: Seq<FlashReply>,
    written: int,
    done: bool,
) -> FlashStep {
    let count = replies.len();
    if count == written {
        FlashStep::ReadStatus
    } else if count == written + 1 {
        FlashStep::ClearControl(CR_PG)
    } else if count == written + 2 {
        FlashStep::SetControl(CR_LOCK)
    } else if !(done && clean(replies[written])) {
        FlashStep::Finish(false)
    } else if count == written + 3 {
        FlashStep::ReadWord { address }
    } else {
        FlashStep::Finish(replies[written + 3] == FlashReply::Word(value))
    }
}

/// The steps of a word program: two half-words, and a read-back.
pub open spec fn program_step(address: u32, value: u32, replies: Seq<FlashReply>) -> FlashStep {
    let count = replies.len();
    if count == 0 {
        FlashStep::WaitReady
    } else if replies[0] != FlashReply::Ready(true) {
        FlashStep::Finish(false)
    } else if count == 1 {
        FlashStep::Unlock
    } else if count == 2 {
        FlashStep::ClearStatus
    } else if count == 3 {
        FlashStep::SetControl(CR_PG)
    } else if count == 4 {
        FlashStep::WriteHalfWord { address, value: (value % 0x1_0000) as u16 }
    } else if count == 5 {
        FlashStep::WaitReady
    } else if replies[5] != FlashReply::Ready(true) {
        program_tail(address, value, replies, 6, false)
    } else if count == 6 {
        FlashStep::WriteHalfWord {
            address: (address + 2) as u32,
            value: (value / 0x1_0000) as u16,
        }
    } else if count == 7 {
        FlashStep::WaitReady
    } else {
        program_tail(address, value, replies, 8, replies[7] == FlashReply::Ready(true))
    }
}

fn program_end(
    address: u32,
    value: u32,
    replies: &Vec<FlashReply>,
    written: usize,
    done: bool,
) -> (step: FlashStep)
    requires
        written <= replies@.len(),
        written <= 8,
    ensures
        step == program_tail(address, value, replies@, written as int, done),
{
    let count: usize = replies.len();
    if count == written {
        FlashStep::ReadStatus
    } else if count == written + 1 {
        FlashStep::ClearControl(CR_PG)
    } else if count == written + 2 {
        FlashStep::SetControl(CR_LOCK)
    } else if !(done && is_clean(replies[written])) {
        FlashStep::Finish(false)
    } else if count == written + 3 {
        FlashStep::ReadWord { address }
    } else {
        FlashStep::Finish(replies[written + 3] == FlashReply::Word(value))
    }
}

/// Programs one word at an even address and verifies it by read-back.
pub fn program_word(address: u32, value: u32, replies: &Vec<FlashReply>) -> (step: FlashStep)
    requires
        address <= 0xffff_fffd,
    ensures
        step == program_step(address, value, replies@),
{
    let count: usize = replies.len();
    if count == 0 {
        return FlashStep::WaitReady;
    }
    if replies[0] != FlashReply::Ready(true) {
        return FlashStep::Finish(false);
    }
    match count {
        1 => {
            return FlashStep::Unlock;
        },
        2 => {
            return FlashStep::ClearStatus;
        },
        3 => {
            return FlashStep::SetControl(CR_PG);
        },
        4 => {
            return FlashStep::WriteHalfWord { address, value: (value % 0x1_0000) as u16 };
        },
        5 => {
            return FlashStep::WaitReady;
        },
        _ => {},
    }
    if replies[5] != FlashReply::Ready(true) {
        return program_end(address, value, replies, 6, false);
    }
    match count {
        6 => FlashStep::WriteHalfWord {
            address: address + 2,
            value: (value / 0x1_0000) as u16,
        },
        7 => FlashStep::WaitReady,
        _ => program_end(address, value, replies, 8, replies[7] == FlashReply::Ready(true)),
    }
}

/// The end of a run of half-words that is settled after `settled` replies.
pub open spec fn half_words_end(count: int, settled: int, well: bool) -> FlashStep {
    if count == settled {
        FlashStep::Lock { clear: CR_PG }
    } else {
        FlashStep::Finish(well)
    }
}

/// The steps of a run of half-words from half-word `index` on. Each must be
/// done in time and without an error flag; the first that is not ends the run.
pub open spec fn half_words_from(
    writes: Seq<(u32, u16)>,
    index: int,
    replies: Seq<FlashReply>,
) -> FlashStep
    decreases writes.len() - index,
{
    let count = replies.len() as int;
    let start = 4 + 3 * index;
    if index >= writes.len() {
        half_words_end(count, start, true)
    } else if count == start {
        FlashStep::WriteHalfWord { address: writes[index].0, value: writes[index].1 }
    } else if count == start + 1 {
        FlashStep::WaitReady
    } else if replies[start + 1] != FlashReply::Ready(true) {
        half_words_end(count, start + 2, false)
    } else if count == start + 2 {
        FlashStep::ReadStatus
    } else if !clean(replies[start + 2]) {
        half_words_end(count, start + 3, false)
    } else {
        half_words_from(writes, index + 1, replies)
    }
}

/// The steps of programming half-words one after another.
pub open spec fn half_words_step(writes: Seq<(u32, u16)>, replies: Seq<FlashReply>) -> FlashStep {
    let count = replies.len();
    if count == 0 {
        FlashStep::WaitReady
    } else if replies[0] != FlashReply::Ready(true) {
        FlashStep::Finish(false)
    } else if count == 1 {
        FlashStep::Unlock
    } else if count == 2 {
        FlashStep::ClearStatus
    } else if count == 3 {
        FlashStep::SetControl(CR_PG)
    } else {
        half_words_from(writes, 0, replies)
    }
}

fn end_half_words(count: usize, settled: usize, well: bool) -> (step: FlashStep)
    ensures
        step == half_words_end(count as int, settled as int, well),
{
    if count == settled {
        FlashStep::Lock { clear: CR_PG }
    } else {
        FlashStep::Finish(well)
    }
}

/// Programs half-words one after another, and stops at the first failure.
pub fn program_half_words(writes: &[(u32, u16)], replies: &Vec<FlashReply>) -> (step: FlashStep)
    ensures
        step == half_words_step(writes@, replies@),
{
    let count: usize = replies.len();
    if count == 0 {
        return FlashStep::WaitReady;
    }
    if replies[0] != FlashReply::Ready(true) {
        return FlashStep::Finish(false);
    }
    if count <= 3 {
        return match count {
            1 => FlashStep::Unlock,
            2 => FlashStep::ClearStatus,
            _ => FlashStep::SetControl(CR_PG),
        };
    }
    let mut index: usize = 0;
    let mut start: usize = 4;
    while index < writes.len()
        invariant
            index <= writes@.len(),
            start == 4 + 3 * index,
            3 < count,
            start <= count,
            count == replies@.len(),
            replies@[0] == FlashReply::Ready(true),
            half_words_from(writes@, 0, replies@) == half_words_from(
                writes@,
                index as int,
                replies@,
            ),
        decreases writes@.len() - index,
    {
        if count == start {
            return FlashStep::WriteHalfWord { address: writes[index].0, value: writes[index].1 };
        }
        if count - start == 1 {
            return FlashStep::WaitReady;
        }
        if replies[start + 1] != FlashReply::Ready(true) {
            return end_half_words(count, start + 2, false);
        }
        if count - start == 2 {
            return FlashStep::ReadStatus;
        }
        if !is_clean(replies[start + 2]) {
            return end_half_words(count, start + 3, false);
        }
        index = index + 1;
        start = start + 3;
    }
    end_half_words(count, start, true)
}

/// True when every byte reads as erased.
pub fn range_is_blank(bytes: &[u8]) -> (blank: bool)
    ensures
        blank == forall|i: int| 0 <= i < bytes@.len() ==> bytes@[i] == 0xFF,
{
    let mut index: usize = 0;
    while index < bytes.len()
        invariant
            index <= bytes@.len(),
            forall|i: int| 0 <= i < index ==> bytes@[i] == 0xFF,
        decreases bytes@.len() - index,
    {
        if bytes[index] != 0xFF {
            return false;
        }
        index = index + 1;
    }
    true
}

/// One operation of a plan.
#[derive(Clone, Copy, Debug, PartialEq, Eq, Structural)]
pub enum FlashAction {
    Erase { address: u32 },
    Program { address: u32, value: u32 },
}

/// An operation, and whether the plan ends when it fails.
#[derive(Clone, Copy, Debug, PartialEq, Eq, Structural)]
pub struct PlannedAction {
    pub action: FlashAction,
    pub required: bool,
}

/// What comes next in a plan.
#[derive(Clone, Copy, Debug, PartialEq, Eq, Structural)]
pub enum PlanNext {
    Run(FlashAction),
    Finished(bool),
}

/// True when a required operation among the first `count` failed.
pub open spec fn plan_broken(plan: Seq<PlannedAction>, outcomes: Seq<bool>) -> bool {
    exists|i: int| #![trigger outcomes[i]]
        0 <= i < outcomes.len() && i < plan.len() && !outcomes[i] && plan[i].required
}

/// True when every operation so far went well.
pub open spec fn all_well(outcomes: Seq<bool>) -> bool {
    forall|i: int| 0 <= i < outcomes.len() ==> #[trigger] outcomes[i]
}

/// What comes next in a plan after these outcomes: a failed operation that was
/// required ends it, and it succeeds when every operation did.
pub open spec fn plan_next(plan: Seq<PlannedAction>, outcomes: Seq<bool>) -> PlanNext {
    if plan_broken(plan, outcomes) {
        PlanNext::Finished(false)
    } else if outcomes.len() < plan.len() {
        PlanNext::Run(plan[outcomes.len() as int].action)
    } else {
        PlanNext::Finished(all_well(outcomes))
    }
}

pub fn next_action(plan: &Vec<PlannedAction>, outcomes: &Vec<bool>) -> (next: PlanNext)
    ensures
        next == plan_next(plan@, outcomes@),
{
    let mut well: bool = true;
    let mut index: usize = 0;
    while index < outcomes.len()
        invariant
            index <= outcomes@.len(),
            well == forall|i: int| 0 <= i < index ==> #[trigger] outcomes@[i],
            forall|i: int| #![trigger outcomes@[i]]
                0 <= i < index && i < plan@.len() && !outcomes@[i] ==> !plan@[i].required,
        decreases outcomes@.len() - index,
    {
        if !outcomes[index] {
            if index < plan.len() && plan[index].required {
                assert(!outcomes@[index as int] && plan@[index as int].required);
                assert(plan_broken(plan@, outcomes@));
                return PlanNext::Finished(false);
            }
            well = false;
        }
        index = index + 1;
    }
    if outcomes.len() < plan.len() {
        PlanNext::Run(plan[outcomes.len()].action)
    } else {
        PlanNext::Finished(well)
    }
}

/// The plan that erases consecutive pages.
pub open spec fn erase_plan(address: u32, count: nat) -> Seq<PlannedAction> {
    Seq::new(
        count,
        |page: int|
            PlannedAction {
                action: FlashAction::Erase { address: (address + page * PAGE_SIZE) as u32 },
                required: true,
            },
    )
}

/// Erases `count` pages from `address` on.
pub fn erase_pages(address: u32, count: usize) -> (plan: Vec<PlannedAction>)
    requires
        address + count * PAGE_SIZE <= 0xffff_ffff,
    ensures
        plan@ == erase_plan(address, count as nat),
{
    let mut plan: Vec<PlannedAction> = Vec::new();
    let mut page: usize = 0;
    assert(plan@ =~= erase_plan(address, count as nat).take(0));
    while page < count
        invariant
            page <= count,
            address + count * PAGE_SIZE <= 0xffff_ffff,
            plan@ == erase_plan(address, count as nat).take(page as int),
        decreases count - page,
    {
        assert(page * PAGE_SIZE <= count * PAGE_SIZE) by (nonlinear_arith)
            requires
                page <= count,
        ;
        plan.push(
            PlannedAction {
                action: FlashAction::Erase { address: address + (page * PAGE_SIZE) as u32 },
                required: true,
            },
        );
        page = page + 1;
        assert(plan@ =~= erase_plan(address, count as nat).take(page as int));
    }
    assert(plan@ =~= erase_plan(address, count as nat));
    plan
}

/// The contents of the flash, by address.
pub type FlashImage = spec_fn(int) -> u8;

/// The flash after one operation that went well.
pub open spec fn applied(flash: FlashImage, action: FlashAction) -> FlashImage {
    match action {
        FlashAction::Erase { address } => |at: int|
            if address <= at < address + PAGE_SIZE {
                0xFFu8
            } else {
                flash(at)
            },
        FlashAction::Program { address, value } => |at: int|
            if address <= at < address + 4 {
                crate::little_endian::bytes32(value)[at - address]
            } else {
                flash(at)
            },
    }
}

/// The flash after the first `count` operations of a plan.
pub open spec fn flash_after(
    flash: FlashImage,
    plan: Seq<PlannedAction>,
    count: nat,
) -> FlashImage
    decreases count,
{
    if count == 0 || count > plan.len() {
        flash
    } else {
        applied(flash_after(flash, plan, (count - 1) as nat), plan[count - 1].action)
    }
}

/// Erased pages read as erased, and nothing else changes.
pub proof fn erased_pages_are_blank(flash: FlashImage, address: u32, pages: nat, count: nat, at: int)
    requires
        count <= pages,
        address + pages * PAGE_SIZE <= 0xffff_ffff,
    ensures
        flash_after(flash, erase_plan(address, pages), count)(at) == (if address <= at < address
            + count * PAGE_SIZE {
            0xFFu8
        } else {
            flash(at)
        }),
    decreases count,
{
    if count > 0 {
        erased_pages_are_blank(flash, address, pages, (count - 1) as nat, at);
        assert((count - 1) * PAGE_SIZE + PAGE_SIZE == count * PAGE_SIZE) by (nonlinear_arith);
        assert(count * PAGE_SIZE <= pages * PAGE_SIZE) by (nonlinear_arith)
            requires
                count <= pages,
        ;
    }
}

/// A page erase that began to erase never ends with the erase bit set: the step
/// before it locks is the one that clears it.
pub proof fn erasing_cleans_up(address: u32, replies: Seq<FlashReply>)
    requires
        erase_step(address, replies) == FlashStep::SetControl(CR_LOCK),
    ensures
        replies.len() > 0,
        erase_step(address, replies.drop_last()) == FlashStep::ClearControl(CR_PER),
{
}

/// A word program that began to program never ends with the program bit set.
pub proof fn programming_cleans_up(address: u32, value: u32, replies: Seq<FlashReply>)
    requires
        program_step(address, value, replies) == FlashStep::SetControl(CR_LOCK),
    ensures
        replies.len() > 0,
        program_step(address, value, replies.drop_last()) == FlashStep::ClearControl(CR_PG),
{
}

proof fn lemma_half_words_clean_up(
    writes: Seq<(u32, u16)>,
    index: int,
    replies: Seq<FlashReply>,
)
    requires
        0 <= index <= writes.len(),
        replies.len() > 4 + 3 * index,
        half_words_from(writes, index, replies) is Finish,
        !(half_words_from(writes, index, replies.drop_last()) is Finish),
    ensures
        half_words_from(writes, index, replies.drop_last()) == (FlashStep::Lock { clear: CR_PG }),
    decreases writes.len() - index,
{
    reveal_with_fuel(half_words_from, 2);
    let start = 4 + 3 * index;
    if index < writes.len() && replies.len() > start + 3 && replies[start + 1] == FlashReply::Ready(
        true,
    ) && clean(replies[start + 2]) {
        lemma_half_words_clean_up(writes, index + 1, replies);
    }
}

/// A run of half-words that began to program never ends with the program bit
/// set: the step before its end clears it and locks the flash.
pub proof fn half_words_clean_up(writes: Seq<(u32, u16)>, replies: Seq<FlashReply>)
    requires
        replies.len() > 3,
        half_words_step(writes, replies) is Finish,
        !(half_words_step(writes, replies.drop_last()) is Finish),
    ensures
        half_words_step(writes, replies.drop_last()) == (FlashStep::Lock { clear: CR_PG }),
{
    if replies.len() > 4 {
        lemma_half_words_clean_up(writes, 0, replies);
    }
}

proof fn lemma_half_words_all_done(
    writes: Seq<(u32, u16)>,
    from: int,
    replies: Seq<FlashReply>,
    index: int,
)
    requires
        0 <= from <= index < writes.len(),
        replies.len() >= 4 + 3 * from,
        half_words_from(writes, from, replies) == FlashStep::Finish(true),
    ensures
        replies.len() > 6 + 3 * index,
        replies[5 + 3 * index] == FlashReply::Ready(true),
        clean(replies[6 + 3 * index]),
    decreases writes.len() - from,
{
    if from < index {
        lemma_half_words_all_done(writes, from + 1, replies, index);
    }
}

/// A run counts as programmed only when every one of its half-words was done
/// in time and without an error flag.
pub proof fn programmed_half_words_were_all_done(
    writes: Seq<(u32, u16)>,
    replies: Seq<FlashReply>,
    index: int,
)
    requires
        half_words_step(writes, replies) == FlashStep::Finish(true),
        0 <= index < writes.len(),
    ensures
        replies.len() > 6 + 3 * index,
        replies[5 + 3 * index] == FlashReply::Ready(true),
        clean(replies[6 + 3 * index]),
{
    lemma_half_words_all_done(writes, 0, replies, index);
}

/// A word counts as programmed only when it was read back as it was meant.
pub proof fn programmed_means_read_back(address: u32, value: u32, replies: Seq<FlashReply>)
    requires
        program_step(address, value, replies) == FlashStep::Finish(true),
    ensures
        replies.len() >= 12,
        replies[11] == FlashReply::Word(value),
{
}

} // verus!
