//! Boot metadata page accounting. The page is program-only between erases:
//! every word is written exactly once, so a torn or partial write can only
//! degrade towards the erased default, which selects the golden slot.

use crate::boot_shared::layout::METADATA_ADDR;
use vstd::prelude::*;

verus! {

/// Metadata word 0: layout version (erased = unknown, so golden).
pub const OFF_LAYOUT_VERSION: usize = 0;

/// Metadata word 1: slot flag (erased = golden; SLOT_B_MARK = slot B).
pub const OFF_SLOT_FLAG: usize = 1;

/// Metadata word 2: updater request. The application programs this word
/// to reach the updater (program-only, so the request path is crash-safe).
/// Any non-erased value counts: a torn program still requests updater,
/// the safe direction. Cleared by the metadata rebuild a successful app
/// upload performs.
pub const OFF_REQUEST: usize = 2;

/// Metadata word 3 onward: two-word boot records, appended sequentially.
pub const OFF_RECORDS: usize = 3;

/// Total 32-bit words in the metadata page.
pub const WORDS: usize = 512;

pub const SLOT_B_MARK: u32 = 0x0000_0001;

pub const ERASED: u32 = 0xFFFF_FFFF;

/// Canonical value the app programs into OFF_REQUEST ("UP").
pub const REQUEST_MARK: u32 = 0x0000_5055;

/// Attempt word: bit 31 cleared, exactly once per boot attempt.
pub const ATTEMPT_WORD: u32 = 0x7FFF_FFFF;

/// Health word: bit 30 cleared, programmed by the app when its main loop
/// is proven healthy.
pub const HEALTH_WORD: u32 = 0xBFFF_FFFF;

/// Any non-erased request word (including a torn program) requests
/// updater mode.
pub fn updater_requested(word: u32) -> (requested: bool)
    ensures
        requested == (word != ERASED),
{
    word != ERASED
}

pub fn flag_selects_slot_b(flag: u32) -> (selects: bool)
    ensures
        selects == (flag == SLOT_B_MARK),
{
    flag == SLOT_B_MARK
}

#[derive(Clone, Copy, Debug, PartialEq, Eq, Structural)]
pub enum RecordScan {
    /// Healthy pairs followed by `unhealthy` trailing unhealthy pairs.
    Valid { healthy: usize, unhealthy: usize },
    /// No attempt word present (fresh page after erase/rebuild).
    Empty,
}

/// True of an attempt word: programmed, with its top bit clear.
pub open spec fn attempted(word: u32) -> bool {
    word < 0x8000_0000
}

/// The number of records: pairs of words, up to the first without an attempt.
pub open spec fn record_count(words: Seq<u32>, index: int) -> nat
    decreases words.len() - index,
{
    if index + 1 < words.len() && attempted(words[index]) {
        1 + record_count(words, index + 2)
    } else {
        0
    }
}

/// Whether record `record` was marked healthy.
pub open spec fn record_healthy(words: Seq<u32>, record: int) -> bool {
    words[OFF_RECORDS + 2 * record + 1] == HEALTH_WORD
}

/// The number of healthy records among the first `count`.
pub open spec fn healthy_records(words: Seq<u32>, count: nat) -> nat
    decreases count,
{
    if count == 0 {
        0
    } else {
        healthy_records(words, (count - 1) as nat) + if record_healthy(words, count - 1) {
            1nat
        } else {
            0nat
        }
    }
}

/// The length of the run of unhealthy records that ends the first `count`.
pub open spec fn trailing_unhealthy(words: Seq<u32>, count: nat) -> nat
    decreases count,
{
    if count == 0 || record_healthy(words, count - 1) {
        0
    } else {
        trailing_unhealthy(words, (count - 1) as nat) + 1
    }
}

/// What a page's records say.
pub open spec fn scanned(words: Seq<u32>) -> RecordScan {
    let count = record_count(words, OFF_RECORDS as int);
    if count == 0 {
        RecordScan::Empty
    } else {
        RecordScan::Valid {
            healthy: healthy_records(words, count) as usize,
            unhealthy: trailing_unhealthy(words, count) as usize,
        }
    }
}

proof fn lemma_counts(words: Seq<u32>, count: nat)
    ensures
        healthy_records(words, count) <= count,
        trailing_unhealthy(words, count) <= count,
    decreases count,
{
    if count > 0 {
        lemma_counts(words, (count - 1) as nat);
    }
}

/// Walks the record area as (attempt, health) pairs. The first erased
/// or malformed word ends the scan.
pub fn scan(words: &[u32]) -> (result: RecordScan)
    ensures
        result == scanned(words@),
{
    let mut healthy: usize = 0;
    let mut unhealthy: usize = 0;
    let mut index: usize = OFF_RECORDS;
    let ghost mut count: nat = 0;
    while index < words.len() && words.len() - index > 1 && words[index] < 0x8000_0000
        invariant
            index == OFF_RECORDS + 2 * count,
            index <= words@.len() || index == OFF_RECORDS,
            record_count(words@, OFF_RECORDS as int) == count + record_count(
                words@,
                index as int,
            ),
            healthy == healthy_records(words@, count),
            unhealthy == trailing_unhealthy(words@, count),
            2 * count <= words@.len(),
        decreases words@.len() - index,
    {
        proof {
            lemma_counts(words@, count);
            lemma_counts(words@, count + 1);
        }
        if words[index + 1] == HEALTH_WORD {
            healthy = healthy + 1;
            unhealthy = 0;
        } else {
            unhealthy = unhealthy + 1;
        }
        index = index + 2;
        proof {
            count = count + 1;
        }
    }
    if index == OFF_RECORDS {
        RecordScan::Empty
    } else {
        RecordScan::Valid { healthy, unhealthy }
    }
}

/// True of a pair-aligned word that can take the next attempt.
pub open spec fn free_pair(words: Seq<u32>, index: int) -> bool {
    &&& OFF_RECORDS <= index
    &&& index + 1 < words.len()
    &&& (index - OFF_RECORDS) % 2 == 0
    &&& words[index] == ERASED
}

/// `found` is the first word that can take the next attempt.
pub open spec fn next_attempt(words: Seq<u32>, found: Option<usize>) -> bool {
    match found {
        Some(index) => free_pair(words, index as int) && forall|i: int|
            i < index ==> !(#[trigger] free_pair(words, i)),
        None => forall|i: int| !(#[trigger] free_pair(words, i)),
    }
}

/// Index of the next PAIR-ALIGNED attempt slot: records stride by two
/// words, and the attempt must never land in the previous record's
/// health slot.
fn next_attempt_index(words: &[u32]) -> (found: Option<usize>)
    ensures
        next_attempt(words@, found),
{
    let mut index: usize = OFF_RECORDS;
    while index < words.len() && words.len() - index > 1
        invariant
            OFF_RECORDS <= index,
            index <= words@.len() || index == OFF_RECORDS,
            (index - OFF_RECORDS) % 2 == 0,
            forall|i: int| i < index ==> !(#[trigger] free_pair(words@, i)),
        decreases words@.len() - index,
    {
        if words[index] == ERASED {
            return Some(index);
        }
        assert(!free_pair(words@, index as int));
        assert(!free_pair(words@, index + 1));
        index = index + 2;
    }
    None
}

/// True when no full (attempt, health) pair slot remains.
pub fn records_full(words: &[u32]) -> (full: bool)
    ensures
        full == forall|i: int| !(#[trigger] free_pair(words@, i)),
{
    next_attempt_index(words).is_none()
}

/// Address of the next attempt word to program, if any.
pub fn next_attempt_addr(words: &[u32]) -> (address: Option<u32>)
    requires
        METADATA_ADDR + 4 * words@.len() <= u32::MAX,
    ensures
        match address {
            Some(found) => found >= METADATA_ADDR && (found - METADATA_ADDR) % 4 == 0
                && next_attempt(words@, Some(((found - METADATA_ADDR) / 4) as usize)),
            None => next_attempt(words@, None),
        },
{
    match next_attempt_index(words) {
        Some(index) => Some(METADATA_ADDR + (index * 4) as u32),
        None => None,
    }
}

/// Address of the health word that follows the attempt word at `attempt_addr`.
pub fn health_addr_for(attempt_addr: u32) -> (address: u32)
    requires
        attempt_addr <= u32::MAX - 4,
    ensures
        address == attempt_addr + 4,
{
    attempt_addr + 4
}

/// Until its health word is programmed, a boot attempt lengthens the run of
/// unhealthy boots by one.
pub proof fn an_attempt_extends_the_streak(words: Seq<u32>, index: int, count: nat)
    requires
        free_pair(words, index),
        words[index + 1] == ERASED,
        index == OFF_RECORDS + 2 * count,
        record_count(words, OFF_RECORDS as int) == count,
    ensures
        ({
            let after = words.update(index, ATTEMPT_WORD);
            trailing_unhealthy(after, count + 1) == trailing_unhealthy(words, count) + 1
        }),
{
    let after = words.update(index, ATTEMPT_WORD);
    lemma_same_records(words, after, count, index);
}

proof fn lemma_same_records(words: Seq<u32>, after: Seq<u32>, count: nat, index: int)
    requires
        after.len() == words.len(),
        index == OFF_RECORDS + 2 * count || index > OFF_RECORDS + 2 * count,
        index < words.len(),
        forall|i: int| 0 <= i < words.len() && i != index ==> after[i] == words[i],
    ensures
        trailing_unhealthy(after, count) == trailing_unhealthy(words, count),
    decreases count,
{
    if count > 0 {
        lemma_same_records(words, after, (count - 1) as nat, index);
        assert(after[OFF_RECORDS + 2 * (count - 1) + 1] == words[OFF_RECORDS + 2 * (count - 1)
            + 1]);
    }
}

} // verus!
