//! The settings journal: a flash page of records, appended until it is full
//! and then compacted.
//!
//! Deciding what to erase and program is done here. A job says which flash
//! command comes next and is told whether it succeeded.

use crate::little_endian::le32;
use crate::record::{
    acceptable, decode, encode, encoded, held_in, kind_of_number, RecordKind, SettingsRecord,
    RECORD_SIZE,
};
use crate::settings::{same_settings, PersistentSettings};
use vstd::prelude::*;

verus! {

pub const FLASH_PAGE_SIZE: usize = 2_048;

/// Records that fit in a page.
pub const SETTINGS_SLOTS: usize = 42;

/// The newest record of each kind, and where the next one goes.
#[derive(Clone, Copy)]
pub struct SettingsStore {
    pub latest: Option<SettingsRecord>,
    pub profiles: [Option<SettingsRecord>; 3],
    pub next_slot: usize,
}

/// The bytes of slot `index`.
pub open spec fn slot_bytes(page: Seq<u8>, index: int) -> Seq<u8> {
    page.subrange(RECORD_SIZE * index, RECORD_SIZE * index + RECORD_SIZE)
}

/// True when a slot has not been written since the page was erased.
pub open spec fn blank(bytes: Seq<u8>) -> bool {
    forall|i: int| 0 <= i < bytes.len() ==> #[trigger] bytes[i] == 0xff
}

/// True when a slot holds a record of `kind`.
pub open spec fn holds(bytes: Seq<u8>, kind: RecordKind) -> bool {
    !blank(bytes) && acceptable(bytes) && kind_of_number(le32(bytes, 4) / 0x4000_0000) == kind
}

/// The sequence number in a slot.
pub open spec fn sequence_in(bytes: Seq<u8>) -> int {
    le32(bytes, 4) % 0x4000_0000
}

/// `found` is the record of `kind` with the highest sequence number among the
/// first `count` slots; of equal ones the first.
pub open spec fn newest(
    page: Seq<u8>,
    count: int,
    kind: RecordKind,
    found: Option<SettingsRecord>,
) -> bool {
    match found {
        None => forall|i: int| 0 <= i < count ==> !holds(#[trigger] slot_bytes(page, i), kind),
        Some(record) => exists|at: int| newest_at(page, count, kind, record, at),
    }
}

/// `newest`, with the record found in slot `at`.
pub open spec fn newest_at(
    page: Seq<u8>,
    count: int,
    kind: RecordKind,
    record: SettingsRecord,
    at: int,
) -> bool {
    &&& 0 <= at < count
    &&& holds(slot_bytes(page, at), kind)
    &&& held_in(record, slot_bytes(page, at))
    &&& forall|i: int|
        0 <= i < count && holds(#[trigger] slot_bytes(page, i), kind) ==> sequence_in(
            slot_bytes(page, i),
        ) <= record.sequence && (i < at ==> sequence_in(slot_bytes(page, i)) < record.sequence)
}

/// `slot` is the first blank slot among the first `count`, or `SETTINGS_SLOTS`.
pub open spec fn first_blank(page: Seq<u8>, count: int, slot: usize) -> bool {
    &&& forall|i: int|
        0 <= i < count && i < slot ==> !blank(#[trigger] slot_bytes(page, i))
    &&& slot < count && blank(slot_bytes(page, slot as int)) || slot == SETTINGS_SLOTS
}

fn is_blank(bytes: &[u8; RECORD_SIZE]) -> (result: bool)
    ensures
        result == blank(bytes@),
{
    let mut index: usize = 0;
    while index < RECORD_SIZE
        invariant
            index <= RECORD_SIZE,
            forall|i: int| 0 <= i < index ==> #[trigger] bytes@[i] == 0xff,
        decreases RECORD_SIZE - index,
    {
        if bytes[index] != 0xff {
            assert(bytes@[index as int] != 0xff);
            return false;
        }
        index = index + 1;
    }
    true
}

fn read_settings_slot(page: &[u8], slot: usize) -> (bytes: [u8; RECORD_SIZE])
    requires
        slot < SETTINGS_SLOTS,
        page@.len() >= SETTINGS_SLOTS * RECORD_SIZE,
    ensures
        bytes@ == slot_bytes(page@, slot as int),
{
    let mut bytes: [u8; RECORD_SIZE] = [0;RECORD_SIZE];
    let mut offset: usize = 0;
    while offset < RECORD_SIZE
        invariant
            offset <= RECORD_SIZE,
            slot < SETTINGS_SLOTS,
            page@.len() >= SETTINGS_SLOTS * RECORD_SIZE,
            forall|i: int|
                0 <= i < offset ==> #[trigger] bytes@[i] == page@[slot * RECORD_SIZE + i],
        decreases RECORD_SIZE - offset,
    {
        bytes[offset] = page[slot * RECORD_SIZE + offset];
        offset = offset + 1;
    }
    assert(bytes@ =~= slot_bytes(page@, slot as int));
    bytes
}

/// Whether `record` replaces `held`.
fn replaces(record: &SettingsRecord, held: &Option<SettingsRecord>) -> (result: bool)
    ensures
        result == (held matches Some(old) ==> record.sequence > old.sequence),
{
    match held {
        Some(old) => record.sequence > old.sequence,
        None => true,
    }
}

/// One more slot taken into account by `newest`.
proof fn lemma_newest_step(
    page: Seq<u8>,
    count: int,
    kind: RecordKind,
    before: Option<SettingsRecord>,
    record: Option<SettingsRecord>,
)
    requires
        0 <= count,
        newest(page, count, kind, before),
        record is Some <==> holds(slot_bytes(page, count), kind),
        record matches Some(found) ==> held_in(found, slot_bytes(page, count)),
    ensures
        ({
            let after = match (record, before) {
                (Some(found), Some(old)) => if found.sequence > old.sequence {
                    record
                } else {
                    before
                },
                (Some(found), None) => record,
                (None, _) => before,
            };
            newest(page, count + 1, kind, after)
        }),
{
    match before {
        None => {
            if let Some(found) = record {
                assert(newest_at(page, count + 1, kind, found, count));
            } else {
                assert forall|i: int| 0 <= i < count + 1 implies !holds(
                    #[trigger] slot_bytes(page, i),
                    kind,
                ) by {}
            }
        },
        Some(old) => {
            let at = choose|at: int| newest_at(page, count, kind, old, at);
            if let Some(found) = record {
                if found.sequence > old.sequence {
                    assert(newest_at(page, count + 1, kind, found, count));
                } else {
                    assert(newest_at(page, count + 1, kind, old, at));
                }
            } else {
                assert(newest_at(page, count + 1, kind, old, at));
            }
        },
    }
}

/// Reads the journal: the newest record of each kind, and the first blank
/// slot. Slots that hold no intact record are passed over.
pub fn load_settings_store(page: &[u8]) -> (store: SettingsStore)
    requires
        page@.len() >= SETTINGS_SLOTS * RECORD_SIZE,
    ensures
        newest(page@, SETTINGS_SLOTS as int, RecordKind::Autosave, store.latest),
        forall|i: int|
            0 <= i < 3 ==> newest(
                page@,
                SETTINGS_SLOTS as int,
                RecordKind::Profile(i as u8),
                #[trigger] store.profiles[i],
            ),
        first_blank(page@, SETTINGS_SLOTS as int, store.next_slot),
{
    let mut latest: Option<SettingsRecord> = None;
    let mut profiles: [Option<SettingsRecord>; 3] = [None, None, None];
    let mut next_slot: usize = SETTINGS_SLOTS;
    let mut slot: usize = 0;
    while slot < SETTINGS_SLOTS
        invariant
            slot <= SETTINGS_SLOTS,
            page@.len() >= SETTINGS_SLOTS * RECORD_SIZE,
            newest(page@, slot as int, RecordKind::Autosave, latest),
            newest(page@, slot as int, RecordKind::Profile(0), profiles[0]),
            newest(page@, slot as int, RecordKind::Profile(1), profiles[1]),
            newest(page@, slot as int, RecordKind::Profile(2), profiles[2]),
            first_blank(page@, slot as int, next_slot),
        decreases SETTINGS_SLOTS - slot,
    {
        let bytes: [u8; RECORD_SIZE] = read_settings_slot(page, slot);
        let ghost here = bytes@;
        let ghost old_latest = latest;
        let ghost old_profiles = profiles;
        let mut record: Option<SettingsRecord> = None;
        if is_blank(&bytes) {
            if slot < next_slot {
                next_slot = slot;
            }
        } else {
            record = decode(&bytes);
        }
        if let Some(found) = record {
            match found.kind {
                RecordKind::Autosave => {
                    if replaces(&found, &latest) {
                        latest = Some(found);
                    }
                },
                RecordKind::Profile(profile) => {
                    assert(profile <= 2);
                    if replaces(&found, &profiles[profile as usize]) {
                        profiles[profile as usize] = Some(found);
                    }
                },
            }
        }
        proof {
            let found_for = |kind: RecordKind|
                if record matches Some(found) && found.kind == kind {
                    record
                } else {
                    None
                };
            lemma_newest_step(
                page@,
                slot as int,
                RecordKind::Autosave,
                old_latest,
                found_for(RecordKind::Autosave),
            );
            lemma_newest_step(
                page@,
                slot as int,
                RecordKind::Profile(0),
                old_profiles[0],
                found_for(RecordKind::Profile(0)),
            );
            lemma_newest_step(
                page@,
                slot as int,
                RecordKind::Profile(1),
                old_profiles[1],
                found_for(RecordKind::Profile(1)),
            );
            lemma_newest_step(
                page@,
                slot as int,
                RecordKind::Profile(2),
                old_profiles[2],
                found_for(RecordKind::Profile(2)),
            );
        }
        slot = slot + 1;
    }
    assert forall|i: int| 0 <= i < 3 implies newest(
        page@,
        SETTINGS_SLOTS as int,
        RecordKind::Profile(i as u8),
        #[trigger] profiles[i],
    ) by {
        assert(i == 0 || i == 1 || i == 2);
    }
    SettingsStore { latest, profiles, next_slot }
}

/// Where the journal's page begins.
pub const SETTINGS_ADDR: u32 = 0x0801_f000;

/// A flash command of the journal.
#[derive(Clone, Copy, Debug, PartialEq, Eq)]
pub enum StoreCommand {
    ErasePage,
    /// Program a slot with the bytes of a record; it must read back as the record.
    Program { slot: usize, bytes: [u8; RECORD_SIZE], record: SettingsRecord },
}

/// A change of the journal in progress.
#[derive(Clone, Copy)]
pub enum StoreJob {
    /// The page is to be erased, refilled, and extended by a record.
    Erase { append: Option<SettingsRecord> },
    /// The newest record of source `source` is to be written back: the
    /// autosaved one is source 0, profile `n` is source `n + 1`.
    Refill { source: usize, append: Option<SettingsRecord> },
    /// A record is to be written to the next slot.
    Append { record: SettingsRecord },
    /// Nothing is left to do; `saved` says whether all of it succeeded.
    Done { saved: bool },
}

impl SettingsStore {
    /// The newest record of a source.
    pub open spec fn source(self, index: int) -> Option<SettingsRecord> {
        if index == 0 {
            self.latest
        } else {
            self.profiles[index - 1]
        }
    }

    /// `self` with a record in its place, after the next slot was written.
    pub open spec fn extended(self, record: SettingsRecord) -> Self {
        let next_slot = (self.next_slot + 1) as usize;
        match record.kind {
            RecordKind::Autosave => SettingsStore { latest: Some(record), next_slot, ..self },
            RecordKind::Profile(slot) => SettingsStore {
                profiles: vstd::array::spec_array_update(
                    self.profiles,
                    slot as int,
                    Some(record),
                ),
                next_slot,
                ..self
            },
        }
    }

    /// The record that stores `settings` as `kind`: one past the newest of its
    /// kind.
    pub open spec fn successor(self, kind: RecordKind, settings: PersistentSettings) -> SettingsRecord {
        let held = match kind {
            RecordKind::Autosave => self.latest,
            RecordKind::Profile(slot) => self.profiles[slot as int],
        };
        SettingsRecord {
            sequence: match held {
                Some(old) => crate::reducer::next_version(old.sequence),
                None => 1,
            },
            kind,
            settings,
        }
    }
}

/// True of the kinds that have a place in the journal.
pub open spec fn has_place(kind: RecordKind) -> bool {
    kind matches RecordKind::Profile(slot) ==> slot < 3
}

/// `job` is the one that refills from source `from` on, or the one after it.
pub open spec fn refills_from(
    store: SettingsStore,
    from: int,
    append: Option<SettingsRecord>,
    job: StoreJob,
) -> bool
    decreases 4 - from,
{
    if from >= 4 {
        job == (match append {
            Some(record) => StoreJob::Append { record },
            None => StoreJob::Done { saved: true },
        })
    } else if store.source(from) is Some {
        job == StoreJob::Refill { source: from as usize, append }
    } else {
        refills_from(store, from + 1, append, job)
    }
}

fn refill_from(store: &SettingsStore, from: usize, append: Option<SettingsRecord>) -> (job:
    StoreJob)
    requires
        from <= 4,
    ensures
        refills_from(*store, from as int, append, job),
        job matches StoreJob::Refill { source, append: _ } ==> source < 4 && store.source(
            source as int,
        ) is Some,
{
    let mut source: usize = from;
    while source < 4
        invariant
            from <= source <= 4,
            forall|job: StoreJob|
                refills_from(*store, source as int, append, job) ==> refills_from(
                    *store,
                    from as int,
                    append,
                    job,
                ),
        decreases 4 - source,
    {
        let present: bool = if source == 0 {
            store.latest.is_some()
        } else {
            store.profiles[source - 1].is_some()
        };
        if present {
            return StoreJob::Refill { source, append };
        }
        source = source + 1;
    }
    match append {
        Some(record) => StoreJob::Append { record },
        None => StoreJob::Done { saved: true },
    }
}

/// Begins to compact the journal: the page is erased and the newest records
/// are written back.
pub fn compact_settings_store() -> (job: StoreJob)
    ensures
        job == (StoreJob::Erase { append: None }),
{
    StoreJob::Erase { append: None }
}

/// Begins to store `settings` as `kind`. Same-bank programming can stall
/// foreground protection, so no flash mutation ever begins while an output is
/// physically live. A full journal is compacted first.
pub fn persist_settings_record(
    store: &SettingsStore,
    kind: RecordKind,
    settings: PersistentSettings,
    outputs_physically_off: bool,
) -> (job: StoreJob)
    requires
        has_place(kind),
    ensures
        job == (if !outputs_physically_off {
            StoreJob::Done { saved: false }
        } else if store.next_slot >= SETTINGS_SLOTS {
            StoreJob::Erase { append: Some(store.successor(kind, settings)) }
        } else {
            StoreJob::Append { record: store.successor(kind, settings) }
        }),
{
    if !outputs_physically_off {
        return StoreJob::Done { saved: false };
    }
    let held = match kind {
        RecordKind::Autosave => store.latest,
        RecordKind::Profile(slot) => store.profiles[slot as usize],
    };
    let record = SettingsRecord {
        sequence: match held {
            Some(old) => old.sequence.wrapping_add(1),
            None => 1,
        },
        kind,
        settings,
    };
    if store.next_slot >= SETTINGS_SLOTS {
        StoreJob::Erase { append: Some(record) }
    } else {
        StoreJob::Append { record }
    }
}

/// Begins to autosave `settings`.
pub fn persist_settings(
    store: &SettingsStore,
    settings: PersistentSettings,
    outputs_physically_off: bool,
) -> (job: StoreJob)
    ensures
        job == (if !outputs_physically_off {
            StoreJob::Done { saved: false }
        } else if store.next_slot >= SETTINGS_SLOTS {
            StoreJob::Erase { append: Some(store.successor(RecordKind::Autosave, settings)) }
        } else {
            StoreJob::Append { record: store.successor(RecordKind::Autosave, settings) }
        }),
{
    persist_settings_record(store, RecordKind::Autosave, settings, outputs_physically_off)
}

impl StoreJob {
    /// True when the job fits the store it works on.
    pub open spec fn wf(self, store: SettingsStore) -> bool {
        match self {
            StoreJob::Erase { append } => append matches Some(record) ==> has_place(record.kind),
            StoreJob::Refill { source, append } => source < 4 && store.source(source as int) is Some
                && store.next_slot <= source && (append matches Some(record) ==> has_place(
                record.kind,
            )),
            StoreJob::Append { record } => has_place(record.kind) && store.next_slot
                < SETTINGS_SLOTS,
            StoreJob::Done { saved } => true,
        }
    }

    /// The record that the job writes next.
    pub open spec fn writes(self, store: SettingsStore) -> Option<SettingsRecord> {
        match self {
            StoreJob::Refill { source, append } => store.source(source as int),
            StoreJob::Append { record } => Some(record),
            _ => None,
        }
    }

    /// The flash command that comes next, if any.
    pub fn command(&self, store: &SettingsStore) -> (command: Option<StoreCommand>)
        requires
            self.wf(*store),
        ensures
            match *self {
                StoreJob::Erase { append } => command == Some(StoreCommand::ErasePage),
                StoreJob::Done { saved } => command is None,
                _ => command matches Some(StoreCommand::Program { slot, bytes, record }) && slot
                    == store.next_slot && self.writes(*store) == Some(record) && bytes@ == encoded(
                    record,
                ),
            },
    {
        match *self {
            StoreJob::Erase { append: _ } => Some(StoreCommand::ErasePage),
            StoreJob::Refill { source, append: _ } => {
                let record = if source == 0 {
                    store.latest
                } else {
                    store.profiles[source - 1]
                };
                match record {
                    Some(record) => Some(
                        StoreCommand::Program {
                            slot: store.next_slot,
                            bytes: encode(record),
                            record,
                        },
                    ),
                    None => None,
                }
            },
            StoreJob::Append { record } => Some(
                StoreCommand::Program { slot: store.next_slot, bytes: encode(record), record },
            ),
            StoreJob::Done { saved: _ } => None,
        }
    }

    /// Takes in whether the command succeeded, and goes on. A failure ends the
    /// job with nothing recorded of the failed command.
    pub fn resume(self, store: &mut SettingsStore, ok: bool) -> (next: StoreJob)
        requires
            self.wf(*old(store)),
        ensures
            next.wf(*final(store)),
            !ok && !(self is Done) ==> *final(store) == *old(store) && next == (StoreJob::Done {
                saved: false,
            }),
            ok ==> match self {
                StoreJob::Erase { append } => *final(store) == (SettingsStore {
                    next_slot: 0,
                    ..*old(store)
                }) && refills_from(*old(store), 0, append, next),
                StoreJob::Refill { source, append } => *final(store) == (SettingsStore {
                    next_slot: (old(store).next_slot + 1) as usize,
                    ..*old(store)
                }) && refills_from(*old(store), source + 1, append, next),
                StoreJob::Append { record } => *final(store) == old(store).extended(record) && next
                    == (StoreJob::Done { saved: true }),
                StoreJob::Done { saved } => true,
            },
            self is Done ==> *final(store) == *old(store) && next == self,
    {
        match self {
            StoreJob::Done { saved } => {
                return StoreJob::Done { saved };
            },
            _ => {},
        }
        if !ok {
            return StoreJob::Done { saved: false };
        }
        match self {
            StoreJob::Erase { append } => {
                let next = refill_from(store, 0, append);
                proof {
                    let moved = SettingsStore { next_slot: 0, ..*store };
                    lemma_refills_frame(*store, moved, 0, append, next);
                }
                store.next_slot = 0;
                next
            },
            StoreJob::Refill { source, append } => {
                let next = refill_from(store, source + 1, append);
                proof {
                    let moved = SettingsStore {
                        next_slot: (store.next_slot + 1) as usize,
                        ..*store
                    };
                    lemma_refills_frame(*store, moved, source + 1, append, next);
                }
                store.next_slot = store.next_slot + 1;
                next
            },
            StoreJob::Append { record } => {
                match record.kind {
                    RecordKind::Autosave => {
                        store.latest = Some(record);
                    },
                    RecordKind::Profile(slot) => {
                        store.profiles[slot as usize] = Some(record);
                    },
                }
                store.next_slot = store.next_slot + 1;
                StoreJob::Done { saved: true }
            },
            StoreJob::Done { saved } => StoreJob::Done { saved },
        }
    }
}

/// A refill names a present source at or after where it looked.
proof fn lemma_refills_frame(
    store: SettingsStore,
    moved: SettingsStore,
    from: int,
    append: Option<SettingsRecord>,
    job: StoreJob,
)
    requires
        0 <= from <= 4,
        refills_from(store, from, append, job),
        moved == (SettingsStore { next_slot: moved.next_slot, ..store }),
    ensures
        refills_from(moved, from, append, job),
        job matches StoreJob::Refill { source, append: kept } ==> from <= source < 4
            && moved.source(source as int) is Some && kept == append,
        job matches StoreJob::Append { record } ==> append == Some(record),
        !(job is Erase),
    decreases 4 - from,
{
    if from < 4 && store.source(from) is None {
        lemma_refills_frame(store, moved, from + 1, append, job);
    }
}

/// Whether a slot may be programmed: it exists and is blank.
pub fn slot_programmable(slot: usize, current: &[u8; RECORD_SIZE]) -> (programmable: bool)
    ensures
        programmable == (slot < SETTINGS_SLOTS && blank(current@)),
{
    slot < SETTINGS_SLOTS && is_blank(current)
}

/// Halfword `index` of a record, as the flash is programmed.
pub fn record_halfword(bytes: &[u8; RECORD_SIZE], index: usize) -> (halfword: u16)
    requires
        index < RECORD_SIZE / 2,
    ensures
        halfword as int == crate::little_endian::le16(bytes@[2 * index as int], bytes@[2 * index + 1]),
{
    bytes[2 * index] as u16 + 0x100 * (bytes[2 * index + 1] as u16)
}

/// The half-words of a record in slot `slot`, with their addresses.
pub open spec fn slot_half_words(slot: int, bytes: Seq<u8>) -> Seq<(u32, u16)> {
    Seq::new(
        (RECORD_SIZE / 2) as nat,
        |index: int|
            (
                (SETTINGS_ADDR + slot * RECORD_SIZE + 2 * index) as u32,
                crate::little_endian::le16(bytes[2 * index], bytes[2 * index + 1]) as u16,
            ),
    )
}

/// Plans the half-words that program a slot.
pub fn slot_writes(slot: usize, bytes: &[u8; RECORD_SIZE]) -> (writes: Vec<(u32, u16)>)
    requires
        slot < SETTINGS_SLOTS,
    ensures
        writes@ == slot_half_words(slot as int, bytes@),
{
    let mut writes: Vec<(u32, u16)> = Vec::new();
    let mut index: usize = 0;
    while index < RECORD_SIZE / 2
        invariant
            slot < SETTINGS_SLOTS,
            index <= RECORD_SIZE / 2,
            writes@ =~= slot_half_words(slot as int, bytes@).take(index as int),
        decreases RECORD_SIZE / 2 - index,
    {
        let address: u32 = SETTINGS_ADDR + (slot * RECORD_SIZE) as u32 + 2 * (index as u32);
        writes.push((address, record_halfword(bytes, index)));
        index = index + 1;
    }
    writes
}

/// Whether a slot reads back as the record that was programmed.
pub fn read_back_matches(bytes: &[u8; RECORD_SIZE], record: &SettingsRecord) -> (matches: bool)
    ensures
        matches <==> acceptable(bytes@) && held_in(*record, bytes@),
{
    match decode(bytes) {
        Some(found) => {
            proof {
                if held_in(*record, bytes@) {
                    crate::record::lemma_held_is_unique(found, *record, bytes@);
                }
            }
            found.sequence == record.sequence && found.kind == record.kind && same_settings(
                &found.settings,
                &record.settings,
            )
        },
        None => false,
    }
}

/// `page` with slot `slot` programmed to `bytes`.
pub open spec fn programmed(page: Seq<u8>, slot: int, bytes: Seq<u8>) -> Seq<u8> {
    page.take(RECORD_SIZE * slot) + bytes + page.skip(RECORD_SIZE * slot + RECORD_SIZE)
}

proof fn lemma_programmed(page: Seq<u8>, slot: int, bytes: Seq<u8>, index: int)
    requires
        page.len() >= SETTINGS_SLOTS * RECORD_SIZE,
        0 <= slot < SETTINGS_SLOTS,
        0 <= index < SETTINGS_SLOTS,
        bytes.len() == RECORD_SIZE,
    ensures
        slot_bytes(programmed(page, slot, bytes), index) == if index == slot {
            bytes
        } else {
            slot_bytes(page, index)
        },
{
    let after = programmed(page, slot, bytes);
    if index == slot {
        assert(slot_bytes(after, index) =~= bytes);
    } else {
        assert(slot_bytes(after, index) =~= slot_bytes(page, index));
    }
}

/// Loading gives back what was saved: once the next record of a kind has been
/// written to the first blank slot, it is the newest of its kind.
pub proof fn an_appended_record_is_loaded(
    page: Seq<u8>,
    store: SettingsStore,
    kind: RecordKind,
    settings: PersistentSettings,
)
    requires
        page.len() >= SETTINGS_SLOTS * RECORD_SIZE,
        has_place(kind),
        settings.allowed(),
        store.next_slot < SETTINGS_SLOTS,
        first_blank(page, SETTINGS_SLOTS as int, store.next_slot),
        newest(
            page,
            SETTINGS_SLOTS as int,
            kind,
            match kind {
                RecordKind::Autosave => store.latest,
                RecordKind::Profile(slot) => store.profiles[slot as int],
            },
        ),
        store.successor(kind, settings).sequence < 0x4000_0000,
        store.successor(kind, settings).sequence > 0,
    ensures
        newest(
            programmed(page, store.next_slot as int, encoded(store.successor(kind, settings))),
            SETTINGS_SLOTS as int,
            kind,
            Some(store.successor(kind, settings)),
        ),
{
    let record = store.successor(kind, settings);
    let slot = store.next_slot as int;
    let bytes = encoded(record);
    let after = programmed(page, slot, bytes);
    let held = match kind {
        RecordKind::Autosave => store.latest,
        RecordKind::Profile(slot) => store.profiles[slot as int],
    };
    crate::record::stored_records_read_back(record, record);
    crate::record::lemma_layout(record);
    assert(bytes[3] != 0xff || bytes[2] != 0xff || bytes[1] != 0xff || bytes[0] != 0xff);
    lemma_programmed(page, slot, bytes, slot);
    assert(holds(slot_bytes(after, slot), kind));
    assert forall|i: int|
        0 <= i < SETTINGS_SLOTS && holds(#[trigger] slot_bytes(after, i), kind) implies sequence_in(
        slot_bytes(after, i),
    ) <= record.sequence && (i < slot ==> sequence_in(slot_bytes(after, i)) < record.sequence) by {
        lemma_programmed(page, slot, bytes, i);
        if i != slot {
            assert(holds(slot_bytes(page, i), kind));
            match held {
                None => {},
                Some(old) => {
                    let at = choose|at: int|
                        newest_at(page, SETTINGS_SLOTS as int, kind, old, at);
                    assert(sequence_in(slot_bytes(page, i)) <= old.sequence);
                },
            }
        }
    }
    assert(newest_at(after, SETTINGS_SLOTS as int, kind, record, slot));
}

/// Saving one kind leaves what is loaded of every other kind alone.
pub proof fn an_appended_record_hides_no_other_kind(
    page: Seq<u8>,
    slot: int,
    record: SettingsRecord,
    other: RecordKind,
    found: Option<SettingsRecord>,
)
    requires
        page.len() >= SETTINGS_SLOTS * RECORD_SIZE,
        crate::record::storable(record),
        0 <= slot < SETTINGS_SLOTS,
        blank(slot_bytes(page, slot)),
        other != record.kind,
        newest(page, SETTINGS_SLOTS as int, other, found),
    ensures
        newest(programmed(page, slot, encoded(record)), SETTINGS_SLOTS as int, other, found),
{
    let bytes = encoded(record);
    let after = programmed(page, slot, bytes);
    crate::record::stored_records_read_back(record, record);
    crate::record::lemma_layout(record);
    assert forall|i: int| 0 <= i < SETTINGS_SLOTS implies holds(
        #[trigger] slot_bytes(after, i),
        other,
    ) == holds(slot_bytes(page, i), other) && (i != slot ==> slot_bytes(after, i) == slot_bytes(
        page,
        i,
    )) by {
        lemma_programmed(page, slot, bytes, i);
    }
    match found {
        None => {},
        Some(old) => {
            let at = choose|at: int| newest_at(page, SETTINGS_SLOTS as int, other, old, at);
            assert(newest_at(after, SETTINGS_SLOTS as int, other, old, at));
        },
    }
}

/// The kind of record that a source holds.
pub open spec fn source_kind(source: int) -> RecordKind {
    if source == 0 {
        RecordKind::Autosave
    } else {
        RecordKind::Profile((source - 1) as u8)
    }
}

/// True of a store whose records can be written and stand in their places.
pub open spec fn refillable(store: SettingsStore) -> bool {
    forall|source: int|
        0 <= source < 4 ==> (#[trigger] store.source(source) matches Some(record)
            ==> crate::record::storable(record) && record.kind == source_kind(source))
}

/// An erased page.
pub open spec fn erased_page() -> Seq<u8> {
    Seq::new(FLASH_PAGE_SIZE as nat, |i: int| 0xffu8)
}

/// `page` refilled with the newest records of the sources from `from` on, the
/// first of them in slot `slot`.
pub open spec fn refilled(store: SettingsStore, page: Seq<u8>, from: int, slot: int) -> Seq<u8>
    decreases 4 - from,
{
    if from >= 4 {
        page
    } else {
        match store.source(from) {
            Some(record) => refilled(
                store,
                programmed(page, slot, encoded(record)),
                from + 1,
                slot + 1,
            ),
            None => refilled(store, page, from + 1, slot),
        }
    }
}

proof fn lemma_refilled(store: SettingsStore, page: Seq<u8>, from: int, slot: int, source: int)
    requires
        refillable(store),
        page.len() >= SETTINGS_SLOTS * RECORD_SIZE,
        0 <= slot <= from <= 4,
        0 <= source < 4,
        forall|i: int| slot <= i < SETTINGS_SLOTS ==> blank(#[trigger] slot_bytes(page, i)),
        forall|j: int|
            0 <= j < 4 ==> newest(
                page,
                SETTINGS_SLOTS as int,
                #[trigger] source_kind(j),
                if j < from {
                    store.source(j)
                } else {
                    None
                },
            ),
    ensures
        newest(
            refilled(store, page, from, slot),
            SETTINGS_SLOTS as int,
            source_kind(source),
            store.source(source),
        ),
    decreases 4 - from,
{
    if from < 4 {
        match store.source(from) {
            None => {
                assert(newest(page, SETTINGS_SLOTS as int, source_kind(from), None));
                lemma_refilled(store, page, from + 1, slot, source);
            },
            Some(record) => {
                let bytes = encoded(record);
                let after = programmed(page, slot, bytes);
                crate::record::stored_records_read_back(record, record);
                crate::record::lemma_layout(record);
                assert(source_kind(from) == record.kind);
                assert(newest(page, SETTINGS_SLOTS as int, source_kind(from), None));
                assert(blank(slot_bytes(page, slot)));
                assert forall|i: int| slot + 1 <= i < SETTINGS_SLOTS implies blank(
                    #[trigger] slot_bytes(after, i),
                ) by {
                    lemma_programmed(page, slot, bytes, i);
                    assert(blank(slot_bytes(page, i)));
                }
                assert forall|j: int| 0 <= j < 4 implies newest(
                    after,
                    SETTINGS_SLOTS as int,
                    #[trigger] source_kind(j),
                    if j < from + 1 {
                        store.source(j)
                    } else {
                        None
                    },
                ) by {
                    if j == from {
                        lemma_programmed(page, slot, bytes, slot);
                        assert forall|i: int|
                            0 <= i < SETTINGS_SLOTS && holds(
                                #[trigger] slot_bytes(after, i),
                                record.kind,
                            ) implies i == slot by {
                            lemma_programmed(page, slot, bytes, i);
                            assert(!holds(slot_bytes(page, i), record.kind));
                        }
                        assert(newest_at(
                            after,
                            SETTINGS_SLOTS as int,
                            record.kind,
                            record,
                            slot,
                        ));
                    } else {
                        assert(source_kind(j) != record.kind);
                        an_appended_record_hides_no_other_kind(
                            page,
                            slot,
                            record,
                            source_kind(j),
                            if j < from {
                                store.source(j)
                            } else {
                                None
                            },
                        );
                    }
                }
                assert(after.len() == page.len());
                lemma_refilled(store, after, from + 1, slot + 1, source);
            },
        }
    }
}

/// Compacting the journal loses nothing: what is loaded from the refilled page
/// is the newest record of each kind, as before.
pub proof fn compaction_keeps_every_newest_record(store: SettingsStore, source: int)
    requires
        refillable(store),
        0 <= source < 4,
    ensures
        newest(
            refilled(store, erased_page(), 0, 0),
            SETTINGS_SLOTS as int,
            source_kind(source),
            store.source(source),
        ),
{
    let page = erased_page();
    assert forall|i: int| 0 <= i < SETTINGS_SLOTS implies blank(#[trigger] slot_bytes(page, i)) by {
        assert forall|k: int| 0 <= k < slot_bytes(page, i).len() implies #[trigger] slot_bytes(
            page,
            i,
        )[k] == 0xff by {}
    }
    lemma_refilled(store, page, 0, 0, source);
}

} // verus!
