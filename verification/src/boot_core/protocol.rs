//! Sectioned upload protocol.
//!
//! START/DATA/END with single-byte ACK/NACK replies; START carries one section
//! byte. A command is answered at once, or after a flash plan was carried out.

use crate::boot_core::flash::{
    applied, erase_pages, erase_plan, erased_pages_are_blank, flash_after, FlashAction, FlashImage,
    PlannedAction, PAGE_SIZE,
};
use crate::boot_core::meta::{rebuild, rebuild_plan, select_plan, select_slot_b};
use crate::boot_shared::crc::{crc32, image_crc};
use crate::boot_shared::image::{
    app_descriptor, app_descriptor_bytes, build_app_descriptor, build_slot_descriptor,
    descriptor_words,
};
use crate::boot_shared::layout::{
    APP_BASE, APP_MAX_SIZE, DESC_ADDR, LAYOUT_VERSION, SLOT_B_BASE, SLOT_B_SIZE, SLOT_MAGIC,
};
use crate::boot_shared::section::{SEC_APP, SEC_SLOT_B};
use crate::little_endian::{
    bytes32, le16, le32, le32_round_trip, to_bytes32, u16_at, u32_at,
};
use vstd::prelude::*;
use vstd::slice::slice_subrange;

verus! {

pub const ACK: u8 = 0x06;

pub const NACK: u8 = 0x15;

pub const CMD_START: u8 = 0x01;

pub const CMD_DATA: u8 = 0x02;

pub const CMD_END: u8 = 0x03;

/// Reboot the device: ACK, then system reset - the trampoline re-decides and a
/// freshly committed app launches.
pub const CMD_BOOT: u8 = 0x04;

pub const CMD_INFO: u8 = 0x10;

/// The most payload that one DATA command carries.
pub const MAX_CHUNK: usize = 60;

/// The smallest image: its vector table.
pub const MIN_IMAGE: usize = 192;

/// The length of a slot descriptor, in the last bytes of its slot.
pub const SLOT_DESC_SIZE: u32 = 16;

/// An upload in progress.
#[derive(Clone, Copy, Debug, PartialEq, Eq, Structural)]
pub struct UploadState {
    pub active: bool,
    pub section: u8,
    pub base: u32,
    pub written: usize,
    pub total: usize,
}

/// Section geometry: base address and the most image bytes. The descriptor
/// region is left out; END programs it last as the commit step.
pub open spec fn section_geometry(section: u8) -> Option<(u32, usize)> {
    if section == SEC_APP {
        Some((APP_BASE, APP_MAX_SIZE as usize))
    } else if section == SEC_SLOT_B {
        Some((SLOT_B_BASE, (SLOT_B_SIZE - SLOT_DESC_SIZE) as usize))
    } else {
        None
    }
}

/// The pages of a whole section, its descriptor with it.
pub open spec fn section_pages(section: u8) -> nat {
    if section == SEC_APP {
        52
    } else {
        6
    }
}

impl UploadState {
    /// An active upload knows its section, has not run over, and has written
    /// whole words unless it is complete.
    pub open spec fn wf(self) -> bool {
        self.active ==> {
            &&& section_geometry(self.section) is Some
            &&& self.base == section_geometry(self.section)->Some_0.0
            &&& MIN_IMAGE <= self.total <= section_geometry(self.section)->Some_0.1
            &&& self.written <= self.total
            &&& self.written % 4 == 0 || self.written == self.total
        }
    }

    /// The upload given up or over.
    pub open spec fn ended(self) -> Self {
        UploadState { active: false, written: 0, ..self }
    }

    pub fn new() -> (state: Self)
        ensures
            state == (UploadState { active: false, section: 0, base: 0, written: 0, total: 0 }),
            state.wf(),
    {
        UploadState { active: false, section: 0, base: 0, written: 0, total: 0 }
    }

    pub fn reset(&mut self)
        ensures
            *final(self) == old(self).ended(),
            final(self).wf(),
    {
        self.active = false;
        self.written = 0;
    }

    pub fn written(&self) -> (written: usize)
        ensures
            written == self.written,
    {
        self.written
    }
}

fn section_bounds(section: u8) -> (bounds: Option<(u32, usize)>)
    ensures
        bounds == section_geometry(section),
{
    if section == SEC_APP {
        Some((APP_BASE, APP_MAX_SIZE as usize))
    } else if section == SEC_SLOT_B {
        Some((SLOT_B_BASE, (SLOT_B_SIZE - SLOT_DESC_SIZE) as usize))
    } else {
        None
    }
}

/// What a plan that was carried out is for.
#[derive(Clone, Copy, Debug, PartialEq, Eq, Structural)]
pub enum Stage {
    /// The section was erased for this upload.
    Erased(UploadState),
    /// This much payload was programmed.
    Programmed(usize),
    /// The application descriptor was programmed.
    AppDescriptor,
    /// The metadata page was rebuilt behind a new application.
    AppMetadata,
    /// The slot descriptor was programmed.
    SlotDescriptor,
    /// The slot was selected.
    SlotSelected,
}

/// How a command goes on.
#[derive(Debug)]
pub enum Verdict {
    /// It is answered.
    Reply(u8),
    /// This plan is carried out first.
    Carry { plan: Vec<PlannedAction>, stage: Stage },
}

/// How a command goes on, as a value.
pub enum VerdictModel {
    Reply(u8),
    Carry { plan: Seq<PlannedAction>, stage: Stage },
}

impl Verdict {
    pub open spec fn model(self) -> VerdictModel {
        match self {
            Verdict::Reply(reply) => VerdictModel::Reply(reply),
            Verdict::Carry { plan, stage } => VerdictModel::Carry { plan: plan@, stage },
        }
    }
}

/// START: five bytes name an image size that fits a known section. The whole
/// section is erased, also where the image is smaller: the descriptor of an
/// older image must not survive.
pub open spec fn start_verdict(body: Seq<u8>) -> VerdictModel {
    if body.len() != 5 {
        VerdictModel::Reply(NACK)
    } else {
        let total = le32(body, 0);
        let section = body[4];
        match section_geometry(section) {
            None => VerdictModel::Reply(NACK),
            Some((base, capacity)) => if MIN_IMAGE <= total <= capacity {
                VerdictModel::Carry {
                    plan: erase_plan(base, section_pages(section)),
                    stage: Stage::Erased(
                        UploadState {
                            active: true,
                            section,
                            base,
                            written: 0,
                            total: total as usize,
                        },
                    ),
                }
            } else {
                VerdictModel::Reply(NACK)
            },
        }
    }
}

/// START <size:u32 LE> <section:u8> - erase the section, stage the transfer.
pub fn cmd_start(body: &[u8]) -> (verdict: Verdict)
    ensures
        verdict.model() == start_verdict(body@),
{
    if body.len() != 5 {
        return Verdict::Reply(NACK);
    }
    let total: u32 = u32_at(body, 0);
    let section: u8 = body[4];
    let (base, capacity) = match section_bounds(section) {
        Some(bounds) => bounds,
        None => {
            return Verdict::Reply(NACK);
        },
    };
    if (total as usize) < MIN_IMAGE || total as usize > capacity {
        return Verdict::Reply(NACK);
    }
    let pages: usize = if section == SEC_APP {
        52
    } else {
        6
    };
    Verdict::Carry {
        plan: erase_pages(base, pages),
        stage: Stage::Erased(
            UploadState { active: true, section, base, written: 0, total: total as usize },
        ),
    }
}

/// Byte `index` of a payload that is filled up with erased bytes.
pub open spec fn padded(payload: Seq<u8>, index: int) -> u8 {
    if 0 <= index < payload.len() {
        payload[index]
    } else {
        0xFF
    }
}

/// Word `index` of a payload that is filled up with erased bytes.
pub open spec fn padded_word(payload: Seq<u8>, index: int) -> u32 {
    le32(
        seq![
            padded(payload, 4 * index),
            padded(payload, 4 * index + 1),
            padded(payload, 4 * index + 2),
            padded(payload, 4 * index + 3),
        ],
        0,
    ) as u32
}

/// The number of words that hold a payload.
pub open spec fn word_count(payload: Seq<u8>) -> nat {
    ((payload.len() + 3) / 4) as nat
}

/// The plan that programs a payload from `address` on, word by word.
pub open spec fn payload_plan(address: u32, payload: Seq<u8>) -> Seq<PlannedAction> {
    Seq::new(
        word_count(payload),
        |index: int|
            PlannedAction {
                action: FlashAction::Program {
                    address: (address + 4 * index) as u32,
                    value: padded_word(payload, index),
                },
                required: true,
            },
    )
}

fn byte_or_erased(bytes: &[u8], index: usize) -> (byte: u8)
    ensures
        byte == padded(bytes@, index as int),
{
    if index < bytes.len() {
        bytes[index]
    } else {
        0xFF
    }
}

fn word_of(bytes: &[u8], index: usize) -> (word: u32)
    requires
        index <= 0xffff,
    ensures
        word == padded_word(bytes@, index as int),
{
    let word: [u8; 4] = [
        byte_or_erased(bytes, 4 * index),
        byte_or_erased(bytes, 4 * index + 1),
        byte_or_erased(bytes, 4 * index + 2),
        byte_or_erased(bytes, 4 * index + 3),
    ];
    assert(word@ =~= seq![
        padded(bytes@, 4 * index),
        padded(bytes@, 4 * index + 1),
        padded(bytes@, 4 * index + 2),
        padded(bytes@, 4 * index + 3),
    ]);
    u32_at(word.as_slice(), 0)
}

fn program_payload(address: u32, payload: &[u8]) -> (plan: Vec<PlannedAction>)
    requires
        payload@.len() <= MAX_CHUNK,
        address <= 0xf000_0000,
    ensures
        plan@ == payload_plan(address, payload@),
{
    let count: usize = (payload.len() + 3) / 4;
    let mut plan: Vec<PlannedAction> = Vec::new();
    let mut index: usize = 0;
    assert(plan@ =~= payload_plan(address, payload@).take(0));
    while index < count
        invariant
            index <= count,
            count == word_count(payload@),
            payload@.len() <= MAX_CHUNK,
            address <= 0xf000_0000,
            plan@ == payload_plan(address, payload@).take(index as int),
        decreases count - index,
    {
        plan.push(
            PlannedAction {
                action: FlashAction::Program {
                    address: address + 4 * index as u32,
                    value: word_of(payload, index),
                },
                required: true,
            },
        );
        index = index + 1;
        assert(plan@ =~= payload_plan(address, payload@).take(index as int));
    }
    assert(plan@ =~= payload_plan(address, payload@));
    plan
}

/// The payload length that a DATA command declares.
pub open spec fn declared_length(body: Seq<u8>) -> int {
    le16(body[0], body[1])
}

/// True of a DATA command whose length is right.
pub open spec fn data_framed(body: Seq<u8>) -> bool {
    &&& body.len() >= 2
    &&& 0 < declared_length(body) <= MAX_CHUNK
    &&& body.len() == declared_length(body) + 2
}

/// True of a chunk that continues an upload: it fits, and only the last one may
/// end in the middle of a word.
pub open spec fn chunk_fits(state: UploadState, length: int) -> bool {
    &&& state.written + length <= state.total
    &&& state.written + length < state.total ==> length % 4 == 0
}

/// DATA: a chunk of an active upload is programmed where the last one ended. A
/// chunk that does not continue the upload ends it.
pub open spec fn data_verdict(state: UploadState, body: Seq<u8>) -> (VerdictModel, UploadState) {
    if !state.active || !data_framed(body) {
        (VerdictModel::Reply(NACK), state)
    } else if !chunk_fits(state, declared_length(body)) {
        (VerdictModel::Reply(NACK), state.ended())
    } else {
        (
            VerdictModel::Carry {
                plan: payload_plan(
                    (state.base + state.written) as u32,
                    body.subrange(2, body.len() as int),
                ),
                stage: Stage::Programmed(declared_length(body) as usize),
            },
            state,
        )
    }
}

/// DATA <len:u16 LE> <bytes> - sequential chunks only, word-aligned except
/// the final chunk.
pub fn cmd_data(state: &mut UploadState, body: &[u8]) -> (verdict: Verdict)
    requires
        old(state).wf(),
    ensures
        final(state).wf(),
        (verdict.model(), *final(state)) == data_verdict(*old(state), body@),
{
    if !state.active || body.len() < 2 {
        return Verdict::Reply(NACK);
    }
    let length: usize = u16_at(body, 0) as usize;
    if length == 0 || length > MAX_CHUNK || body.len() != length + 2 {
        return Verdict::Reply(NACK);
    }
    let payload = slice_subrange(body, 2, length + 2);
    if state.written + length > state.total || (state.written + length < state.total && length % 4
        != 0) {
        state.reset();
        return Verdict::Reply(NACK);
    }
    Verdict::Carry {
        plan: program_payload(state.base + state.written as u32, payload),
        stage: Stage::Programmed(length),
    }
}

/// The plan that programs a descriptor. Words that stay erased are skipped.
pub open spec fn descriptor_plan(address: u32, bytes: Seq<u8>, count: nat) -> Seq<PlannedAction>
    decreases count,
{
    if count == 0 {
        Seq::empty()
    } else {
        let index = count - 1;
        let before = descriptor_plan(address, bytes, index as nat);
        if padded_word(bytes, index) == 0xFFFF_FFFF {
            before
        } else {
            before.push(
                PlannedAction {
                    action: FlashAction::Program {
                        address: (address + 4 * index) as u32,
                        value: padded_word(bytes, index),
                    },
                    required: true,
                },
            )
        }
    }
}

fn program_descriptor(address: u32, bytes: &[u8]) -> (plan: Vec<PlannedAction>)
    requires
        bytes@.len() <= 64,
        address <= 0xf000_0000,
    ensures
        plan@ == descriptor_plan(address, bytes@, word_count(bytes@)),
{
    let count: usize = (bytes.len() + 3) / 4;
    let mut plan: Vec<PlannedAction> = Vec::new();
    let mut index: usize = 0;
    while index < count
        invariant
            index <= count <= 16,
            count == word_count(bytes@),
            address <= 0xf000_0000,
            plan@ == descriptor_plan(address, bytes@, index as nat),
        decreases count - index,
    {
        let value: u32 = word_of(bytes, index);
        if value != 0xFFFF_FFFF {
            plan.push(
                PlannedAction {
                    action: FlashAction::Program { address: address + 4 * index as u32, value },
                    required: true,
                },
            );
        }
        index = index + 1;
    }
    plan
}

/// The address of the slot-B descriptor.
pub open spec fn slot_descriptor_address() -> u32 {
    (SLOT_B_BASE + SLOT_B_SIZE - SLOT_DESC_SIZE) as u32
}

/// END: a complete upload whose checksum is the expected one is committed by
/// its descriptor. Anything else ends the upload.
pub open spec fn end_verdict(
    state: UploadState,
    body: Seq<u8>,
    image: Seq<u8>,
) -> (VerdictModel, UploadState) {
    if !state.active || body.len() != 4 || state.written != state.total || image_crc(image)
        != le32(body, 0) {
        (VerdictModel::Reply(NACK), state.ended())
    } else if state.section == SEC_APP {
        (
            VerdictModel::Carry {
                plan: descriptor_plan(
                    DESC_ADDR,
                    app_descriptor_bytes(state.written as u32, image_crc(image)),
                    16,
                ),
                stage: Stage::AppDescriptor,
            },
            state,
        )
    } else {
        (
            VerdictModel::Carry {
                plan: descriptor_plan(
                    slot_descriptor_address(),
                    descriptor_words(SLOT_MAGIC, state.written as u32, image_crc(image)),
                    4,
                ),
                stage: Stage::SlotDescriptor,
            },
            state,
        )
    }
}

/// END <crc:u32 LE> - verify the section CRC, and program the descriptor last
/// as the commit step. `image` is what the flash holds of the upload.
pub fn cmd_end(state: &mut UploadState, body: &[u8], image: &[u8]) -> (verdict: Verdict)
    requires
        old(state).wf(),
        image@.len() == old(state).written,
    ensures
        final(state).wf(),
        (verdict.model(), *final(state)) == end_verdict(*old(state), body@, image@),
{
    if !state.active || body.len() != 4 || state.written != state.total {
        state.reset();
        return Verdict::Reply(NACK);
    }
    let expected: u32 = u32_at(body, 0);
    let computed: u32 = crc32(image);
    if computed != expected {
        state.reset();
        return Verdict::Reply(NACK);
    }
    let size: u32 = state.written as u32;
    if state.section == SEC_APP {
        let descriptor = build_app_descriptor(size, expected);
        let plan = program_descriptor(DESC_ADDR, descriptor.as_slice());
        return Verdict::Carry { plan, stage: Stage::AppDescriptor };
    }
    let descriptor = build_slot_descriptor(size, expected);
    let plan = program_descriptor(
        SLOT_B_BASE + SLOT_B_SIZE - SLOT_DESC_SIZE,
        descriptor.as_slice(),
    );
    Verdict::Carry { plan, stage: Stage::SlotDescriptor }
}

/// True of a stage that belongs to an upload.
pub open spec fn stage_fits(state: UploadState, stage: Stage) -> bool {
    match stage {
        Stage::Erased(staged) => staged.wf(),
        Stage::Programmed(length) => state.active && length <= MAX_CHUNK && chunk_fits(
            state,
            length as int,
        ),
        _ => true,
    }
}

/// What follows a plan that was carried out. A fresh application resets the
/// boot records and clears any updater request, and a failure of that does not
/// fail the upload: image and descriptor are committed. A slot is selected only
/// once its descriptor stands.
pub open spec fn stage_verdict(
    state: UploadState,
    stage: Stage,
    well: bool,
    slot_flag: u32,
) -> (VerdictModel, UploadState) {
    match stage {
        Stage::Erased(staged) => if well {
            (VerdictModel::Reply(ACK), staged)
        } else {
            (VerdictModel::Reply(NACK), state)
        },
        Stage::Programmed(length) => if well {
            (
                VerdictModel::Reply(ACK),
                UploadState { written: (state.written + length) as usize, ..state },
            )
        } else {
            (VerdictModel::Reply(NACK), state.ended())
        },
        Stage::AppDescriptor => if well {
            (
                VerdictModel::Carry { plan: rebuild_plan(slot_flag), stage: Stage::AppMetadata },
                state,
            )
        } else {
            (VerdictModel::Reply(NACK), state.ended())
        },
        Stage::AppMetadata => (VerdictModel::Reply(ACK), state.ended()),
        Stage::SlotDescriptor => if well {
            (
                VerdictModel::Carry { plan: select_plan(slot_flag), stage: Stage::SlotSelected },
                state,
            )
        } else {
            (VerdictModel::Reply(NACK), state.ended())
        },
        Stage::SlotSelected => (
            VerdictModel::Reply(
                if well {
                    ACK
                } else {
                    NACK
                },
            ),
            state.ended(),
        ),
    }
}

/// Goes on after a plan was carried out. `slot_flag` is the slot flag of the
/// metadata page.
pub fn carried(state: &mut UploadState, stage: Stage, well: bool, slot_flag: u32) -> (verdict:
    Verdict)
    requires
        old(state).wf(),
        stage_fits(*old(state), stage),
    ensures
        final(state).wf(),
        (verdict.model(), *final(state)) == stage_verdict(*old(state), stage, well, slot_flag),
{
    match stage {
        Stage::Erased(staged) => {
            if !well {
                return Verdict::Reply(NACK);
            }
            *state = staged;
            Verdict::Reply(ACK)
        },
        Stage::Programmed(length) => {
            if !well {
                state.reset();
                return Verdict::Reply(NACK);
            }
            state.written = state.written + length;
            Verdict::Reply(ACK)
        },
        Stage::AppDescriptor => {
            if !well {
                state.reset();
                return Verdict::Reply(NACK);
            }
            Verdict::Carry { plan: rebuild(slot_flag), stage: Stage::AppMetadata }
        },
        Stage::AppMetadata => {
            state.reset();
            Verdict::Reply(ACK)
        },
        Stage::SlotDescriptor => {
            if !well {
                state.reset();
                return Verdict::Reply(NACK);
            }
            Verdict::Carry { plan: select_slot_b(slot_flag), stage: Stage::SlotSelected }
        },
        Stage::SlotSelected => {
            state.reset();
            if well {
                Verdict::Reply(ACK)
            } else {
                Verdict::Reply(NACK)
            }
        },
    }
}

/// The identity of a core: "BV2C", the layout version and the largest
/// application.
pub open spec fn identity() -> Seq<u8> {
    seq![0x42u8, 0x56u8, 0x32u8, 0x43u8] + bytes32(LAYOUT_VERSION) + bytes32(APP_MAX_SIZE)
}

/// INFO - reply with identity: "BV2C" + layout version + section caps.
pub fn cmd_info() -> (reply: [u8; 12])
    ensures
        reply@ == identity(),
{
    let layout: [u8; 4] = to_bytes32(LAYOUT_VERSION);
    let size: [u8; 4] = to_bytes32(APP_MAX_SIZE);
    let reply: [u8; 12] = [
        0x42,
        0x56,
        0x32,
        0x43,
        layout[0],
        layout[1],
        layout[2],
        layout[3],
        size[0],
        size[1],
        size[2],
        size[3],
    ];
    assert(reply@ =~= identity());
    reply
}

/// What a command packet leads to. Without `allow_core` only the application
/// section can be started.
pub open spec fn dispatch_verdict(
    state: UploadState,
    command: u8,
    body: Seq<u8>,
    allow_core: bool,
    image: Seq<u8>,
) -> (VerdictModel, UploadState) {
    if command == CMD_START {
        if !allow_core && !(body.len() > 4 && body[4] == SEC_APP) {
            (VerdictModel::Reply(NACK), state)
        } else {
            (start_verdict(body), state)
        }
    } else if command == CMD_DATA {
        data_verdict(state, body)
    } else if command == CMD_END {
        end_verdict(state, body, image)
    } else if command == CMD_INFO {
        (VerdictModel::Reply(ACK), state)
    } else {
        (VerdictModel::Reply(NACK), state)
    }
}

/// Dispatch one command packet (body excludes the command byte).
/// `allow_core` gates the slot-B section behind the physical interlock;
/// `image` is what the flash holds of the upload.
pub fn dispatch(
    state: &mut UploadState,
    command: u8,
    body: &[u8],
    allow_core: bool,
    image: &[u8],
) -> (verdict: Verdict)
    requires
        old(state).wf(),
        image@.len() == old(state).written,
    ensures
        final(state).wf(),
        (verdict.model(), *final(state)) == dispatch_verdict(
            *old(state),
            command,
            body@,
            allow_core,
            image@,
        ),
{
    match command {
        CMD_START => {
            if !allow_core && !(body.len() > 4 && body[4] == SEC_APP) {
                Verdict::Reply(NACK)
            } else {
                cmd_start(body)
            }
        },
        CMD_DATA => cmd_data(state, body),
        CMD_END => cmd_end(state, body, image),
        CMD_INFO => Verdict::Reply(ACK),
        _ => Verdict::Reply(NACK),
    }
}

/// What dispatch hands out to be carried out is something that can be carried
/// on with.
pub proof fn handed_out_stages_fit(
    state: UploadState,
    command: u8,
    body: Seq<u8>,
    allow_core: bool,
    image: Seq<u8>,
)
    requires
        state.wf(),
    ensures
        dispatch_verdict(state, command, body, allow_core, image).0 matches VerdictModel::Carry {
            plan,
            stage,
        } ==> stage_fits(dispatch_verdict(state, command, body, allow_core, image).1, stage),
{
}

/// The addresses that an operation touches lie in `[low, high)`.
pub open spec fn action_within(action: FlashAction, low: int, high: int) -> bool {
    match action {
        FlashAction::Erase { address } => low <= address && address + PAGE_SIZE <= high,
        FlashAction::Program { address, value } => low <= address && address + 4 <= high,
    }
}

/// The end of a section, its descriptor with it.
pub open spec fn section_end(section: u8) -> int {
    section_geometry(section)->Some_0.0 + section_pages(section) * PAGE_SIZE
}

/// START erases its section to the end, and nothing else.
pub proof fn starting_stays_in_its_section(body: Seq<u8>, index: int)
    requires
        start_verdict(body) is Carry,
        0 <= index < start_verdict(body)->plan.len(),
    ensures
        action_within(
            start_verdict(body)->plan[index].action,
            section_geometry(body[4])->Some_0.0 as int,
            section_end(body[4]),
        ),
{
}

/// DATA programs whole words inside its section, and never reaches the
/// descriptor.
pub proof fn data_stays_in_its_section(state: UploadState, body: Seq<u8>, index: int)
    requires
        state.wf(),
        data_verdict(state, body).0 is Carry,
        0 <= index < data_verdict(state, body).0->plan.len(),
    ensures
        action_within(
            data_verdict(state, body).0->plan[index].action,
            state.base as int,
            state.base + section_geometry(state.section)->Some_0.1,
        ),
        data_verdict(state, body).0->plan[index].action->Program_address % 4 == 0,
{
}

/// Without the interlock no command erases or programs below the application.
pub proof fn cores_are_out_of_reach(
    state: UploadState,
    command: u8,
    body: Seq<u8>,
    image: Seq<u8>,
    index: int,
)
    requires
        state.wf(),
        state.active ==> state.section == SEC_APP,
        ({
            let (verdict, after) = dispatch_verdict(state, command, body, false, image);
            verdict is Carry && 0 <= index < verdict->plan.len()
        }),
    ensures
        ({
            let (verdict, after) = dispatch_verdict(state, command, body, false, image);
            &&& action_within(verdict->plan[index].action, APP_BASE as int, section_end(SEC_APP))
            &&& verdict->stage matches Stage::Erased(staged) ==> staged.section == SEC_APP
            &&& after.active ==> after.section == SEC_APP
        }),
{
    if command == CMD_START {
        starting_stays_in_its_section(body, index);
    } else if command == CMD_DATA {
        data_stays_in_its_section(state, body, index);
    } else {
        lemma_descriptor_plan_within(
            DESC_ADDR,
            app_descriptor_bytes(state.written as u32, image_crc(image)),
            16,
            index,
        );
    }
}

proof fn lemma_descriptor_plan_within(address: u32, bytes: Seq<u8>, count: nat, index: int)
    requires
        count <= 16,
        address <= 0xf000_0000,
        0 <= index < descriptor_plan(address, bytes, count).len(),
    ensures
        action_within(
            descriptor_plan(address, bytes, count)[index].action,
            address as int,
            address + 4 * count,
        ),
    decreases count,
{
    if count > 0 {
        let before = descriptor_plan(address, bytes, (count - 1) as nat);
        if index < before.len() {
            lemma_descriptor_plan_within(address, bytes, (count - 1) as nat, index);
        }
    }
}

proof fn lemma_padded_bytes(payload: Seq<u8>, index: int, within: int)
    requires
        0 <= within < 4,
    ensures
        bytes32(padded_word(payload, index))[within] == padded(payload, 4 * index + within),
{
    le32_round_trip(
        padded(payload, 4 * index),
        padded(payload, 4 * index + 1),
        padded(payload, 4 * index + 2),
        padded(payload, 4 * index + 3),
    );
}

/// A chunk lands in the flash byte for byte; behind a payload that ends in the
/// middle of a word the rest of the word is left erased, and nothing else
/// changes.
pub proof fn a_payload_lands_in_place(
    flash: FlashImage,
    address: u32,
    payload: Seq<u8>,
    count: nat,
    at: int,
)
    requires
        payload.len() <= MAX_CHUNK,
        address <= 0xf000_0000,
        count <= word_count(payload),
    ensures
        flash_after(flash, payload_plan(address, payload), count)(at) == (if address <= at < address
            + 4 * count {
            padded(payload, at - address)
        } else {
            flash(at)
        }),
    decreases count,
{
    if count > 0 {
        a_payload_lands_in_place(flash, address, payload, (count - 1) as nat, at);
        let start = address + 4 * (count - 1);
        if start <= at < start + 4 {
            lemma_padded_bytes(payload, count - 1, at - start);
        }
    }
}

/// A descriptor lands on erased flash byte for byte, although its erased words
/// are skipped.
pub proof fn a_descriptor_lands_in_place(
    flash: FlashImage,
    address: u32,
    bytes: Seq<u8>,
    count: nat,
    at: int,
)
    requires
        count <= 16,
        address <= 0xf000_0000,
        forall|i: int| address <= i < address + 4 * count ==> #[trigger] flash(i) == 0xFF,
    ensures
        ({
            let plan = descriptor_plan(address, bytes, count);
            flash_after(flash, plan, plan.len())(at) == (if address <= at < address + 4 * count {
                padded(bytes, at - address)
            } else {
                flash(at)
            })
        }),
    decreases count,
{
    if count > 0 {
        let index = count - 1;
        let start = address + 4 * index;
        let before = descriptor_plan(address, bytes, index as nat);
        let plan = descriptor_plan(address, bytes, count);
        a_descriptor_lands_in_place(flash, address, bytes, index as nat, at);
        if start <= at < start + 4 {
            lemma_padded_bytes(bytes, index, at - start);
            assert(flash(at) == 0xFF);
        }
        if padded_word(bytes, index) == 0xFFFF_FFFF {
            assert(plan == before);
            if start <= at < start + 4 {
                assert(bytes32(0xFFFF_FFFFu32)[at - start] == 0xFF);
            }
        } else {
            lemma_prefix_flash(flash, before, plan, before.len());
            assert(plan.len() == before.len() + 1);
            assert(flash_after(flash, plan, plan.len()) == applied(
                flash_after(flash, plan, before.len()),
                plan[before.len() as int].action,
            ));
        }
    }
}

proof fn lemma_prefix_flash(
    flash: FlashImage,
    short: Seq<PlannedAction>,
    long: Seq<PlannedAction>,
    count: nat,
)
    requires
        count <= short.len() <= long.len(),
        forall|i: int| 0 <= i < short.len() ==> short[i] == long[i],
    ensures
        flash_after(flash, short, count) == flash_after(flash, long, count),
    decreases count,
{
    if count > 0 {
        lemma_prefix_flash(flash, short, long, (count - 1) as nat);
    }
}

/// What the flash holds from `base` on.
pub open spec fn region(flash: FlashImage, base: int, length: nat) -> Seq<u8> {
    Seq::new(length, |i: int| flash(base + i))
}

/// An upload grows chunk by chunk: where the flash held what was sent so far, it
/// holds that and the new chunk once the chunk is programmed.
pub proof fn an_upload_grows_by_its_chunks(
    flash: FlashImage,
    state: UploadState,
    body: Seq<u8>,
    sent: Seq<u8>,
)
    requires
        state.wf(),
        data_verdict(state, body).0 is Carry,
        region(flash, state.base as int, state.written as nat) == sent,
    ensures
        ({
            let plan = data_verdict(state, body).0->plan;
            let after = flash_after(flash, plan, plan.len());
            let payload = body.subrange(2, body.len() as int);
            region(after, state.base as int, state.written as nat + payload.len()) == sent
                + payload
        }),
{
    let plan = data_verdict(state, body).0->plan;
    let after = flash_after(flash, plan, plan.len());
    let payload = body.subrange(2, body.len() as int);
    let address = (state.base + state.written) as u32;
    let all = region(after, state.base as int, state.written as nat + payload.len());
    assert forall|i: int| 0 <= i < all.len() implies #[trigger] all[i] == (sent + payload)[i] by {
        a_payload_lands_in_place(flash, address, payload, plan.len(), state.base + i);
        if i < state.written {
            assert(region(flash, state.base as int, state.written as nat)[i] == sent[i]);
        }
    }
    assert(all =~= sent + payload);
}

/// The descriptor region of the application, as it stands in the flash.
pub open spec fn descriptor_region(flash: FlashImage) -> Seq<u8> {
    Seq::new(64, |i: int| flash(DESC_ADDR + i))
}

/// From its START on an application upload cannot boot: the section is erased
/// to the end, the descriptor with it, and only END programs a descriptor.
pub proof fn an_unfinished_upload_never_boots(flash: FlashImage, body: Seq<u8>)
    requires
        start_verdict(body) is Carry,
        body[4] == SEC_APP,
    ensures
        ({
            let plan = start_verdict(body)->plan;
            let after = flash_after(flash, plan, plan.len());
            &&& descriptor_region(after) == Seq::new(64, |i: int| 0xFFu8)
            &&& app_descriptor(descriptor_region(after)) is None
        }),
{
    let plan = start_verdict(body)->plan;
    let after = flash_after(flash, plan, plan.len());
    assert forall|i: int| 0 <= i < 64 implies #[trigger] descriptor_region(after)[i] == 0xFF by {
        erased_pages_are_blank(flash, APP_BASE, 52, 52, DESC_ADDR + i);
    }
    assert(descriptor_region(after) =~= Seq::new(64, |i: int| 0xFFu8));
}

/// A committed application is described as it was uploaded: its size, and the
/// checksum of what the flash holds.
pub proof fn a_committed_upload_is_described(
    flash: FlashImage,
    state: UploadState,
    body: Seq<u8>,
    image: Seq<u8>,
)
    requires
        state.wf(),
        state.section == SEC_APP,
        end_verdict(state, body, image).0 is Carry,
        descriptor_region(flash) == Seq::new(64, |i: int| 0xFFu8),
    ensures
        ({
            let plan = end_verdict(state, body, image).0->plan;
            let after = flash_after(flash, plan, plan.len());
            app_descriptor(descriptor_region(after)) matches Some(found) && found.size
                == state.written && found.crc == image_crc(image)
        }),
{
    let plan = end_verdict(state, body, image).0->plan;
    let after = flash_after(flash, plan, plan.len());
    let bytes = app_descriptor_bytes(state.written as u32, image_crc(image));
    assert forall|i: int| DESC_ADDR <= i < DESC_ADDR + 64 implies #[trigger] flash(i) == 0xFF by {
        assert(descriptor_region(flash)[i - DESC_ADDR] == 0xFF);
    }
    assert forall|i: int| 0 <= i < 64 implies #[trigger] descriptor_region(after)[i] == bytes[i] by {
        a_descriptor_lands_in_place(flash, DESC_ADDR, bytes, 16, DESC_ADDR + i);
    }
    assert(descriptor_region(after) =~= bytes);
    crate::boot_shared::image::app_descriptor_round_trip(
        state.written as u32,
        image_crc(image),
    );
}

} // verus!
