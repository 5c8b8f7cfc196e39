//! Flash plans, boot metadata, uploads and the decisions of a boot core.

use benchvolt_poc::boot_core::flash::{
    erase_page, erase_pages, next_action, program_half_words, program_word, range_is_blank,
    FlashAction, FlashReply, FlashStep, PlanNext, PlannedAction,
};
use benchvolt_poc::boot_core::launch::{
    app_valid, entry_address, launch_app, RegisterStep, APP_PARTITION_SIZE, DESC_OFFSET,
};
use benchvolt_poc::boot_core::meta::{
    attempt_action, claim_after_rebuild, claim_attempt, layout_word, rebuild, request_word, scan_records,
    select_slot_b, slot_flag, Claim,
};
use benchvolt_poc::boot_core::protocol::{
    carried, cmd_info, cmd_start, dispatch, Stage, UploadState, Verdict, ACK, CMD_BOOT, CMD_DATA,
    CMD_END, CMD_INFO, CMD_START, NACK,
};
use benchvolt_poc::boot_core::service::{
    boot_core_entry, handle_packet, interlock_held, CoreEntry, PacketAction,
};
use benchvolt_poc::boot_shared::crc::crc32;
use benchvolt_poc::boot_shared::image::{build_app_descriptor, parse_app_descriptor};
use benchvolt_poc::boot_shared::layout::{
    APP_BASE, APP_MAX_SIZE, DESC_ADDR, LAYOUT_VERSION, METADATA_ADDR, SLOT_B_BASE,
};
use benchvolt_poc::boot_shared::metadata::{
    RecordScan, ATTEMPT_WORD, ERASED, HEALTH_WORD, SLOT_B_MARK, WORDS,
};

/// Flash contents from the working core's slot to the end of the metadata.
struct Flash {
    bytes: Vec<u8>,
}

const FLASH_START: u32 = SLOT_B_BASE;

impl Flash {
    fn new() -> Self {
        Flash { bytes: vec![0xa5; (0x0802_0000 - FLASH_START) as usize] }
    }

    fn at(&self, address: u32, len: usize) -> &[u8] {
        let start = (address - FLASH_START) as usize;
        &self.bytes[start..start + len]
    }

    fn apply(&mut self, action: FlashAction) {
        match action {
            FlashAction::Erase { address } => {
                let start = (address - FLASH_START) as usize;
                self.bytes[start..start + 2_048].fill(0xff);
            }
            FlashAction::Program { address, value } => {
                let start = (address - FLASH_START) as usize;
                self.bytes[start..start + 4].copy_from_slice(&value.to_le_bytes());
            }
        }
    }

    fn carry(&mut self, plan: &Vec<PlannedAction>) -> bool {
        let mut outcomes = Vec::new();
        loop {
            match next_action(plan, &outcomes) {
                PlanNext::Run(action) => {
                    self.apply(action);
                    outcomes.push(true);
                }
                PlanNext::Finished(well) => return well,
            }
        }
    }

    fn page(&self) -> Vec<u32> {
        self.at(METADATA_ADDR, 2_048)
            .chunks(4)
            .map(|word| u32::from_le_bytes([word[0], word[1], word[2], word[3]]))
            .collect()
    }
}

fn command(flash: &mut Flash, state: &mut UploadState, command: u8, body: &[u8], allow: bool) -> u8 {
    let image = if state.active {
        flash.at(state.base, state.written).to_vec()
    } else {
        vec![0; state.written]
    };
    let mut verdict = dispatch(state, command, body, allow, &image);
    loop {
        match verdict {
            Verdict::Reply(reply) => return reply,
            Verdict::Carry { plan, stage } => {
                let well = flash.carry(&plan);
                let flag = slot_flag(&flash.page());
                verdict = carried(state, stage, well, flag);
            }
        }
    }
}

fn upload(flash: &mut Flash, state: &mut UploadState, section: u8, image: &[u8], crc: u32) -> u8 {
    let mut start = (image.len() as u32).to_le_bytes().to_vec();
    start.push(section);
    assert_eq!(command(flash, state, CMD_START, &start, true), ACK);
    for chunk in image.chunks(60) {
        let mut body = (chunk.len() as u16).to_le_bytes().to_vec();
        body.extend_from_slice(chunk);
        assert_eq!(command(flash, state, CMD_DATA, &body, true), ACK);
    }
    command(flash, state, CMD_END, &crc.to_le_bytes(), true)
}

fn image(len: usize) -> Vec<u8> {
    let mut bytes: Vec<u8> = (0..len).map(|index| (index * 7) as u8).collect();
    bytes[..4].copy_from_slice(&0x2000_4000u32.to_le_bytes());
    bytes[4..8].copy_from_slice(&(APP_BASE + 0x41).to_le_bytes());
    bytes
}

#[test]
fn an_application_upload_lands_and_launches() {
    let mut flash = Flash::new();
    let mut state = UploadState::new();
    let image = image(1_001);
    let crc = crc32(&image);
    assert_eq!(upload(&mut flash, &mut state, 0, &image, crc), ACK);
    assert!(!state.active);
    assert_eq!(state.written(), 0);
    assert_eq!(flash.at(APP_BASE, image.len()), &image[..]);
    assert_eq!(flash.at(APP_BASE + 1_001, 3), &[0xff; 3]);
    let mut descriptor = [0; 64];
    descriptor.copy_from_slice(flash.at(DESC_ADDR, 64));
    assert_eq!(descriptor, build_app_descriptor(1_001, crc));
    assert!(app_valid(flash.at(APP_BASE, APP_PARTITION_SIZE)));
    let page = flash.page();
    assert_eq!(layout_word(&page), LAYOUT_VERSION);
    assert_eq!(request_word(&page), ERASED);
    assert_eq!(scan_records(&page), RecordScan::Empty);
}

#[test]
fn a_wrong_checksum_commits_nothing() {
    let mut flash = Flash::new();
    let mut state = UploadState::new();
    let image = image(256);
    let crc = crc32(&image);
    assert_eq!(upload(&mut flash, &mut state, 0, &image, crc ^ 1), NACK);
    assert!(!state.active);
    let mut descriptor = [0; 64];
    descriptor.copy_from_slice(flash.at(DESC_ADDR, 64));
    assert_eq!(parse_app_descriptor(&descriptor), None);
    assert!(!app_valid(flash.at(APP_BASE, APP_PARTITION_SIZE)));
}

#[test]
fn a_core_upload_selects_slot_b() {
    let mut flash = Flash::new();
    let mut state = UploadState::new();
    let image = image(0x3000 - 16);
    let crc = crc32(&image);
    assert_eq!(upload(&mut flash, &mut state, 1, &image, crc), ACK);
    let page = flash.page();
    assert_eq!(slot_flag(&page), SLOT_B_MARK);
    assert_eq!(layout_word(&page), LAYOUT_VERSION);
}

#[test]
fn starts_outside_the_sections_are_refused() {
    let reply = |body: &[u8]| matches!(cmd_start(body), Verdict::Reply(NACK));
    assert!(reply(&[0, 1, 0, 0]));
    assert!(reply(&[191, 0, 0, 0, 0]));
    assert!(!reply(&[192, 0, 0, 0, 0]));
    assert!(reply(&[192, 0, 0, 0, 2]));
    let over = (APP_MAX_SIZE + 1).to_le_bytes();
    assert!(reply(&[over[0], over[1], over[2], over[3], 0]));
    let mut flash = Flash::new();
    let mut state = UploadState::new();
    assert_eq!(command(&mut flash, &mut state, CMD_START, &[0, 1, 0, 0, 1], false), NACK);
    assert_eq!(command(&mut flash, &mut state, CMD_START, &[0, 1, 0, 0, 0], false), ACK);
    assert!(state.active);
}

#[test]
fn chunks_must_follow_each_other() {
    let mut flash = Flash::new();
    let mut state = UploadState::new();
    assert_eq!(command(&mut flash, &mut state, CMD_DATA, &[4, 0, 1, 2, 3, 4], true), NACK);
    assert_eq!(command(&mut flash, &mut state, CMD_START, &[0, 1, 0, 0, 0], true), ACK);
    assert_eq!(command(&mut flash, &mut state, CMD_DATA, &[0, 0], true), NACK);
    assert_eq!(command(&mut flash, &mut state, CMD_DATA, &[4, 0, 1, 2, 3], true), NACK);
    assert_eq!(command(&mut flash, &mut state, CMD_DATA, &[4, 0, 1, 2, 3, 4], true), ACK);
    assert_eq!(state.written(), 4);
    assert_eq!(command(&mut flash, &mut state, CMD_DATA, &[3, 0, 1, 2, 3], true), NACK);
    assert!(!state.active);
    assert_eq!(command(&mut flash, &mut state, CMD_END, &[0; 4], true), NACK);
}

#[test]
fn a_failed_erase_or_program_is_refused() {
    let mut state = UploadState::new();
    let stage = match cmd_start(&[0, 1, 0, 0, 0]) {
        Verdict::Carry { plan, stage } => {
            assert_eq!(plan.len(), 52);
            stage
        }
        Verdict::Reply(_) => unreachable!(),
    };
    assert!(matches!(carried(&mut state, stage, false, ERASED), Verdict::Reply(NACK)));
    assert!(!state.active);
    assert!(matches!(carried(&mut state, stage, true, ERASED), Verdict::Reply(ACK)));
    assert!(state.active);
    assert!(matches!(
        carried(&mut state, Stage::Programmed(4), false, ERASED),
        Verdict::Reply(NACK)
    ));
    assert!(!state.active);
    assert!(matches!(
        carried(&mut state, Stage::AppMetadata, false, ERASED),
        Verdict::Reply(ACK)
    ));
    assert!(matches!(
        carried(&mut state, Stage::SlotSelected, false, ERASED),
        Verdict::Reply(NACK)
    ));
}

#[test]
fn identity_names_layout_and_capacity() {
    assert_eq!(&cmd_info(), b"BV2CBV22\xc0\x9f\x01\x00");
}

#[test]
fn packets_reach_their_commands() {
    let mut state = UploadState::new();
    assert!(matches!(handle_packet(&mut state, &[], true, &[]), PacketAction::Ignore));
    assert!(matches!(handle_packet(&mut state, &[CMD_BOOT], true, &[]), PacketAction::Reboot));
    match handle_packet(&mut state, &[CMD_INFO], true, &[]) {
        PacketAction::Identify(bytes) => assert_eq!(bytes, cmd_info()),
        _ => unreachable!(),
    }
    assert!(matches!(
        handle_packet(&mut state, &[0x77, 1], true, &[]),
        PacketAction::Upload(Verdict::Reply(NACK))
    ));
    assert!(matches!(
        handle_packet(&mut state, &[CMD_START, 0, 1, 0, 0, 0], true, &[]),
        PacketAction::Upload(Verdict::Carry { .. })
    ));
}

#[test]
fn entry_needs_a_valid_app_and_no_interlock() {
    let empty = RecordScan::Empty;
    assert_eq!(boot_core_entry(true, ERASED, ERASED, &empty, true, false), CoreEntry::Launch);
    assert_eq!(
        boot_core_entry(true, ERASED, ERASED, &empty, true, true),
        CoreEntry::Update { allow_core: true }
    );
    assert_eq!(
        boot_core_entry(false, ERASED, ERASED, &empty, false, true),
        CoreEntry::Update { allow_core: false }
    );
    assert!(interlock_held(0, 0xffff_bfff));
    assert!(!interlock_held(0, 0x4000));
}

#[test]
fn attempts_are_claimed_until_the_page_is_full() {
    let mut page = vec![ERASED; WORDS];
    assert!(matches!(claim_attempt(&page), Claim::Program(address) if address == METADATA_ADDR + 12));
    page[3] = ATTEMPT_WORD;
    page[4] = HEALTH_WORD;
    assert!(matches!(claim_attempt(&page), Claim::Program(address) if address == METADATA_ADDR + 20));
    assert_eq!(scan_records(&page), RecordScan::Valid { healthy: 1, unhealthy: 0 });
    for word in page.iter_mut().skip(3) {
        *word = ATTEMPT_WORD;
    }
    page[1] = SLOT_B_MARK;
    match claim_attempt(&page) {
        Claim::Rebuild(plan) => assert_eq!(plan, rebuild(SLOT_B_MARK)),
        Claim::Program(_) => unreachable!(),
    }
    assert_eq!(
        attempt_action(METADATA_ADDR + 12),
        FlashAction::Program { address: METADATA_ADDR + 12, value: ATTEMPT_WORD }
    );
}

#[test]
fn selecting_slot_b_frees_a_foreign_flag_first() {
    assert!(select_slot_b(SLOT_B_MARK).is_empty());
    assert_eq!(select_slot_b(ERASED).len(), 1);
    let plan = select_slot_b(0x1234);
    assert_eq!(plan.len(), 3);
    assert_eq!(plan[0].action, FlashAction::Erase { address: METADATA_ADDR });
    assert_eq!(
        plan[2].action,
        FlashAction::Program { address: METADATA_ADDR + 4, value: SLOT_B_MARK }
    );
    assert_eq!(rebuild(ERASED).len(), 2);
    assert_eq!(rebuild(SLOT_B_MARK).len(), 3);
}

#[test]
fn plans_stop_at_required_failures_only() {
    let plan = rebuild(SLOT_B_MARK);
    assert_eq!(next_action(&plan, &vec![false]), PlanNext::Finished(false));
    assert_eq!(next_action(&plan, &vec![true, false]), PlanNext::Run(plan[2].action));
    assert_eq!(next_action(&plan, &vec![true, false, true]), PlanNext::Finished(false));
    assert_eq!(next_action(&plan, &vec![true, true, true]), PlanNext::Finished(true));
    assert_eq!(erase_pages(0x0800_5000, 2)[1].action, FlashAction::Erase { address: 0x0800_5800 });
}

fn steps(
    next: impl Fn(&Vec<FlashReply>) -> FlashStep,
    reply: impl Fn(FlashStep, usize) -> FlashReply,
) -> (Vec<FlashStep>, bool) {
    let mut replies = Vec::new();
    let mut steps = Vec::new();
    loop {
        match next(&replies) {
            FlashStep::Finish(well) => return (steps, well),
            step => {
                steps.push(step);
                replies.push(reply(step, replies.len()));
            }
        }
    }
}

fn willing(step: FlashStep, _: usize) -> FlashReply {
    match step {
        FlashStep::WaitReady => FlashReply::Ready(true),
        FlashStep::ReadStatus => FlashReply::Word(0x20),
        FlashStep::ReadWord { .. } => FlashReply::Word(0xdead_beef),
        FlashStep::CheckBlank { .. } => FlashReply::Blank(true),
        _ => FlashReply::Done,
    }
}

#[test]
fn erasing_clears_its_bit_and_checks_the_page() {
    let erase = |replies: &Vec<FlashReply>| erase_page(0x0801_f000, replies);
    let (done, well) = steps(erase, willing);
    assert!(well);
    assert_eq!(done.len(), 11);
    assert_eq!(done[8], FlashStep::ClearControl(0x02));
    assert_eq!(done[9], FlashStep::SetControl(0x80));
    let (done, well) = steps(erase, |step, count| {
        if count == 6 {
            FlashReply::Ready(false)
        } else {
            willing(step, count)
        }
    });
    assert!(!well);
    assert_eq!(done[7], FlashStep::ClearControl(0x02));
    assert!(!steps(erase, |_, _| FlashReply::Ready(false)).1);
}

#[test]
fn programming_writes_two_halves_and_reads_back() {
    let program = |replies: &Vec<FlashReply>| program_word(0x0801_f004, 0xdead_beef, replies);
    let (done, well) = steps(program, willing);
    assert!(well);
    assert_eq!(done[4], FlashStep::WriteHalfWord { address: 0x0801_f004, value: 0xbeef });
    assert_eq!(done[6], FlashStep::WriteHalfWord { address: 0x0801_f006, value: 0xdead });
    assert_eq!(done.last(), Some(&FlashStep::ReadWord { address: 0x0801_f004 }));
    let (done, well) = steps(program, |step, count| {
        if count == 5 {
            FlashReply::Ready(false)
        } else {
            willing(step, count)
        }
    });
    assert!(!well);
    assert_eq!(done[7], FlashStep::ClearControl(0x01));
    let (_, well) = steps(program, |step, count| match step {
        FlashStep::ReadStatus => FlashReply::Word(0x04),
        _ => willing(step, count),
    });
    assert!(!well);
    let other = |replies: &Vec<FlashReply>| program_word(0x0801_f004, 1, replies);
    assert!(!steps(other, willing).1);
    assert!(range_is_blank(&[0xff, 0xff]));
    assert!(!range_is_blank(&[0xff, 0xfe]));
}

#[test]
fn the_handover_copies_the_vectors() {
    let vectors: Vec<u32> = (0..48).collect();
    let steps = launch_app(&vectors);
    assert_eq!(steps.len(), 9 + 48 + 2);
    assert_eq!(steps[0], RegisterStep::Write { address: 0xE000_E010, value: 0 });
    assert_eq!(steps[9 + 47], RegisterStep::Write { address: 0x2000_00bc, value: 47 });
    assert_eq!(steps[58], RegisterStep::SetBits { address: 0x4001_0000, bits: 3 });
    assert_eq!(entry_address(0x0800_5040), 0x0800_5041);
    assert_eq!(DESC_OFFSET + 64, APP_PARTITION_SIZE);
}

#[test]
fn half_words_stop_at_the_first_failure_and_lock() {
    let writes = [(0x0801_f000, 0x1234), (0x0801_f002, 0x5678)];
    let program = |replies: &Vec<FlashReply>| program_half_words(&writes, replies);
    let (done, well) = steps(program, willing);
    assert!(well);
    assert_eq!(
        done,
        [
            FlashStep::WaitReady,
            FlashStep::Unlock,
            FlashStep::ClearStatus,
            FlashStep::SetControl(1),
            FlashStep::WriteHalfWord { address: 0x0801_f000, value: 0x1234 },
            FlashStep::WaitReady,
            FlashStep::ReadStatus,
            FlashStep::WriteHalfWord { address: 0x0801_f002, value: 0x5678 },
            FlashStep::WaitReady,
            FlashStep::ReadStatus,
            FlashStep::Lock { clear: 1 },
        ]
    );
    for (failing, count) in [(0, 1), (5, 7), (6, 8), (8, 10), (9, 11)] {
        let (done, well) = steps(program, |step, at| match step {
            FlashStep::WaitReady => FlashReply::Ready(at != failing),
            FlashStep::ReadStatus => FlashReply::Word(if at == failing { 0x04 } else { 0x20 }),
            _ => FlashReply::Done,
        });
        assert!(!well);
        assert_eq!(done.len(), count);
        let last = if failing == 0 { FlashStep::WaitReady } else { FlashStep::Lock { clear: 1 } };
        assert_eq!(done.last(), Some(&last));
    }
    let (done, well) = steps(|replies| program_half_words(&[], replies), willing);
    assert!(well);
    assert_eq!(done.len(), 5);
}

#[test]
fn a_page_is_rebuilt_once_at_most() {
    let full = vec![0u32; WORDS];
    let mut fresh = vec![ERASED; WORDS];
    fresh[0] = LAYOUT_VERSION;
    let Claim::Program(address) = claim_attempt(&fresh) else {
        panic!("a fresh page has room");
    };
    assert_eq!(claim_after_rebuild(&fresh, true), Some(address));
    assert_eq!(claim_after_rebuild(&fresh, false), None);
    assert_eq!(claim_after_rebuild(&full, true), None);
    assert_eq!(claim_after_rebuild(&full, false), None);
}
