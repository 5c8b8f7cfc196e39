//! The settings journal, and the bytes of a record.

use benchvolt_poc::app::AppState;
use benchvolt_poc::settings::{
    decode, encode, PersistentSettings, RecordKind, SettingsRecord, RECORD_SIZE,
};
use benchvolt_poc::settings_store::{
    compact_settings_store, load_settings_store, persist_settings, persist_settings_record,
    read_back_matches, record_halfword, slot_programmable, slot_writes, SettingsStore,
    StoreCommand, StoreJob, SETTINGS_SLOTS,
};

fn settings(ch5_voltage_mv: u16) -> PersistentSettings {
    let mut settings = PersistentSettings::from_state(&AppState::new(true, None));
    settings.ch5_voltage_mv = ch5_voltage_mv;
    settings
}

/// Carries out a job on a page; `fail_at` names the command that fails.
fn carry_out(
    page: &mut Vec<u8>,
    store: &mut SettingsStore,
    mut job: StoreJob,
    fail_at: Option<usize>,
) -> bool {
    let mut commands = 0;
    loop {
        let command = match job.command(store) {
            Some(command) => command,
            None => match job {
                StoreJob::Done { saved } => return saved,
                _ => unreachable!(),
            },
        };
        let ok = fail_at != Some(commands);
        if ok {
            match command {
                StoreCommand::ErasePage => page.fill(0xff),
                StoreCommand::Program { slot, bytes, record } => {
                    let start = slot * RECORD_SIZE;
                    page[start..start + RECORD_SIZE].copy_from_slice(&bytes);
                    assert!(read_back_matches(&bytes, &record));
                }
            }
        }
        commands += 1;
        job = job.resume(store, ok);
    }
}

#[test]
fn records_survive_the_journal() {
    let mut page = vec![0xff; 2_048];
    let mut store = load_settings_store(&page);
    assert_eq!(store.next_slot, 0);
    for voltage in [6_000, 7_000] {
        let job = persist_settings(&store, settings(voltage), true);
        assert!(carry_out(&mut page, &mut store, job, None));
    }
    let job = persist_settings_record(&store, RecordKind::Profile(2), settings(8_000), true);
    assert!(carry_out(&mut page, &mut store, job, None));
    let loaded = load_settings_store(&page);
    assert_eq!(loaded.next_slot, 3);
    assert_eq!(loaded.latest.unwrap().settings.ch5_voltage_mv, 7_000);
    assert_eq!(loaded.latest.unwrap().sequence, 2);
    assert_eq!(loaded.profiles[2].unwrap().settings.ch5_voltage_mv, 8_000);
    assert!(loaded.profiles[0].is_none());
}

#[test]
fn nothing_is_written_while_an_output_is_live() {
    let mut page = vec![0xff; 2_048];
    let mut store = load_settings_store(&page);
    let job = persist_settings(&store, settings(6_000), false);
    assert!(!carry_out(&mut page, &mut store, job, None));
    assert!(page.iter().all(|byte| *byte == 0xff));
}

#[test]
fn a_full_journal_is_compacted() {
    let mut page = vec![0xff; 2_048];
    let mut store = load_settings_store(&page);
    let job = persist_settings_record(&store, RecordKind::Profile(0), settings(5_000), true);
    assert!(carry_out(&mut page, &mut store, job, None));
    for index in 0..SETTINGS_SLOTS {
        let job = persist_settings(&store, settings(6_000 + index as u16), true);
        assert!(carry_out(&mut page, &mut store, job, None));
    }
    assert_eq!(store.next_slot, 3);
    let loaded = load_settings_store(&page);
    assert_eq!(loaded.next_slot, 3);
    assert_eq!(loaded.latest.unwrap().settings.ch5_voltage_mv, 6_041);
    assert_eq!(loaded.profiles[0].unwrap().settings.ch5_voltage_mv, 5_000);
}

#[test]
fn failures_are_reported() {
    let mut page = vec![0xff; 2_048];
    let mut store = load_settings_store(&page);
    let job = persist_settings(&store, settings(6_000), true);
    assert!(!carry_out(&mut page, &mut store, job, Some(0)));
    assert!(store.latest.is_none());
    assert!(!carry_out(&mut page, &mut store, compact_settings_store(), Some(0)));
    assert!(carry_out(&mut page, &mut store, compact_settings_store(), None));
    assert_eq!(store.next_slot, 0);
}

#[test]
fn a_changed_byte_is_never_read_back() {
    let record =
        SettingsRecord { sequence: 9, kind: RecordKind::Profile(1), settings: settings(9_000) };
    let bytes = encode(record);
    assert!(decode(&bytes) == Some(record));
    for index in 0..RECORD_SIZE {
        let mut changed = bytes;
        changed[index] ^= 0x10;
        assert!(decode(&changed) != Some(record));
        assert!(!read_back_matches(&changed, &record));
    }
    assert!(read_back_matches(&bytes, &record));
    assert_eq!(record_halfword(&bytes, 1), u16::from_le_bytes([bytes[2], bytes[3]]));
    assert!(slot_programmable(0, &[0xff; RECORD_SIZE]));
    assert!(!slot_programmable(0, &bytes));
    assert!(!slot_programmable(SETTINGS_SLOTS, &[0xff; RECORD_SIZE]));
}

#[test]
fn a_slot_is_programmed_half_word_by_half_word() {
    let bytes: [u8; RECORD_SIZE] = core::array::from_fn(|index| index as u8);
    let writes = slot_writes(2, &bytes);
    assert_eq!(writes.len(), 24);
    assert_eq!(writes[0], (0x0801_f060, 0x0100));
    assert_eq!(writes[23], (0x0801_f08e, 0x2f2e));
    assert_eq!(slot_writes(41, &bytes)[23].0, 0x0801_f7de);
}

#[test]
fn a_sequence_number_that_a_record_cannot_hold_is_never_read_back() {
    let record = |sequence: u32| SettingsRecord {
        sequence,
        kind: RecordKind::Autosave,
        settings: settings(9_000),
    };
    let fits = record(0x3fff_ffff);
    assert!(read_back_matches(&encode(fits), &fits));
    let outgrown = record(0x4000_0000);
    assert!(!read_back_matches(&encode(outgrown), &outgrown));
}
