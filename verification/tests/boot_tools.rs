//! Boot banner, boot seal, flash probe, averages and pictures.

use benchvolt_poc::app::Measurement;
use benchvolt_poc::boot_display::{banner, draw_text, fill, Fill, PanelStep, FG};
use benchvolt_poc::boot_seal::{
    invalidate_boot_metadata, recovery_armed, restore_boot_seal, seal_due, seal_restored, BootSeal,
};
use benchvolt_poc::boot_core::flash::{FlashReply, FlashStep};
use benchvolt_poc::flash_probe::{
    erase_page, expected_pattern, program_word, Probe, ProbeAction, ProbeStep,
};
use benchvolt_poc::framebuffer::{distinct_colors, Framebuffer, RGB_BYTES};
use benchvolt_poc::load::{square_root, LoadAccumulator, MeasurementAccumulator};

#[test]
fn a_line_is_centred_and_drawn_dot_by_dot() {
    let dots = draw_text(b"i", 50);
    assert_eq!(dots.len(), 2 + 7 + 2);
    assert_eq!(dots[0], Fill { x0: 154, y0: 50, x1: 156, y1: 52, color: FG });
    assert_eq!(dots, draw_text(b"I", 50));
    assert!(draw_text(b"?  ", 0).is_empty());
    assert_eq!(draw_text(b"LLLLLLLLLLLLLLLLLL", 0)[0].x0, 0);
}

#[test]
fn a_fill_selects_its_window() {
    let steps = fill(Fill { x0: 0, y0: 1, x1: 319, y1: 2, color: 7 });
    assert_eq!(steps[0], PanelStep::Command(0x2a));
    assert_eq!(steps[3..5], [PanelStep::Data(1), PanelStep::Data(63)]);
    assert_eq!(steps[7], PanelStep::Data(36));
    assert_eq!(steps.last(), Some(&PanelStep::Pixels { color: 7, count: 640 }));
}

#[test]
fn a_banner_wakes_the_panel_first() {
    let steps = banner(b"", b"");
    assert_eq!(steps.len(), 16 + 12);
    assert_eq!(steps[4], PanelStep::Command(0x01));
    assert_eq!(steps[27], PanelStep::Pixels { color: 0, count: 320 * 170 });
    assert_eq!(banner(b"I", b"I").len(), 16 + 12 + 22 * 12);
}

#[test]
fn a_seal_is_withdrawn_and_restored() {
    assert_eq!(invalidate_boot_metadata(u32::MAX, 1_000), (false, None));
    assert_eq!(invalidate_boot_metadata(5, 191), (true, None));
    assert_eq!(invalidate_boot_metadata(5, 0x1_7001), (true, None));
    let seal = BootSeal { crc: 0x1234_5678, size: 0x1_7000 };
    assert_eq!(invalidate_boot_metadata(seal.crc, seal.size), (true, Some(seal)));
    assert_eq!(restore_boot_seal(seal, 0), None);
    assert_eq!(
        restore_boot_seal(seal, u32::MAX),
        Some([
            (0x0801_f804, 0x7000),
            (0x0801_f806, 0x0001),
            (0x0801_f800, 0x5678),
            (0x0801_f802, 0x1234),
        ])
    );
    assert!(seal_restored(seal, seal.crc, seal.size));
    assert!(!seal_restored(seal, seal.crc, 0));
    assert!(recovery_armed(true, 0x20, u32::MAX));
    assert!(!recovery_armed(true, 0x04, u32::MAX));
    assert!(!recovery_armed(true, 0, 5));
    assert!(seal_due(false, 3_000, true));
    assert!(!seal_due(false, 2_999, true));
    assert!(!seal_due(true, 3_000, true));
    assert!(!seal_due(false, 3_000, false));
}

#[test]
fn a_probe_tries_every_step_of_every_word() {
    assert_eq!(expected_pattern(1), 0xffff_fffe);
    assert_eq!(expected_pattern(31), 0x8000_0000);
    assert_eq!(expected_pattern(32), 0);
    let mut probe = Probe::new();
    let mut programs = 0u32;
    loop {
        match probe.next_action() {
            ProbeAction::ErasePage => probe.erased(0),
            ProbeAction::Program { value, .. } => {
                programs += 1;
                probe.programmed(0, 0, value);
            }
            ProbeAction::Finished { pass } => {
                assert!(pass);
                break;
            }
        }
    }
    assert_eq!(programs, 100 * 512 * 32);
    assert_eq!(probe.word_programs, programs);
    assert_eq!(probe.reprograms, 100 * 512 * 31);
    assert_eq!(probe.cycles_done, 100);
}

#[test]
fn a_probe_keeps_its_first_failure() {
    let mut probe = Probe::new();
    assert_eq!(probe.progress(), Some(true));
    probe.erased(4);
    assert_eq!(probe.next_action(), ProbeAction::Finished { pass: false });
    assert_eq!(probe.error.unwrap().kind, 4);
    let mut probe = Probe::new();
    probe.erased(0);
    probe.programmed(0, 0, 7);
    probe.programmed(0, 0, 8);
    let error = probe.error.unwrap();
    assert_eq!((error.kind, error.step, error.expected, error.actual), (3, 1, 0xffff_fffe, 7));
    assert_eq!(probe.mismatches, 2);
    probe.programmed(2, 0x14, 0);
    assert_eq!(probe.error.unwrap().kind, 2);
    assert!(probe.aborted);
    let mut probe = Probe::new();
    probe.erased(0);
    probe.programmed(3, 0x14, 0);
    assert_eq!(probe.error.unwrap().actual, 0x14);
}

fn sample(millivolts: u16, milliamps: u16, valid: bool) -> Measurement {
    Measurement { millivolts, milliamps, valid }
}

#[test]
fn measurements_are_averaged() {
    let mut accumulator = MeasurementAccumulator::new();
    assert!(!accumulator.take().valid);
    accumulator.push(sample(1_000, 10, true));
    accumulator.push(sample(2_001, 21, true));
    accumulator.push(sample(60_000, 60_000, false));
    assert_eq!(accumulator.take(), sample(1_500, 15, true));
    assert!(!accumulator.take().valid);
}

#[test]
fn loads_have_effective_current_and_average_power() {
    let mut load = LoadAccumulator::new();
    assert!(!load.take().valid);
    load.push(sample(5_000, 300, true));
    load.push(sample(5_000, 400, true));
    let measured = load.take();
    assert_eq!(measured.milliamps_rms, 353);
    assert_eq!(measured.milliwatts_average, 1_750);
    load.push(sample(5_000, 300, true));
    load.reset();
    assert!(!load.take().valid);
    assert_eq!(square_root(0), 0);
    assert_eq!(square_root(99), 9);
    assert_eq!(square_root(u32::MAX), 65_535);
}

#[test]
fn pictures_are_clipped_and_enlarged() {
    let mut frame = Framebuffer::new();
    frame.set(-1, 0, 0xffff);
    frame.set(320, 0, 0xffff);
    assert_eq!(distinct_colors(&frame.to_rgb()), 1);
    frame.set(1, 0, 0xffff);
    frame.fill(318, 169, 10, 10, 0xf800);
    let rgb = frame.to_rgb();
    assert_eq!(rgb.len(), RGB_BYTES);
    assert_eq!(rgb[..12], [0, 0, 0, 0, 0, 0, 255, 255, 255, 255, 255, 255]);
    assert_eq!(rgb[640 * 3 + 6], 255);
    assert_eq!(rgb[RGB_BYTES - 3..], [255, 0, 0]);
    assert_eq!(distinct_colors(&rgb), 3);
    assert_eq!(distinct_colors(&[]), 0);
    frame.fill(-5, -5, 3, 3, 0x07e0);
    assert_eq!(distinct_colors(&frame.to_rgb()), 3);
}

/// Runs an operation of the probe with the reply at `failing` a bad one: the
/// steps that it took, and how it went.
fn probe_run(
    next: impl Fn(&Vec<FlashReply>) -> ProbeStep,
    failing: Option<usize>,
) -> (Vec<FlashStep>, u32) {
    let mut replies = Vec::new();
    let mut steps = Vec::new();
    loop {
        match next(&replies) {
            ProbeStep::Over(outcome) => return (steps, outcome),
            ProbeStep::Do(step) => {
                let well = failing != Some(replies.len());
                replies.push(match step {
                    FlashStep::WaitReady => FlashReply::Ready(well),
                    FlashStep::ReadStatus => FlashReply::Word(if well { 0x20 } else { 0x10 }),
                    FlashStep::CheckBlank { .. } => FlashReply::Blank(well),
                    _ => FlashReply::Done,
                });
                steps.push(step);
            }
        }
    }
}

#[test]
fn a_probe_erase_clears_its_bit_whatever_happens() {
    let (steps, outcome) = probe_run(erase_page, None);
    assert_eq!(outcome, 0);
    assert_eq!(
        steps,
        [
            FlashStep::WaitReady,
            FlashStep::ClearStatus,
            FlashStep::SetControl(2),
            FlashStep::SetAddress(0x0801_0000),
            FlashStep::SetControl(0x40),
            FlashStep::WaitReady,
            FlashStep::ReadStatus,
            FlashStep::CheckBlank { address: 0x0801_0000 },
            FlashStep::ClearControl(2),
        ]
    );
    assert_eq!(probe_run(erase_page, Some(0)), (vec![FlashStep::WaitReady], 1));
    for failing in [5, 6, 7] {
        let (steps, outcome) = probe_run(erase_page, Some(failing));
        assert_eq!(outcome, 4);
        assert_eq!(steps.len(), failing + 2);
        assert_eq!(steps.last(), Some(&FlashStep::ClearControl(2)));
    }
}

#[test]
fn a_probe_word_is_two_half_words() {
    let program = |replies: &Vec<FlashReply>| program_word(0x0801_0004, 0xfffe_dcba, replies);
    let (steps, outcome) = probe_run(program, None);
    assert_eq!(outcome, 0);
    assert_eq!(
        steps,
        [
            FlashStep::WaitReady,
            FlashStep::ClearStatus,
            FlashStep::SetControl(1),
            FlashStep::WriteHalfWord { address: 0x0801_0004, value: 0xdcba },
            FlashStep::WaitReady,
            FlashStep::WriteHalfWord { address: 0x0801_0006, value: 0xfffe },
            FlashStep::WaitReady,
            FlashStep::ClearControl(1),
            FlashStep::ReadStatus,
        ]
    );
    for (failing, expected) in [(0, 2), (4, 2), (6, 2), (8, 3)] {
        let (steps, outcome) = probe_run(program, Some(failing));
        assert_eq!(outcome, expected);
        assert_eq!(steps.len(), failing + 1);
    }
}
