//! The queued display.

use benchvolt_poc::display_dma::{
    advance, begin_full_render, begin_self_test, clipped_fill, diagnostics, finish_full_render,
    has_failed, install, lifecycle_label, ready_for_seal, service, DmaAction, Enqueued,
    PaintCommand, PaintTransfer, QueuedDisplay, SpanMerger, COMMAND_CAPACITY,
};

fn dot(x: u16) -> PaintCommand {
    PaintCommand { x, y: 0, width: 1, height: 1, color: 0x1234 }
}

/// Carries a display through its self test.
fn tested_display() -> QueuedDisplay {
    let mut display = QueuedDisplay::new();
    install(&mut display);
    assert!(begin_self_test(&mut display));
    run_dry(&mut display);
    display
}

/// Completes every transfer until the display rests, and counts the pixels.
fn run_dry(display: &mut QueuedDisplay) -> u32 {
    let mut pixels = 0;
    let mut action = service(display, 0);
    loop {
        match action {
            DmaAction::Rest | DmaAction::Release => break,
            DmaAction::Abort => panic!("aborted"),
            DmaAction::Fill { count, .. } | DmaAction::Pixels { count } => pixels += count,
            DmaAction::Begin { .. }
            | DmaAction::Continue { .. }
            | DmaAction::ReleaseAndBegin { .. } => {}
        }
        action = advance(display, 0);
    }
    assert_eq!(service(display, 0), DmaAction::Rest);
    pixels
}

#[test]
fn lifecycle_runs_from_self_test_to_healthy() {
    let mut display = QueuedDisplay::new();
    assert_eq!(lifecycle_label(&display), "UNINSTALLED");
    assert!(!begin_self_test(&mut display));
    install(&mut display);
    assert_eq!(lifecycle_label(&display), "INSTALLED");
    assert!(begin_self_test(&mut display));
    assert_eq!(lifecycle_label(&display), "SELFTEST");
    assert_eq!(run_dry(&mut display), 64 * 64);
    assert_eq!(lifecycle_label(&display), "SELFTEST_OK");
    assert!(begin_full_render(&mut display));
    assert_eq!(lifecycle_label(&display), "FULL_ENQUEUE");
    assert_eq!(display.enqueue(dot(3)), Enqueued::Queued);
    assert!(!ready_for_seal(&display));
    finish_full_render(&mut display);
    assert_eq!(lifecycle_label(&display), "FULL_DRAIN");
    assert_eq!(run_dry(&mut display), 1);
    assert_eq!(lifecycle_label(&display), "HEALTHY");
    assert!(ready_for_seal(&display));
}

#[test]
fn an_empty_full_render_is_healthy_at_once() {
    let mut display = tested_display();
    assert!(begin_full_render(&mut display));
    assert!(!begin_full_render(&mut display));
    finish_full_render(&mut display);
    assert!(ready_for_seal(&display));
}

#[test]
fn commands_before_the_self_test_are_ignored() {
    let mut display = QueuedDisplay::new();
    install(&mut display);
    assert_eq!(display.enqueue(dot(0)), Enqueued::Ignored);
    assert_eq!(diagnostics(&display), (0, 0, false, false, false));
}

#[test]
fn an_uninstalled_display_fails_on_the_first_command() {
    let mut display = QueuedDisplay::new();
    assert_eq!(display.enqueue(dot(0)), Enqueued::Refused);
    assert!(has_failed(&display));
    assert_eq!(lifecycle_label(&display), "FAILED");
    assert!(!ready_for_seal(&display));
}

#[test]
fn a_command_sends_window_then_pixels_in_chunks() {
    let mut display = tested_display();
    begin_full_render(&mut display);
    let command = PaintCommand { x: 0x101, y: 10, width: 20, height: 10, color: 0xf800 };
    assert_eq!(display.enqueue(command), Enqueued::Queued);
    let bytes = |data_mode, bytes, len| PaintTransfer::Bytes { data_mode, bytes, len };
    assert_eq!(
        service(&mut display, 7),
        DmaAction::Begin { transfer: bytes(false, [0x2a, 0, 0, 0], 1) }
    );
    assert_eq!(
        advance(&mut display, 8),
        DmaAction::Continue { transfer: bytes(true, [0x01, 0x01, 0x01, 0x14], 4) }
    );
    assert_eq!(
        advance(&mut display, 9),
        DmaAction::Continue { transfer: bytes(false, [0x2b, 0, 0, 0], 1) }
    );
    assert_eq!(
        advance(&mut display, 10),
        DmaAction::Continue { transfer: bytes(true, [0, 45, 0, 54], 4) }
    );
    assert_eq!(
        advance(&mut display, 11),
        DmaAction::Continue { transfer: bytes(false, [0x2c, 0, 0, 0], 1) }
    );
    assert_eq!(advance(&mut display, 12), DmaAction::Fill { color: 0xf800, count: 128 });
    assert_eq!(advance(&mut display, 13), DmaAction::Pixels { count: 72 });
    assert_eq!(advance(&mut display, 14), DmaAction::Release);
    assert_eq!(diagnostics(&display), (0, 1, false, false, false));
}

#[test]
fn an_overdue_transfer_fails_the_display() {
    let mut display = tested_display();
    begin_full_render(&mut display);
    display.enqueue(dot(1));
    display.enqueue(dot(2));
    assert!(matches!(service(&mut display, 65_500), DmaAction::Begin { .. }));
    assert_eq!(service(&mut display, 63), DmaAction::Rest);
    assert_eq!(service(&mut display, 64), DmaAction::Abort);
    assert!(has_failed(&display));
    assert_eq!(diagnostics(&display), (0, 2, false, false, true));
    assert_eq!(display.enqueue(dot(3)), Enqueued::Refused);
}

#[test]
fn an_unexpected_completion_fails_the_display() {
    let mut display = tested_display();
    assert_eq!(advance(&mut display, 0), DmaAction::Abort);
    assert!(has_failed(&display));
}

#[test]
fn a_full_queue_pushes_back_until_its_deadline() {
    let mut display = tested_display();
    begin_full_render(&mut display);
    for index in 0..COMMAND_CAPACITY {
        assert_eq!(display.enqueue(dot((index % 320) as u16)), Enqueued::Queued);
    }
    assert_eq!(display.enqueue(dot(0)), Enqueued::Full);
    assert!(display.wait_for_room(99, 100));
    assert!(!display.wait_for_room(100, 100));
    assert_eq!(diagnostics(&display), (0, 192, false, true, true));
    assert_eq!(display.abort_dma(), DmaAction::Abort);
}

#[test]
fn spans_merge_pixels_that_follow_each_other() {
    let mut merger = SpanMerger::new();
    assert_eq!(merger.push(-1, 0, 7), None);
    assert_eq!(merger.push(0, 170, 7), None);
    assert_eq!(merger.push(5, 1, 7), None);
    assert_eq!(merger.push(6, 1, 7), None);
    let span = PaintCommand { x: 5, y: 1, width: 2, height: 1, color: 7 };
    assert_eq!(merger.push(7, 1, 8), Some(span));
    assert_eq!(merger.push(9, 1, 8), Some(PaintCommand { x: 7, width: 1, color: 8, ..span }));
    assert_eq!(merger.finish(), Some(PaintCommand { x: 9, width: 1, color: 8, ..span }));
    assert_eq!(merger.finish(), None);
}

#[test]
fn fills_are_clipped_to_the_display() {
    let whole = PaintCommand { x: 0, y: 0, width: 320, height: 170, color: 9 };
    assert_eq!(clipped_fill(-10, -10, 1_000, 1_000, 9), Some(whole));
    assert_eq!(
        clipped_fill(300, 160, 40, 40, 9),
        Some(PaintCommand { x: 300, y: 160, width: 20, height: 10, color: 9 })
    );
    assert_eq!(
        clipped_fill(-5, 3, 6, 2, 9),
        Some(PaintCommand { x: 0, y: 3, width: 1, height: 2, color: 9 })
    );
    assert_eq!(clipped_fill(320, 0, 5, 5, 9), None);
    assert_eq!(clipped_fill(-5, 0, 5, 5, 9), None);
    assert_eq!(clipped_fill(10, 10, 0, 5, 9), None);
}
