//! What the user interface paints.

use benchvolt_poc::app::{AppState, ControlFocus, Fault, Measurement, Screen};
use benchvolt_poc::canvas::{Canvas, Color, DrawCommand};
use benchvolt_poc::view::BenchVoltView;

fn painted(state: &AppState) -> Vec<DrawCommand> {
    let mut view = BenchVoltView::new();
    view.render(state);
    view.take().commands
}

fn transition(old: &AppState, new: &AppState) -> Vec<DrawCommand> {
    let mut view = BenchVoltView::new();
    view.render_transition(old, new);
    view.take().commands
}

fn shows(commands: &[DrawCommand], wanted: &str) -> bool {
    commands.iter().any(|command| match command {
        DrawCommand::Text { text, .. } => text == wanted.as_bytes(),
        _ => false,
    })
}

#[test]
fn every_screen_paints_something() {
    let mut state = AppState::new(true, Some(552));
    for screen in [
        Screen::MainMenu,
        Screen::Overview,
        Screen::Channel(0),
        Screen::Channel(4),
        Screen::UsbPdInput,
        Screen::Awg,
        Screen::Settings,
        Screen::ProfileSave,
        Screen::ProfileLoad,
        Screen::System,
        Screen::Help,
    ] {
        state.screen = screen;
        let commands = painted(&state);
        assert!(commands.len() > 3, "{screen:?}");
        assert!(commands.iter().any(|command| matches!(command, DrawCommand::Text { .. })));
    }
}

#[test]
fn the_main_menu_lists_its_items() {
    let commands = painted(&AppState::new(true, Some(552)));
    for item in ["DC Power", "AWG", "Settings", "System", "Help"] {
        assert!(shows(&commands, item), "{item}");
    }
}

#[test]
fn nothing_is_painted_without_a_change() {
    let mut state = AppState::new(true, Some(552));
    assert!(transition(&state, &state).is_empty());
    state.screen = Screen::Overview;
    assert!(transition(&state, &state).is_empty());
    let mut hidden = AppState::new(true, Some(552));
    let before = hidden;
    hidden.channels[2].fault = Fault::Hardware;
    assert!(transition(&before, &hidden).is_empty());
}

#[test]
fn a_new_screen_is_painted_in_full() {
    let old = AppState::new(true, Some(552));
    let mut new = old;
    new.screen = Screen::Channel(4);
    assert_eq!(transition(&old, &new), painted(&new));
}

#[test]
fn a_changed_measurement_repaints_a_part() {
    let mut old = AppState::new(true, Some(552));
    old.screen = Screen::Channel(4);
    old.focus = ControlFocus::Voltage;
    old.channels[4].measurement = Measurement { millivolts: 12_000, milliamps: 0, valid: true };
    let mut new = old;
    new.channels[4].measurement.millivolts = 11_000;
    let part = transition(&old, &new);
    assert!(!part.is_empty());
    assert!(part.len() < painted(&new).len());
    assert!(!part.iter().any(|command| matches!(command, DrawCommand::Clear { color: Color::Black })));
}

#[test]
fn the_help_can_be_scrolled_past_its_end() {
    let mut state = AppState::new(true, Some(400));
    state.screen = Screen::Help;
    let top = painted(&state);
    state.help_scroll = 248;
    let past = painted(&state);
    assert!(past.len() < top.len());
}

#[test]
fn a_capsule_reaches_as_far_as_a_coordinate_can() {
    let mut canvas = Canvas::new();
    canvas.fill_capsule(i32::MIN, 7, u32::MAX, 4, Color::Green);
    assert_eq!(canvas.commands.len(), 3);
    assert!(matches!(
        canvas.commands[1],
        DrawCommand::Circle { x, y: 7, diameter: 4, .. } if x == i32::MAX - 4
    ));
}
