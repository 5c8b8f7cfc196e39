//! Pure mapping from physical input samples to application actions.

use crate::app::{Action, AppState, ControlFocus, Screen};
use vstd::prelude::*;

verus! {

pub const BUTTON_DEBOUNCE_MS: u16 = 50;

pub const BUTTON_CLICK_MIN_MS: u16 = 30;

pub const OVERVIEW_HOLD_MS: u16 = 500;

pub const REBOOT_HOLD_MS: u16 = 3_000;

pub const ENCODER_ACCELERATION_IDLE_MS: u16 = 80;

/// Milliseconds from `then` to `now` on the wrapping clock.
pub open spec fn ticks_between(then: u16, now: u16) -> int {
    (now - then) % 0x1_0000
}

/// What a turn of the encoder means.
pub open spec fn turn_action(state: AppState, direction: i8, accelerated: i8) -> Option<Action> {
    if direction == 0 {
        None
    } else {
        match state.focus {
            ControlFocus::Unfocused => if state.screen == Screen::Awg && state.awg_editing {
                Some(Action::AdjustAwg(accelerated))
            } else if !state.screen.is_power() {
                Some(Action::NavigateMenu(direction))
            } else if direction < 0 {
                Some(Action::PreviousScreen)
            } else {
                Some(Action::NextScreen)
            },
            ControlFocus::Output => match state.screen {
                Screen::Channel(channel) => Some(Action::ToggleOutputRequested { channel }),
                _ => None,
            },
            ControlFocus::OverviewOutput(channel) => Some(
                Action::ToggleOutputRequested { channel },
            ),
            _ => Some(Action::AdjustFocused(accelerated)),
        }
    }
}

/// What a turn of the encoder means: navigation by single detents, edits by
/// accelerated steps.
pub fn encoder_action(state: &AppState, direction: i8, accelerated: i8) -> (action: Option<Action>)
    ensures
        action == turn_action(*state, direction, accelerated),
{
    if direction == 0 {
        return None;
    }
    match state.focus {
        ControlFocus::Unfocused => {
            if state.screen == Screen::Awg && state.awg_editing {
                Some(Action::AdjustAwg(accelerated))
            } else if matches!(
                state.screen,
                Screen::MainMenu
                    | Screen::Awg
                    | Screen::Settings
                    | Screen::ProfileSave
                    | Screen::ProfileLoad
                    | Screen::System
                    | Screen::Help
            ) {
                Some(Action::NavigateMenu(direction))
            } else if direction < 0 {
                Some(Action::PreviousScreen)
            } else {
                Some(Action::NextScreen)
            }
        },
        ControlFocus::Output => match state.screen {
            Screen::Channel(channel) => Some(Action::ToggleOutputRequested { channel }),
            _ => None,
        },
        ControlFocus::OverviewOutput(channel) => Some(Action::ToggleOutputRequested { channel }),
        _ => Some(Action::AdjustFocused(accelerated)),
    }
}

/// Turns samples of the button level into actions.
pub struct ButtonTracker {
    pub high: bool,
    pub last_press_tick: u16,
    pub pressed_at: Option<u16>,
    pub overview_hold_fired: bool,
}

impl ButtonTracker {
    /// The tracker with a press that `level` begins taken into account.
    pub open spec fn pressed(self, tick: u16, level: bool) -> Self {
        if self.high && !level && ticks_between(self.last_press_tick, tick) >= BUTTON_DEBOUNCE_MS {
            ButtonTracker { pressed_at: Some(tick), overview_hold_fired: false, ..self }
        } else {
            self
        }
    }

    /// The tracker after a sample while the button is down, and its action.
    pub open spec fn held(self, tick: u16) -> (Self, Option<Action>) {
        match self.pressed_at {
            Some(pressed_at) => if ticks_between(pressed_at, tick) >= REBOOT_HOLD_MS {
                (
                    ButtonTracker { pressed_at: None, high: false, ..self },
                    Some(Action::RequestReboot),
                )
            } else if ticks_between(pressed_at, tick) >= OVERVIEW_HOLD_MS
                && !self.overview_hold_fired {
                (
                    ButtonTracker { overview_hold_fired: true, high: false, ..self },
                    Some(Action::GoMainMenu),
                )
            } else {
                (ButtonTracker { high: false, ..self }, None)
            },
            None => (ButtonTracker { high: false, ..self }, None),
        }
    }

    /// The tracker after a sample while the button is up, and its action.
    pub open spec fn released(self, tick: u16) -> (Self, Option<Action>) {
        match self.pressed_at {
            Some(pressed_at) => if self.high {
                (self, None)
            } else {
                (
                    ButtonTracker {
                        pressed_at: None,
                        last_press_tick: tick,
                        high: true,
                        ..self
                    },
                    if ticks_between(pressed_at, tick) >= OVERVIEW_HOLD_MS {
                        Some(Action::GoMainMenu)
                    } else if ticks_between(pressed_at, tick) >= BUTTON_CLICK_MIN_MS {
                        Some(Action::NextControl)
                    } else {
                        None
                    },
                )
            },
            None => (ButtonTracker { high: true, ..self }, None),
        }
    }

    /// The tracker after a sample, and its action.
    pub open spec fn after(self, tick: u16, level: bool) -> (Self, Option<Action>) {
        if level {
            self.released(tick)
        } else {
            self.pressed(tick, level).held(tick)
        }
    }

    pub fn new(initial_high: bool) -> (tracker: Self)
        ensures
            tracker == (ButtonTracker {
                high: initial_high,
                last_press_tick: 0,
                pressed_at: None,
                overview_hold_fired: false,
            }),
    {
        ButtonTracker {
            high: initial_high,
            last_press_tick: 0,
            pressed_at: None,
            overview_hold_fired: false,
        }
    }

    pub fn is_high(&self) -> (high: bool)
        ensures
            high == self.high,
    {
        self.high
    }

    /// Takes one sample of the button level.
    pub fn sample(&mut self, tick: u16, high: bool) -> (action: Option<Action>)
        ensures
            (*final(self), action) == old(self).after(tick, high),
    {
        let mut action: Option<Action> = None;
        if self.high && !high && tick.wrapping_sub(self.last_press_tick) >= BUTTON_DEBOUNCE_MS {
            self.pressed_at = Some(tick);
            self.overview_hold_fired = false;
        }
        if !high {
            if let Some(pressed_at) = self.pressed_at {
                let held_ms: u16 = tick.wrapping_sub(pressed_at);
                if held_ms >= REBOOT_HOLD_MS {
                    self.pressed_at = None;
                    action = Some(Action::RequestReboot);
                } else if held_ms >= OVERVIEW_HOLD_MS && !self.overview_hold_fired {
                    self.overview_hold_fired = true;
                    action = Some(Action::GoMainMenu);
                }
            }
        } else if !self.high {
            if let Some(pressed_at) = self.pressed_at {
                self.pressed_at = None;
                let held_ms: u16 = tick.wrapping_sub(pressed_at);
                self.last_press_tick = tick;
                if held_ms >= OVERVIEW_HOLD_MS {
                    action = Some(Action::GoMainMenu);
                } else if held_ms >= BUTTON_CLICK_MIN_MS {
                    action = Some(Action::NextControl);
                }
            }
        }
        self.high = high;
        action
    }
}

/// A press shorter than the click threshold does nothing, and a reboot takes a
/// full hold.
pub proof fn short_presses_do_nothing(tracker: ButtonTracker, tick: u16, level: bool)
    requires
        tracker.pressed_at matches Some(pressed_at) && ticks_between(pressed_at, tick)
            < BUTTON_CLICK_MIN_MS,
        !tracker.high,
    ensures
        tracker.after(tick, level).1 is None,
{
}

/// A reboot is only ever requested after the button was held for the full
/// time.
pub proof fn reboot_needs_a_full_hold(tracker: ButtonTracker, tick: u16, level: bool)
    requires
        tracker.after(tick, level).1 == Some(Action::RequestReboot),
    ensures
        !level,
        tracker.pressed(tick, level).pressed_at matches Some(pressed_at) && ticks_between(
            pressed_at,
            tick,
        ) >= REBOOT_HOLD_MS,
{
}

/// One detent of the encoder.
#[derive(Clone, Copy, Debug, PartialEq, Eq, Structural)]
pub struct EncoderEvent {
    pub direction: i8,
    pub tick: u16,
}

/// The direction of a detent, from the level of the second encoder line.
pub fn encoder_direction(dt_high: bool) -> (direction: i8)
    ensures
        direction == (if dt_high {
            -1i8
        } else {
            1i8
        }),
{
    if dt_high {
        -1
    } else {
        1
    }
}

/// Speeds up edits while the encoder is turned fast in one direction.
#[derive(Clone, Copy, Debug, PartialEq, Eq, Structural)]
pub struct EncoderAccumulator {
    pub last_tick: u16,
    pub last_direction: i8,
    pub velocity: u8,
}

/// The step multiplier at a velocity.
pub open spec fn multiplier(velocity: u8) -> int {
    if velocity <= 1 {
        1
    } else if velocity <= 3 {
        2
    } else if velocity <= 5 {
        4
    } else if velocity <= 8 {
        8
    } else {
        16
    }
}

impl EncoderAccumulator {
    /// The velocity after a detent: it starts over after a pause or a turn
    /// back.
    pub open spec fn velocity_after(self, direction: i8, tick: u16) -> u8 {
        if direction != self.last_direction || ticks_between(self.last_tick, tick)
            > ENCODER_ACCELERATION_IDLE_MS {
            1
        } else if self.velocity >= 15 {
            16
        } else {
            (self.velocity + 1) as u8
        }
    }

    /// The accumulator after a detent.
    pub open spec fn after(self, direction: i8, tick: u16) -> Self {
        EncoderAccumulator {
            last_tick: tick,
            last_direction: direction,
            velocity: self.velocity_after(direction, tick),
        }
    }

    /// Takes in one detent: its direction, and the step it stands for.
    pub fn step(&mut self, direction: i8, tick: u16) -> (steps: (i16, i16))
        ensures
            *final(self) == old(self).after(direction, tick),
            steps.0 == direction,
            steps.1 == direction * multiplier(final(self).velocity),
    {
        let elapsed: u16 = tick.wrapping_sub(self.last_tick);
        if direction != self.last_direction || elapsed > ENCODER_ACCELERATION_IDLE_MS {
            self.velocity = 1;
        } else if self.velocity >= 15 {
            self.velocity = 16;
        } else {
            self.velocity = self.velocity + 1;
        }
        self.last_tick = tick;
        self.last_direction = direction;
        let factor: i16 = if self.velocity <= 1 {
            1
        } else if self.velocity <= 3 {
            2
        } else if self.velocity <= 5 {
            4
        } else if self.velocity <= 8 {
            8
        } else {
            16
        };
        assert(-2048 <= direction as int * factor as int <= 2047) by (nonlinear_arith)
            requires
                -128 <= direction as int <= 127,
                1 <= factor as int <= 16,
        ;
        (direction as i16, direction as i16 * factor)
    }
}

impl Default for EncoderAccumulator {
    fn default() -> (accumulator: Self)
        ensures
            accumulator == (EncoderAccumulator { last_tick: 0, last_direction: 0, velocity: 0 }),
    {
        EncoderAccumulator { last_tick: 0, last_direction: 0, velocity: 0 }
    }
}

/// `value` moved into the range of a signed byte.
pub open spec fn byte_clamped(value: int) -> int {
    crate::limits::clamped(value, -128, 127)
}

fn clamp_to_byte(value: i16) -> (result: i8)
    ensures
        result as int == byte_clamped(value as int),
{
    if value < -128 {
        -128
    } else if value > 127 {
        127
    } else {
        value as i8
    }
}

/// Moves both sums into the range of an action's argument.
pub fn clamp_adjustment(raw: i16, accelerated: i16) -> (steps: (i8, i8))
    ensures
        steps.0 as int == byte_clamped(raw as int),
        steps.1 as int == byte_clamped(accelerated as int),
{
    (clamp_to_byte(raw), clamp_to_byte(accelerated))
}

} // verus!
