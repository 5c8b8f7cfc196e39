//! The view: what is painted for a state, and what is repainted when it
//! changes.

use crate::app::{AppState, Screen};
use crate::canvas::{Canvas, DrawModel, Picture};
use crate::view_awg::{awg_drawn, awg_updated, draw_awg, update_awg};
use crate::view_detail::{
    detail_drawn, detail_updated, draw_detail_screen, draw_usb_pd_input, sink_drawn, sink_updated,
    update_detail, update_sink,
};
use crate::view_menu::{
    draw_help, draw_main_menu, draw_profiles, draw_settings, draw_system, help_content_drawn,
    help_drawn, main_menu_drawn, profiles_drawn, profiles_updated, selection_updated,
    settings_drawn, settings_menu_updated, slots_updated, system_drawn, update_help,
    update_main_menu, update_profiles, update_settings_menu, HELP_SCROLL_CAPACITY,
};
use crate::view_power::{
    draw_overview, draw_recovery_status, draw_temperature, overview_drawn, overview_updated,
    recovery_drawn, temperature_drawn, update_overview,
};
use crate::view_projection::{load_channel, temperature_projection, temperature_shown};
use vstd::prelude::*;

verus! {

/// The picture of a state.
pub open spec fn rendered(picture: Picture, state: AppState) -> Picture {
    match state.screen {
        Screen::MainMenu => main_menu_drawn(picture, state),
        Screen::Overview => overview_drawn(picture, state),
        Screen::Channel(index) => detail_drawn(picture, state, index as int),
        Screen::UsbPdInput => sink_drawn(picture, state),
        Screen::Awg => awg_drawn(picture, state),
        Screen::Settings => settings_drawn(picture, state),
        Screen::ProfileSave => profiles_drawn(picture, state, true),
        Screen::ProfileLoad => profiles_drawn(picture, state, false),
        Screen::System => system_drawn(picture, state),
        Screen::Help => help_drawn(picture, state),
    }
}

/// What changed in the header of the power screens, repainted.
pub open spec fn header_updated(picture: Picture, old: AppState, new: AppState) -> Picture {
    let recovered = if old.recovery_armed != new.recovery_armed && new.screen == Screen::Overview {
        recovery_drawn(picture, new)
    } else {
        picture
    };
    if temperature_shown(old) != temperature_shown(new) && new.screen.is_power() {
        temperature_drawn(recovered, new)
    } else {
        recovered
    }
}

/// What changed in the body of a screen, repainted.
pub open spec fn body_updated(picture: Picture, old: AppState, new: AppState) -> Picture {
    match new.screen {
        Screen::MainMenu => selection_updated(picture, old, new, Screen::MainMenu),
        Screen::Overview => overview_updated(picture, old, new, 5),
        Screen::Channel(index) => detail_updated(picture, old, new, index as int),
        Screen::UsbPdInput => sink_updated(picture, old, new),
        Screen::Awg => awg_updated(picture, old, new),
        Screen::Settings => settings_menu_updated(picture, old, new),
        Screen::ProfileSave => profiles_updated(picture, old, new),
        Screen::ProfileLoad => profiles_updated(picture, old, new),
        Screen::System => if old.recovery_armed != new.recovery_armed {
            system_drawn(picture, new)
        } else {
            picture
        },
        Screen::Help => if old.help_scroll != new.help_scroll {
            help_content_drawn(picture, new)
        } else {
            picture
        },
    }
}

/// What is painted on the way from `old` to `new`: a new screen as a whole, or
/// what changed on the current one.
pub open spec fn transition_rendered(picture: Picture, old: AppState, new: AppState) -> Picture {
    if old.screen != new.screen {
        rendered(picture, new)
    } else {
        body_updated(header_updated(picture, old, new), old, new)
    }
}

/// True of a state whose screen can be painted: what the screen numbers exists.
pub open spec fn paintable(state: AppState) -> bool {
    &&& state.screen.in_range()
    &&& state.screen == Screen::Help ==> state.help_scroll <= HELP_SCROLL_CAPACITY
    &&& state.screen == Screen::Awg ==> state.awg.channel < 255 && load_channel(state) < 255
}

/// True of a change that can be painted: the new screen as a whole, or on the
/// same screen the rows that were selected before and after.
pub open spec fn repaintable(before: AppState, after: AppState) -> bool {
    &&& paintable(after)
    &&& before.screen == after.screen && (after.screen == Screen::MainMenu || after.screen
        == Screen::Awg) ==> before.menu_selection < after.screen.items() && after.menu_selection
        < after.screen.items()
}

/// Every well-formed state can be painted, and so can every change between two.
pub proof fn well_formed_states_are_paintable(before: AppState, after: AppState)
    requires
        before.wf(),
        after.wf(),
    ensures
        paintable(after),
        repaintable(before, after),
{
}

/// Paints application state onto a display list.
pub struct BenchVoltView {
    pub canvas: Canvas,
}

impl BenchVoltView {
    pub fn new() -> (view: Self)
        ensures
            view.canvas.picture() == Seq::<DrawModel>::empty(),
    {
        BenchVoltView { canvas: Canvas::new() }
    }

    /// Takes what has been painted, and starts over.
    pub fn take(&mut self) -> (painted: Canvas)
        ensures
            painted.picture() == old(self).canvas.picture(),
            final(self).canvas.picture() == Seq::<DrawModel>::empty(),
    {
        let mut painted = Canvas::new();
        core::mem::swap(&mut painted, &mut self.canvas);
        painted
    }

    /// Paints the whole screen.
    pub fn render(&mut self, state: &AppState)
        requires
            paintable(*state),
        ensures
            final(self).canvas.picture() == rendered(old(self).canvas.picture(), *state),
    {
        let canvas = &mut self.canvas;
        match state.screen {
            Screen::MainMenu => draw_main_menu(canvas, state),
            Screen::Overview => draw_overview(canvas, state),
            Screen::Channel(index) => draw_detail_screen(canvas, state, index as usize),
            Screen::UsbPdInput => draw_usb_pd_input(canvas, state),
            Screen::Awg => draw_awg(canvas, state),
            Screen::Settings => draw_settings(canvas, state),
            Screen::ProfileSave => draw_profiles(canvas, state, true),
            Screen::ProfileLoad => draw_profiles(canvas, state, false),
            Screen::System => draw_system(canvas, state),
            Screen::Help => draw_help(canvas, state),
        }
    }

    fn update_header(&mut self, before: &AppState, after: &AppState)
        ensures
            final(self).canvas.picture() == header_updated(
                old(self).canvas.picture(),
                *before,
                *after,
            ),
    {
        if before.recovery_armed != after.recovery_armed && after.screen == Screen::Overview {
            draw_recovery_status(&mut self.canvas, after);
        }
        let power: bool = matches!(
            after.screen,
            Screen::Overview | Screen::Channel(_) | Screen::UsbPdInput
        );
        if temperature_projection(before) != temperature_projection(after) && power {
            draw_temperature(&mut self.canvas, after);
        }
    }

    /// Paints what a change of state makes visible.
    pub fn render_transition(&mut self, before: &AppState, after: &AppState)
        requires
            repaintable(*before, *after),
        ensures
            final(self).canvas.picture() == transition_rendered(
                old(self).canvas.picture(),
                *before,
                *after,
            ),
    {
        if before.screen != after.screen {
            self.render(after);
            return;
        }
        self.update_header(before, after);
        let canvas = &mut self.canvas;
        match after.screen {
            Screen::MainMenu => update_main_menu(canvas, before, after),
            Screen::Overview => update_overview(canvas, before, after),
            Screen::Channel(index) => update_detail(canvas, before, after, index as usize),
            Screen::UsbPdInput => update_sink(canvas, before, after),
            Screen::Awg => update_awg(canvas, before, after),
            Screen::Settings => update_settings_menu(canvas, before, after),
            Screen::ProfileSave | Screen::ProfileLoad => update_profiles(canvas, before, after),
            Screen::System => if before.recovery_armed != after.recovery_armed {
                draw_system(canvas, after)
            },
            Screen::Help => update_help(canvas, before, after),
        }
    }
}

/// Nothing is painted where nothing changed.
pub proof fn unchanged_states_paint_nothing(picture: Picture, state: AppState)
    ensures
        transition_rendered(picture, state, state) == picture,
{
    lemma_same_rows(picture, state, 5, 8, 3);
}

proof fn lemma_same_rows(picture: Picture, state: AppState, channels: nat, rows: nat, slots: nat)
    requires
        rows <= 8,
    ensures
        overview_updated(picture, state, state, channels) == picture,
        crate::view_awg::rows_updated(picture, state, state, rows) == picture,
        slots_updated(picture, state, state, slots) == picture,
    decreases channels + rows + slots,
{
    if channels > 0 {
        lemma_same_rows(picture, state, (channels - 1) as nat, rows, slots);
    }
    if rows > 0 {
        lemma_same_rows(picture, state, channels, (rows - 1) as nat, slots);
    }
    if slots > 0 {
        lemma_same_rows(picture, state, channels, rows, (slots - 1) as nat);
    }
}

/// Measurements, drives and other values that the current screen does not show
/// are never painted: the menus repaint nothing but their own content.
pub proof fn menus_ignore_the_outputs(picture: Picture, old: AppState, new: AppState)
    requires
        old.screen == new.screen,
        new.screen == Screen::MainMenu || new.screen == Screen::System || new.screen
            == Screen::Help,
        old.menu_selection == new.menu_selection,
        old.recovery_armed == new.recovery_armed,
        old.help_scroll == new.help_scroll,
    ensures
        transition_rendered(picture, old, new) == picture,
{
}

} // verus!
