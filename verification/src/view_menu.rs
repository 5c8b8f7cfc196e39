//! Painting of the menus, the help text, the settings and the profiles.

use crate::app::{AppState, ProfileStatus, Screen, TemperatureUnit};
use crate::canvas::{cleared, filled, written, Canvas, Color, Font, Picture};
use crate::text::{append, append_decimal, ascii, decimal, is_text};
use crate::ui_content::{HELP_LINE_COUNT, HELP_TEXT, HELP_VISIBLE_LINES, MAIN_MENU_ITEMS};
use crate::view_power::{label_text, number_text};
use vstd::prelude::*;
use vstd::string::*;

verus! {

/// The text of row `index` of a menu.
pub open spec fn item_label(state: AppState, screen: Screen, index: u8) -> Seq<char> {
    match screen {
        Screen::MainMenu => MAIN_MENU_ITEMS[index as int]@,
        Screen::Settings => match index {
            0 => if state.temperature_unit == TemperatureUnit::Celsius {
                "Temperature       C"@
            } else {
                "Temperature       F"@
            },
            1 => "Save Profile"@,
            2 => "Load Profile"@,
            3 => "Factory Defaults"@,
            _ => "Back"@,
        },
        Screen::ProfileSave => profile_label(state, index),
        Screen::ProfileLoad => profile_label(state, index),
        _ => "Back"@,
    }
}

/// The text of row `index` of the profile menus.
pub open spec fn profile_label(state: AppState, index: u8) -> Seq<char> {
    match index {
        0 => if state.profile_present[0] {
            "Slot 1          SAVED"@
        } else {
            "Slot 1          EMPTY"@
        },
        1 => if state.profile_present[1] {
            "Slot 2          SAVED"@
        } else {
            "Slot 2          EMPTY"@
        },
        2 => if state.profile_present[2] {
            "Slot 3          SAVED"@
        } else {
            "Slot 3          EMPTY"@
        },
        _ => "Back"@,
    }
}

fn settings_item(state: &AppState, index: u8) -> (label: &'static str)
    ensures
        label@ == item_label(*state, Screen::Settings, index),
{
    match index {
        0 => if state.temperature_unit == TemperatureUnit::Celsius {
            "Temperature       C"
        } else {
            "Temperature       F"
        },
        1 => "Save Profile",
        2 => "Load Profile",
        3 => "Factory Defaults",
        _ => "Back",
    }
}

fn profile_item(state: &AppState, index: u8) -> (label: &'static str)
    ensures
        label@ == profile_label(*state, index),
{
    match index {
        0 => if state.profile_present[0] {
            "Slot 1          SAVED"
        } else {
            "Slot 1          EMPTY"
        },
        1 => if state.profile_present[1] {
            "Slot 2          SAVED"
        } else {
            "Slot 2          EMPTY"
        },
        2 => if state.profile_present[2] {
            "Slot 3          SAVED"
        } else {
            "Slot 3          EMPTY"
        },
        _ => "Back",
    }
}

fn menu_item(state: &AppState, screen: Screen, index: u8) -> (label: &'static str)
    requires
        screen == Screen::MainMenu ==> index < 5,
    ensures
        label@ == item_label(*state, screen, index),
{
    match screen {
        Screen::MainMenu => MAIN_MENU_ITEMS[index as usize],
        Screen::Settings => settings_item(state, index),
        Screen::ProfileSave | Screen::ProfileLoad => profile_item(state, index),
        _ => "Back",
    }
}

/// A row of a menu.
pub open spec fn item_drawn(picture: Picture, label: Seq<u8>, index: int, selected: bool) -> Picture {
    let y = 34 + index * 25;
    let blank = filled(picture, 5, y - 2, 310, 22, Color::Black);
    let marked = written(
        if selected {
            filled(blank, 5, y - 2, 310, 22, Color::Rgb(0, 18, 24))
        } else {
            blank
        },
        if selected {
            ascii(">"@)
        } else {
            ascii(" "@)
        },
        10,
        y,
        Font::Bold8x13,
        Color::Cyan,
    );
    written(marked, label, 30, y, Font::Large10x20, Color::White)
}

fn draw_menu_item(canvas: &mut Canvas, label: &str, index: u8, selected: bool)
    ensures
        final(canvas).picture() == item_drawn(
            old(canvas).picture(),
            ascii(label@),
            index as int,
            selected,
        ),
{
    let y: i32 = 34 + index as i32 * 25;
    canvas.fill(5, y - 2, 310, 22, Color::Black);
    if selected {
        canvas.fill(5, y - 2, 310, 22, Color::Rgb(0, 18, 24));
    }
    canvas.label(
        if selected {
            ">"
        } else {
            " "
        },
        10,
        y,
        Font::Bold8x13,
        Color::Cyan,
    );
    canvas.label(label, 30, y, Font::Large10x20, Color::White);
}

/// The first `count` rows of a menu.
pub open spec fn items_drawn(
    picture: Picture,
    state: AppState,
    screen: Screen,
    count: nat,
) -> Picture
    decreases count,
{
    if count == 0 {
        picture
    } else {
        item_drawn(
            items_drawn(picture, state, screen, (count - 1) as nat),
            ascii(item_label(state, screen, (count - 1) as u8)),
            count - 1,
            state.menu_selection == count - 1,
        )
    }
}

/// A menu: its title, a rule, and its rows.
pub open spec fn menu_drawn(
    picture: Picture,
    title: Seq<u8>,
    state: AppState,
    screen: Screen,
    count: nat,
) -> Picture {
    items_drawn(
        filled(
            written(
                cleared(picture, Color::Black),
                title,
                6,
                3,
                Font::Large10x20,
                Color::White,
            ),
            0,
            27,
            320,
            1,
            Color::Rgb(8, 16, 16),
        ),
        state,
        screen,
        count,
    )
}

fn draw_menu(canvas: &mut Canvas, title: &str, state: &AppState, screen: Screen, count: u8)
    requires
        screen == Screen::MainMenu ==> count <= 5,
    ensures
        final(canvas).picture() == menu_drawn(
            old(canvas).picture(),
            ascii(title@),
            *state,
            screen,
            count as nat,
        ),
{
    canvas.clear(Color::Black);
    canvas.label(title, 6, 3, Font::Large10x20, Color::White);
    canvas.fill(0, 27, 320, 1, Color::Rgb(8, 16, 16));
    let ghost start = canvas.picture();
    let mut index: u8 = 0;
    while index < count
        invariant
            index <= count,
            screen == Screen::MainMenu ==> count <= 5,
            canvas.picture() == items_drawn(start, *state, screen, index as nat),
        decreases count - index,
    {
        draw_menu_item(
            canvas,
            menu_item(state, screen, index),
            index,
            state.menu_selection == index,
        );
        index = index + 1;
    }
}

pub open spec fn main_menu_drawn(picture: Picture, state: AppState) -> Picture {
    menu_drawn(picture, ascii("BenchVolt"@), state, Screen::MainMenu, 5)
}

pub fn draw_main_menu(canvas: &mut Canvas, state: &AppState)
    ensures
        final(canvas).picture() == main_menu_drawn(old(canvas).picture(), *state),
{
    draw_menu(canvas, "BenchVolt", state, Screen::MainMenu, 5);
}

/// The status line of the settings.
pub open spec fn settings_status(status: ProfileStatus) -> Option<(Seq<u8>, Color)> {
    match status {
        ProfileStatus::ConfirmDefaults => Some((ascii("CLICK TO CONFIRM"@), Color::Yellow)),
        ProfileStatus::DefaultsLoaded => Some(
            (ascii("DEFAULTS LOADED - OUTPUTS OFF"@), Color::Green),
        ),
        ProfileStatus::Failed => Some((ascii("FAILED"@), Color::Red)),
        _ => None,
    }
}

pub open spec fn settings_status_drawn(picture: Picture, state: AppState) -> Picture {
    let blank = filled(picture, 112, 3, 208, 20, Color::Black);
    match settings_status(state.profile_status) {
        Some((text, color)) => written(blank, text, 112, 8, Font::Small6x10, color),
        None => blank,
    }
}

fn draw_settings_status(canvas: &mut Canvas, state: &AppState)
    ensures
        final(canvas).picture() == settings_status_drawn(old(canvas).picture(), *state),
{
    canvas.fill(112, 3, 208, 20, Color::Black);
    match state.profile_status {
        ProfileStatus::ConfirmDefaults => canvas.label(
            "CLICK TO CONFIRM",
            112,
            8,
            Font::Small6x10,
            Color::Yellow,
        ),
        ProfileStatus::DefaultsLoaded => canvas.label(
            "DEFAULTS LOADED - OUTPUTS OFF",
            112,
            8,
            Font::Small6x10,
            Color::Green,
        ),
        ProfileStatus::Failed => canvas.label("FAILED", 112, 8, Font::Small6x10, Color::Red),
        _ => {},
    }
}

pub open spec fn settings_drawn(picture: Picture, state: AppState) -> Picture {
    settings_status_drawn(
        menu_drawn(picture, ascii("Settings"@), state, Screen::Settings, 5),
        state,
    )
}

pub fn draw_settings(canvas: &mut Canvas, state: &AppState)
    ensures
        final(canvas).picture() == settings_drawn(old(canvas).picture(), *state),
{
    draw_menu(canvas, "Settings", state, Screen::Settings, 5);
    draw_settings_status(canvas, state);
}

/// The status line of the profiles.
pub open spec fn profile_status(status: ProfileStatus) -> Option<(Seq<u8>, Color)> {
    match status {
        ProfileStatus::ConfirmSave(_) => Some((ascii("CLICK TO CONFIRM"@), Color::Yellow)),
        ProfileStatus::ConfirmLoad(_) => Some((ascii("CLICK TO CONFIRM"@), Color::Yellow)),
        ProfileStatus::Working => Some((ascii("WORKING"@), Color::Cyan)),
        ProfileStatus::Saved(_) => Some((ascii("SAVED"@), Color::Green)),
        ProfileStatus::Loaded(_) => Some((ascii("LOADED - OUTPUTS OFF"@), Color::Green)),
        ProfileStatus::Empty(_) => Some((ascii("EMPTY SLOT"@), Color::Yellow)),
        ProfileStatus::Failed => Some((ascii("FAILED"@), Color::Red)),
        _ => None,
    }
}

pub open spec fn profile_status_drawn(picture: Picture, state: AppState) -> Picture {
    let blank = filled(picture, 160, 3, 160, 20, Color::Black);
    match profile_status(state.profile_status) {
        Some((text, color)) => written(blank, text, 160, 8, Font::Bold8x13, color),
        None => blank,
    }
}

fn draw_profile_status(canvas: &mut Canvas, state: &AppState)
    ensures
        final(canvas).picture() == profile_status_drawn(old(canvas).picture(), *state),
{
    canvas.fill(160, 3, 160, 20, Color::Black);
    let (text, color) = match state.profile_status {
        ProfileStatus::ConfirmSave(_) | ProfileStatus::ConfirmLoad(_) => (
            "CLICK TO CONFIRM",
            Color::Yellow,
        ),
        ProfileStatus::Working => ("WORKING", Color::Cyan),
        ProfileStatus::Saved(_) => ("SAVED", Color::Green),
        ProfileStatus::Loaded(_) => ("LOADED - OUTPUTS OFF", Color::Green),
        ProfileStatus::Empty(_) => ("EMPTY SLOT", Color::Yellow),
        ProfileStatus::Failed => ("FAILED", Color::Red),
        _ => {
            return;
        },
    };
    canvas.label(text, 160, 8, Font::Bold8x13, color);
}

pub open spec fn profiles_drawn(picture: Picture, state: AppState, saving: bool) -> Picture {
    profile_status_drawn(
        menu_drawn(
            picture,
            if saving {
                ascii("Save Profile"@)
            } else {
                ascii("Load Profile"@)
            },
            state,
            Screen::ProfileSave,
            4,
        ),
        state,
    )
}

pub fn draw_profiles(canvas: &mut Canvas, state: &AppState, saving: bool)
    ensures
        final(canvas).picture() == profiles_drawn(old(canvas).picture(), *state, saving),
{
    draw_menu(
        canvas,
        if saving {
            "Save Profile"
        } else {
            "Load Profile"
        },
        state,
        Screen::ProfileSave,
        4,
    );
    draw_profile_status(canvas, state);
}

pub open spec fn system_drawn(picture: Picture, state: AppState) -> Picture {
    written(
        written(
            written(
                menu_drawn(picture, ascii("System"@), state, Screen::System, 1),
                ascii("BenchVolt Rust POC"@),
                65,
                72,
                Font::Large10x20,
                Color::White,
            ),
            ascii("USB: RUST-POC-01"@),
            65,
            98,
            Font::Bold8x13,
            Color::Cyan,
        ),
        if state.recovery_armed {
            ascii("Recovery: SAFE"@)
        } else {
            ascii("Recovery: NOT ARMED"@)
        },
        65,
        122,
        Font::Bold8x13,
        if state.recovery_armed {
            Color::Green
        } else {
            Color::Red
        },
    )
}

pub fn draw_system(canvas: &mut Canvas, state: &AppState)
    ensures
        final(canvas).picture() == system_drawn(old(canvas).picture(), *state),
{
    draw_menu(canvas, "System", state, Screen::System, 1);
    canvas.label("BenchVolt Rust POC", 65, 72, Font::Large10x20, Color::White);
    canvas.label("USB: RUST-POC-01", 65, 98, Font::Bold8x13, Color::Cyan);
    canvas.label(
        if state.recovery_armed {
            "Recovery: SAFE"
        } else {
            "Recovery: NOT ARMED"
        },
        65,
        122,
        Font::Bold8x13,
        if state.recovery_armed {
            Color::Green
        } else {
            Color::Red
        },
    );
}

/// Where the first line of `text` ends.
pub open spec fn line_end(text: Seq<char>) -> int
    decreases text.len(),
{
    if text.len() == 0 || text[0] == '\n' {
        0
    } else {
        1 + line_end(text.skip(1))
    }
}

/// What is left of `text` after `count` lines, where it has more than that.
pub open spec fn after_lines(text: Seq<char>, count: nat) -> Option<Seq<char>>
    decreases count,
{
    if count == 0 {
        Some(text)
    } else if line_end(text) < text.len() {
        after_lines(text.skip(line_end(text) + 1), (count - 1) as nat)
    } else {
        None
    }
}

proof fn lemma_line_end(text: Seq<char>)
    ensures
        0 <= line_end(text) <= text.len(),
    decreases text.len(),
{
    if text.len() > 0 && text[0] != '\n' {
        lemma_line_end(text.skip(1));
    }
}

/// Where the line that contains `from` ends.
fn find_line_end(text: &str, len: usize, from: usize) -> (end: usize)
    requires
        len == text@.len(),
        from <= len,
    ensures
        from <= end <= len,
        end - from == line_end(text@.skip(from as int)),
{
    let mut end: usize = from;
    while end < len
        invariant
            from <= end <= len,
            len == text@.len(),
            line_end(text@.skip(from as int)) == (end - from) + line_end(text@.skip(end as int)),
        decreases len - end,
    {
        assert(text@.skip(end as int)[0] == text@[end as int]);
        if text.get_char(end) == '\n' {
            return end;
        }
        assert(text@.skip(end as int).skip(1) =~= text@.skip(end + 1));
        end = end + 1;
    }
    end
}

/// Where line `index` begins, if there is one.
fn find_line(text: &str, len: usize, index: usize) -> (start: Option<usize>)
    requires
        len == text@.len(),
    ensures
        match start {
            Some(found) => found <= len && after_lines(text@, index as nat) == Some(
                text@.skip(found as int),
            ),
            None => after_lines(text@, index as nat) is None,
        },
{
    let mut start: usize = 0;
    let mut left: usize = index;
    assert(text@.skip(0) =~= text@);
    while left > 0
        invariant
            left <= index,
            start <= len,
            len == text@.len(),
            after_lines(text@, index as nat) == after_lines(
                text@.skip(start as int),
                left as nat,
            ),
        decreases left,
    {
        let end: usize = find_line_end(text, len, start);
        if end == len {
            return None;
        }
        assert(text@.skip(start as int).skip(end - start + 1) =~= text@.skip(end + 1));
        start = end + 1;
        left = left - 1;
    }
    Some(start)
}

/// The line that begins at `start`.
fn line_text(text: &str, len: usize, start: usize) -> (line: Vec<u8>)
    requires
        len == text@.len(),
        start <= len,
    ensures
        ({
            let following = text@.skip(start as int);
            line@ == ascii(following.take(line_end(following)))
        }),
{
    let end: usize = find_line_end(text, len, start);
    let ghost following = text@.skip(start as int);
    let mut line: Vec<u8> = Vec::new();
    let mut index: usize = start;
    assert(line@ =~= ascii(following.take(0)));
    while index < end
        invariant
            start <= index <= end <= len,
            len == text@.len(),
            following == text@.skip(start as int),
            line@ == ascii(following.take(index - start)),
        decreases end - index,
    {
        line.push(text.get_char(index) as u8);
        assert(line@ =~= ascii(following.take(index - start + 1)));
        index = index + 1;
    }
    line
}

/// True of the headings in the help text.
pub open spec fn is_heading(line: Seq<u8>) -> bool {
    line == ascii("MAIN MENU"@) || line == ascii("NAVIGATION"@) || line == ascii("POWER SCREENS"@)
        || line == ascii("CV / CC"@) || line == ascii("AWG"@)
}

/// The first `count` visible lines of the help text, from line `start` on.
pub open spec fn help_lines_drawn(picture: Picture, start: nat, count: nat) -> Picture
    decreases count,
{
    if count == 0 {
        picture
    } else {
        let before = help_lines_drawn(picture, start, (count - 1) as nat);
        match after_lines(HELP_TEXT@, (start + count - 1) as nat) {
            Some(following) => {
                let line = ascii(following.take(line_end(following)));
                written(
                    before,
                    line,
                    12,
                    32 + (count - 1) * 16,
                    Font::Bold8x13,
                    if is_heading(line) {
                        Color::Cyan
                    } else {
                        Color::White
                    },
                )
            },
            None => before,
        }
    }
}

/// The largest first line whose last visible line is a number of one byte.
pub const HELP_SCROLL_CAPACITY: u8 = 248;

/// Characters that the footer has room for.
pub const FOOTER_CAPACITY: usize = 32;

/// The footer up to the total, which it always has room for.
pub open spec fn footer_start(scroll: u8) -> Seq<u8> {
    let last = if scroll + HELP_VISIBLE_LINES < HELP_LINE_COUNT {
        scroll + HELP_VISIBLE_LINES
    } else {
        HELP_LINE_COUNT as int
    };
    ascii("TURN scroll  CLICK back  "@) + decimal((scroll + 1) as nat) + ascii("-"@) + decimal(
        last as nat,
    ) + ascii("/"@)
}

/// The footer of the help text: the total is left off where it does not fit.
pub open spec fn footer_label(scroll: u8) -> Seq<u8> {
    let total = decimal(HELP_LINE_COUNT as nat);
    if footer_start(scroll).len() + total.len() <= FOOTER_CAPACITY {
        footer_start(scroll) + total
    } else {
        footer_start(scroll)
    }
}

fn footer_text(scroll: u8) -> (text: Vec<u8>)
    requires
        scroll <= HELP_SCROLL_CAPACITY,
    ensures
        text@ == footer_label(scroll),
{
    let last: u8 = if scroll + HELP_VISIBLE_LINES < HELP_LINE_COUNT {
        scroll + HELP_VISIBLE_LINES
    } else {
        HELP_LINE_COUNT
    };
    let mut text: Vec<u8> = label_text("TURN scroll  CLICK back  ");
    append_decimal(&mut text, scroll as u32 + 1);
    append(&mut text, "-");
    append_decimal(&mut text, last as u32);
    append(&mut text, "/");
    let total: Vec<u8> = number_text(HELP_LINE_COUNT as u32);
    if text.len() <= FOOTER_CAPACITY && total.len() <= FOOTER_CAPACITY - text.len() {
        text.extend_from_slice(total.as_slice());
        assert(text@ =~= footer_label(scroll));
    }
    text
}

pub open spec fn help_content_drawn(picture: Picture, state: AppState) -> Picture {
    written(
        help_lines_drawn(
            filled(picture, 0, 28, 320, 142, Color::Black),
            state.help_scroll as nat,
            HELP_VISIBLE_LINES as nat,
        ),
        footer_label(state.help_scroll),
        48,
        151,
        Font::Small6x10,
        Color::Green,
    )
}

fn draw_help_content(canvas: &mut Canvas, state: &AppState)
    requires
        state.help_scroll <= HELP_SCROLL_CAPACITY,
    ensures
        final(canvas).picture() == help_content_drawn(old(canvas).picture(), *state),
{
    canvas.fill(0, 28, 320, 142, Color::Black);
    let start: usize = state.help_scroll as usize;
    let text: &'static str = HELP_TEXT;
    let len: usize = text.unicode_len();
    let ghost blank = canvas.picture();
    let mut row: usize = 0;
    while row < HELP_VISIBLE_LINES as usize
        invariant
            row <= HELP_VISIBLE_LINES,
            start == state.help_scroll,
            text@ == HELP_TEXT@,
            len == text@.len(),
            canvas.picture() == help_lines_drawn(blank, start as nat, row as nat),
        decreases HELP_VISIBLE_LINES - row,
    {
        if let Some(found) = find_line(text, len, start + row) {
            let line: Vec<u8> = line_text(text, len, found);
            let heading: bool = is_text(line.as_slice(), "MAIN MENU") || is_text(
                line.as_slice(),
                "NAVIGATION",
            ) || is_text(line.as_slice(), "POWER SCREENS") || is_text(line.as_slice(), "CV / CC")
                || is_text(line.as_slice(), "AWG");
            canvas.write(
                line,
                12,
                32 + row as i32 * 16,
                Font::Bold8x13,
                if heading {
                    Color::Cyan
                } else {
                    Color::White
                },
            );
        }
        row = row + 1;
    }
    canvas.write(footer_text(state.help_scroll), 48, 151, Font::Small6x10, Color::Green);
}

pub open spec fn help_drawn(picture: Picture, state: AppState) -> Picture {
    help_content_drawn(
        written(
            cleared(picture, Color::Black),
            ascii("Help"@),
            6,
            3,
            Font::Large10x20,
            Color::White,
        ),
        state,
    )
}

pub fn draw_help(canvas: &mut Canvas, state: &AppState)
    requires
        state.help_scroll <= HELP_SCROLL_CAPACITY,
    ensures
        final(canvas).picture() == help_drawn(old(canvas).picture(), *state),
{
    canvas.clear(Color::Black);
    canvas.label("Help", 6, 3, Font::Large10x20, Color::White);
    draw_help_content(canvas, state);
}

/// A moved selection, repainted: the row that was left, and the row that was
/// reached.
pub open spec fn selection_updated(
    picture: Picture,
    old: AppState,
    new: AppState,
    screen: Screen,
) -> Picture {
    if old.menu_selection == new.menu_selection {
        picture
    } else {
        item_drawn(
            item_drawn(
                picture,
                ascii(item_label(new, screen, old.menu_selection)),
                old.menu_selection as int,
                false,
            ),
            ascii(item_label(new, screen, new.menu_selection)),
            new.menu_selection as int,
            true,
        )
    }
}

fn update_selection(canvas: &mut Canvas, before: &AppState, after: &AppState, screen: Screen)
    requires
        screen == Screen::MainMenu ==> before.menu_selection < 5 && after.menu_selection < 5,
    ensures
        final(canvas).picture() == selection_updated(
            old(canvas).picture(),
            *before,
            *after,
            screen,
        ),
{
    if before.menu_selection != after.menu_selection {
        draw_menu_item(
            canvas,
            menu_item(after, screen, before.menu_selection),
            before.menu_selection,
            false,
        );
        draw_menu_item(
            canvas,
            menu_item(after, screen, after.menu_selection),
            after.menu_selection,
            true,
        );
    }
}

pub fn update_main_menu(canvas: &mut Canvas, before: &AppState, after: &AppState)
    requires
        before.menu_selection < 5,
        after.menu_selection < 5,
    ensures
        final(canvas).picture() == selection_updated(
            old(canvas).picture(),
            *before,
            *after,
            Screen::MainMenu,
        ),
{
    update_selection(canvas, before, after, Screen::MainMenu);
}

/// What changed in the settings, repainted.
pub open spec fn settings_menu_updated(picture: Picture, old: AppState, new: AppState) -> Picture {
    let moved = selection_updated(picture, old, new, Screen::Settings);
    let toggled = if old.temperature_unit != new.temperature_unit {
        item_drawn(
            moved,
            ascii(item_label(new, Screen::Settings, 0)),
            0,
            new.menu_selection == 0,
        )
    } else {
        moved
    };
    if old.profile_status != new.profile_status {
        settings_status_drawn(toggled, new)
    } else {
        toggled
    }
}

pub fn update_settings_menu(canvas: &mut Canvas, before: &AppState, after: &AppState)
    ensures
        final(canvas).picture() == settings_menu_updated(old(canvas).picture(), *before, *after),
{
    update_selection(canvas, before, after, Screen::Settings);
    if before.temperature_unit != after.temperature_unit {
        draw_menu_item(canvas, settings_item(after, 0), 0, after.menu_selection == 0);
    }
    if before.profile_status != after.profile_status {
        draw_settings_status(canvas, after);
    }
}

/// The first `count` slots whose content changed, repainted.
pub open spec fn slots_updated(
    picture: Picture,
    old: AppState,
    new: AppState,
    count: nat,
) -> Picture
    decreases count,
{
    if count == 0 {
        picture
    } else {
        let before = slots_updated(picture, old, new, (count - 1) as nat);
        if old.profile_present[count - 1] != new.profile_present[count - 1] {
            item_drawn(
                before,
                ascii(profile_label(new, (count - 1) as u8)),
                count - 1,
                new.menu_selection == count - 1,
            )
        } else {
            before
        }
    }
}

/// What changed in the profiles, repainted.
pub open spec fn profiles_updated(picture: Picture, old: AppState, new: AppState) -> Picture {
    let slots = slots_updated(
        selection_updated(picture, old, new, Screen::ProfileSave),
        old,
        new,
        3,
    );
    if old.profile_status != new.profile_status {
        profile_status_drawn(slots, new)
    } else {
        slots
    }
}

pub fn update_profiles(canvas: &mut Canvas, before: &AppState, after: &AppState)
    ensures
        final(canvas).picture() == profiles_updated(old(canvas).picture(), *before, *after),
{
    update_selection(canvas, before, after, Screen::ProfileSave);
    let ghost moved = canvas.picture();
    let mut index: u8 = 0;
    while index < 3
        invariant
            index <= 3,
            canvas.picture() == slots_updated(moved, *before, *after, index as nat),
        decreases 3 - index,
    {
        if before.profile_present[index as usize] != after.profile_present[index as usize] {
            draw_menu_item(
                canvas,
                profile_item(after, index),
                index,
                after.menu_selection == index,
            );
        }
        index = index + 1;
    }
    if before.profile_status != after.profile_status {
        draw_profile_status(canvas, after);
    }
}

pub fn update_help(canvas: &mut Canvas, before: &AppState, after: &AppState)
    requires
        after.help_scroll <= HELP_SCROLL_CAPACITY,
    ensures
        final(canvas).picture() == (if before.help_scroll != after.help_scroll {
            help_content_drawn(old(canvas).picture(), *after)
        } else {
            old(canvas).picture()
        }),
{
    if before.help_scroll != after.help_scroll {
        draw_help_content(canvas, after);
    }
}

} // verus!
