//! Painting of the power screens: overview, channel details and input.

use crate::app::{AppState, ChannelSnapshot, ControlFocus, Fault, RegulationMode, TemperatureUnit};
use crate::canvas::{capsuled, circled, cleared, filled, written, Canvas, Color, Font, Picture};
use crate::text::{
    append, append_decimal, append_fixed1, append_fixed2, ascii, decimal, fixed1, fixed2,
};
use crate::view_projection::{
    channel_projection, channel_shown, temperature_projection, temperature_shown, ChannelProjection,
    StatusProjection, TemperatureProjection,
};
use vstd::prelude::*;

verus! {

pub const TABLE_TOP: i32 = 24;

pub const HEADER_BOTTOM: i32 = 45;

pub const ROW_HEIGHT: i32 = 24;

pub const TABLE_BOTTOM: i32 = 165;

pub const COLUMN_EDGES: [i32; 7] = [0, 25, 78, 131, 184, 237, 319];

pub const COLUMN_TEXT_X: [i32; 6] = [9, 32, 85, 138, 191, 246];


/// The text of a temperature.
pub open spec fn temperature_label(projection: TemperatureProjection) -> Seq<u8> {
    match projection {
        TemperatureProjection::Invalid => ascii("T:--.-C"@),
        TemperatureProjection::Tenths(value, unit) => (if value < 0 {
            ascii("T:-"@) + fixed1((-value) as nat)
        } else {
            ascii("T:"@) + fixed1(value as nat)
        }) + (if unit == TemperatureUnit::Celsius {
            ascii("C"@)
        } else {
            ascii("F"@)
        }),
    }
}

fn temperature_text(projection: TemperatureProjection) -> (text: Vec<u8>)
    requires
        projection matches TemperatureProjection::Tenths(value, unit) ==> value > i32::MIN,
    ensures
        text@ == temperature_label(projection),
{
    let mut text: Vec<u8> = Vec::new();
    match projection {
        TemperatureProjection::Invalid => {
            append(&mut text, "T:--.-C");
            assert(text@ =~= ascii("T:--.-C"@));
        },
        TemperatureProjection::Tenths(value, unit) => {
            if value < 0 {
                append(&mut text, "T:-");
                assert(text@ =~= ascii("T:-"@));
                append_fixed1(&mut text, (-value) as u32);
            } else {
                append(&mut text, "T:");
                assert(text@ =~= ascii("T:"@));
                append_fixed1(&mut text, value as u32);
            }
            append(
                &mut text,
                if unit == TemperatureUnit::Celsius {
                    "C"
                } else {
                    "F"
                },
            );
        },
    }
    text
}

pub open spec fn temperature_drawn(picture: Picture, state: AppState) -> Picture {
    written(
        filled(picture, 226, 2, 94, 20, Color::Black),
        temperature_label(temperature_shown(state)),
        226,
        1,
        Font::Large10x20,
        Color::White,
    )
}

pub fn draw_temperature(canvas: &mut Canvas, state: &AppState)
    ensures
        final(canvas).picture() == temperature_drawn(old(canvas).picture(), *state),
{
    let text: Vec<u8> = temperature_text(temperature_projection(state));
    canvas.fill(226, 2, 94, 20, Color::Black);
    canvas.write(text, 226, 1, Font::Large10x20, Color::White);
}

/// The top of a channel's row.
pub open spec fn row_top(index: int) -> int {
    HEADER_BOTTOM + index * ROW_HEIGHT
}

fn channel_row_top(index: usize) -> (top: i32)
    requires
        index < 5,
    ensures
        top == row_top(index as int),
{
    HEADER_BOTTOM + index as i32 * ROW_HEIGHT
}

/// The interior of a cell in one color. The table dividers are never erased.
pub open spec fn cell_cleared(picture: Picture, column: int, index: int) -> Picture {
    filled(
        picture,
        COLUMN_EDGES[column] + 1,
        row_top(index) + 1,
        COLUMN_EDGES[column + 1] - COLUMN_EDGES[column] - 1,
        ROW_HEIGHT - 1,
        Color::Black,
    )
}

fn clear_channel_cell(canvas: &mut Canvas, column: usize, index: usize)
    requires
        column < 6,
        index < 5,
    ensures
        final(canvas).picture() == cell_cleared(
            old(canvas).picture(),
            column as int,
            index as int,
        ),
{
    let left: i32 = COLUMN_EDGES[column];
    let right: i32 = COLUMN_EDGES[column + 1];
    let top: i32 = channel_row_top(index);
    canvas.fill(left + 1, top + 1, (right - left - 1) as u32, (ROW_HEIGHT - 1) as u32, Color::Black);
}

/// Clearing a cell stays strictly inside the dividers around it.
pub proof fn cells_stay_inside_the_grid(column: int, index: int)
    requires
        0 <= column < 6,
        0 <= index < 5,
    ensures
        COLUMN_EDGES[column] < COLUMN_EDGES[column] + 1,
        COLUMN_EDGES[column] + 1 + (COLUMN_EDGES[column + 1] - COLUMN_EDGES[column] - 1)
            == COLUMN_EDGES[column + 1],
        COLUMN_EDGES[column + 1] - COLUMN_EDGES[column] - 1 > 0,
        row_top(index) + 1 + (ROW_HEIGHT - 1) == row_top(index + 1),
        TABLE_TOP < row_top(index),
        row_top(index + 1) <= TABLE_BOTTOM,
{
}

/// A cell with a text.
pub open spec fn cell_drawn(
    picture: Picture,
    text: Seq<u8>,
    column: int,
    index: int,
) -> Picture {
    written(
        cell_cleared(picture, column, index),
        text,
        COLUMN_TEXT_X[column] as int,
        row_top(index) + 5,
        Font::Bold8x13,
        Color::White,
    )
}

fn draw_cell(canvas: &mut Canvas, text: Vec<u8>, column: usize, index: usize)
    requires
        column < 6,
        index < 5,
    ensures
        final(canvas).picture() == cell_drawn(
            old(canvas).picture(),
            text@,
            column as int,
            index as int,
        ),
{
    clear_channel_cell(canvas, column, index);
    canvas.write(
        text,
        COLUMN_TEXT_X[column],
        channel_row_top(index) + 5,
        Font::Bold8x13,
        Color::White,
    );
}

/// A new text of a fixed label.
pub(crate) fn label_text(label: &str) -> (text: Vec<u8>)
    ensures
        text@ == ascii(label@),
{
    let mut text: Vec<u8> = Vec::new();
    append(&mut text, label);
    assert(text@ =~= ascii(label@));
    text
}

/// A new text of a decimal number.
pub(crate) fn number_text(value: u32) -> (text: Vec<u8>)
    ensures
        text@ == decimal(value as nat),
{
    let mut text: Vec<u8> = Vec::new();
    append_decimal(&mut text, value);
    assert(text@ =~= decimal(value as nat));
    text
}

/// A new text of hundredths.
pub(crate) fn hundredths_text(value: u32) -> (text: Vec<u8>)
    ensures
        text@ == fixed2(value as nat),
{
    let mut text: Vec<u8> = Vec::new();
    append_fixed2(&mut text, value);
    assert(text@ =~= fixed2(value as nat));
    text
}

/// Hundredths, or dashes where nothing was measured.
pub open spec fn measured_label(value: Option<u16>) -> Seq<u8> {
    match value {
        Some(value) => fixed2(value as nat),
        None => ascii("--.--"@),
    }
}

fn measured_text(value: Option<u16>) -> (text: Vec<u8>)
    ensures
        text@ == measured_label(value),
{
    match value {
        Some(value) => hundredths_text(value as u32),
        None => label_text("--.--"),
    }
}

pub open spec fn setpoint_drawn(
    picture: Picture,
    index: int,
    projection: ChannelProjection,
) -> Picture {
    cell_drawn(picture, fixed2(projection.setpoint_centivolts as nat), 1, index)
}

pub open spec fn limit_drawn(
    picture: Picture,
    index: int,
    projection: ChannelProjection,
) -> Picture {
    cell_drawn(picture, fixed2(projection.limit_centiamps as nat), 2, index)
}

pub open spec fn voltage_drawn(
    picture: Picture,
    index: int,
    projection: ChannelProjection,
) -> Picture {
    cell_drawn(picture, measured_label(projection.measured_centivolts), 3, index)
}

pub open spec fn current_drawn(
    picture: Picture,
    index: int,
    projection: ChannelProjection,
) -> Picture {
    cell_drawn(picture, measured_label(projection.measured_centiamps), 4, index)
}

fn draw_setpoint(canvas: &mut Canvas, index: usize, projection: &ChannelProjection)
    requires
        index < 5,
    ensures
        final(canvas).picture() == setpoint_drawn(
            old(canvas).picture(),
            index as int,
            *projection,
        ),
{
    draw_cell(canvas, hundredths_text(projection.setpoint_centivolts as u32), 1, index);
}

fn draw_limit(canvas: &mut Canvas, index: usize, projection: &ChannelProjection)
    requires
        index < 5,
    ensures
        final(canvas).picture() == limit_drawn(old(canvas).picture(), index as int, *projection),
{
    draw_cell(canvas, hundredths_text(projection.limit_centiamps as u32), 2, index);
}

fn draw_voltage(canvas: &mut Canvas, index: usize, projection: &ChannelProjection)
    requires
        index < 5,
    ensures
        final(canvas).picture() == voltage_drawn(old(canvas).picture(), index as int, *projection),
{
    draw_cell(canvas, measured_text(projection.measured_centivolts), 3, index);
}

fn draw_current(canvas: &mut Canvas, index: usize, projection: &ChannelProjection)
    requires
        index < 5,
    ensures
        final(canvas).picture() == current_drawn(old(canvas).picture(), index as int, *projection),
{
    draw_cell(canvas, measured_text(projection.measured_centiamps), 4, index);
}

/// The color of a toggle in the overview.
pub open spec fn track_color(status: StatusProjection) -> Color {
    match status {
        StatusProjection::On => Color::Rgb(4, 42, 10),
        StatusProjection::Wait => Color::Rgb(24, 38, 4),
        StatusProjection::Off => Color::Rgb(16, 16, 16),
        StatusProjection::Fault => Color::Red,
    }
}

/// Where the knob of a toggle in the overview stands.
pub open spec fn knob_x(status: StatusProjection) -> int {
    match status {
        StatusProjection::On => 264,
        StatusProjection::Wait => 257,
        _ => 250,
    }
}

/// The color of a knob.
pub open spec fn knob_color(focused: bool) -> Color {
    if focused {
        Color::Cyan
    } else {
        Color::White
    }
}

pub open spec fn status_drawn(
    picture: Picture,
    index: int,
    projection: ChannelProjection,
    focused: bool,
) -> Picture {
    let toggle = circled(
        capsuled(
            cell_cleared(picture, 5, index),
            248,
            row_top(index) + 6,
            27,
            13,
            track_color(projection.status),
        ),
        knob_x(projection.status),
        row_top(index) + 8,
        9,
        knob_color(focused),
    );
    if projection.regulation_mode == RegulationMode::Cc {
        written(
            toggle,
            ascii("CC"@),
            298,
            row_top(index) + 5,
            Font::Bold8x13,
            if projection.regulating_current {
                Color::Green
            } else {
                Color::Cyan
            },
        )
    } else {
        toggle
    }
}

fn draw_status(canvas: &mut Canvas, index: usize, projection: &ChannelProjection, focused: bool)
    requires
        index < 5,
    ensures
        final(canvas).picture() == status_drawn(
            old(canvas).picture(),
            index as int,
            *projection,
            focused,
        ),
{
    clear_channel_cell(canvas, 5, index);
    let color = match projection.status {
        StatusProjection::On => Color::Rgb(4, 42, 10),
        StatusProjection::Wait => Color::Rgb(24, 38, 4),
        StatusProjection::Off => Color::Rgb(16, 16, 16),
        StatusProjection::Fault => Color::Red,
    };
    let top: i32 = channel_row_top(index);
    canvas.fill_capsule(248, top + 6, 27, 13, color);
    let knob: i32 = match projection.status {
        StatusProjection::On => 264,
        StatusProjection::Wait => 257,
        StatusProjection::Off | StatusProjection::Fault => 250,
    };
    canvas.circle(
        knob,
        top + 8,
        9,
        if focused {
            Color::Cyan
        } else {
            Color::White
        },
    );
    if projection.regulation_mode == RegulationMode::Cc {
        canvas.label(
            "CC",
            298,
            top + 5,
            Font::Bold8x13,
            if projection.regulating_current {
                Color::Green
            } else {
                Color::Cyan
            },
        );
    }
}

pub open spec fn channel_drawn(
    picture: Picture,
    index: int,
    channel: ChannelSnapshot,
    focused: bool,
) -> Picture {
    let shown = channel_shown(channel);
    status_drawn(
        current_drawn(
            voltage_drawn(
                limit_drawn(
                    setpoint_drawn(
                        cell_drawn(picture, decimal((index + 1) as nat), 0, index),
                        index,
                        shown,
                    ),
                    index,
                    shown,
                ),
                index,
                shown,
            ),
            index,
            shown,
        ),
        index,
        shown,
        focused,
    )
}

fn draw_channel(canvas: &mut Canvas, index: usize, channel: &ChannelSnapshot, focused: bool)
    requires
        index < 5,
    ensures
        final(canvas).picture() == channel_drawn(
            old(canvas).picture(),
            index as int,
            *channel,
            focused,
        ),
{
    let projection = channel_projection(channel);
    draw_cell(canvas, number_text(index as u32 + 1), 0, index);
    draw_setpoint(canvas, index, &projection);
    draw_limit(canvas, index, &projection);
    draw_voltage(canvas, index, &projection);
    draw_current(canvas, index, &projection);
    draw_status(canvas, index, &projection, focused);
}

/// The rows of the first `count` channels.
pub open spec fn channels_drawn(picture: Picture, state: AppState, count: nat) -> Picture
    decreases count,
{
    if count == 0 {
        picture
    } else {
        channel_drawn(
            channels_drawn(picture, state, (count - 1) as nat),
            count - 1,
            state.channels[count - 1],
            state.focus == ControlFocus::OverviewOutput((count - 1) as u8),
        )
    }
}

fn draw_channels(canvas: &mut Canvas, state: &AppState)
    ensures
        final(canvas).picture() == channels_drawn(old(canvas).picture(), *state, 5),
{
    let mut index: usize = 0;
    while index < 5
        invariant
            index <= 5,
            canvas.picture() == channels_drawn(old(canvas).picture(), *state, index as nat),
        decreases 5 - index,
    {
        draw_channel(
            canvas,
            index,
            &state.channels[index],
            state.focus == ControlFocus::OverviewOutput(index as u8),
        );
        index = index + 1;
    }
}

/// The first `count` column dividers.
pub open spec fn columns_drawn(picture: Picture, count: nat) -> Picture
    decreases count,
{
    if count == 0 {
        picture
    } else {
        filled(
            columns_drawn(picture, (count - 1) as nat),
            COLUMN_EDGES[count - 1] as int,
            TABLE_TOP as int,
            1,
            TABLE_BOTTOM - TABLE_TOP + 1,
            Color::Rgb(8, 16, 16),
        )
    }
}

/// The first `count` row dividers.
pub open spec fn rows_drawn(picture: Picture, count: nat) -> Picture
    decreases count,
{
    if count == 0 {
        picture
    } else {
        filled(
            rows_drawn(picture, (count - 1) as nat),
            0,
            row_top(count - 1),
            320,
            1,
            Color::Rgb(8, 16, 16),
        )
    }
}

fn draw_table_grid(canvas: &mut Canvas)
    ensures
        final(canvas).picture() == rows_drawn(columns_drawn(old(canvas).picture(), 7), 6),
{
    let mut index: usize = 0;
    while index < 7
        invariant
            index <= 7,
            canvas.picture() == columns_drawn(old(canvas).picture(), index as nat),
        decreases 7 - index,
    {
        canvas.fill(
            COLUMN_EDGES[index],
            TABLE_TOP,
            1,
            (TABLE_BOTTOM - TABLE_TOP + 1) as u32,
            Color::Rgb(8, 16, 16),
        );
        index = index + 1;
    }
    let ghost columns = canvas.picture();
    index = 0;
    while index < 6
        invariant
            index <= 6,
            canvas.picture() == rows_drawn(columns, index as nat),
        decreases 6 - index,
    {
        canvas.fill(0, HEADER_BOTTOM + index as i32 * ROW_HEIGHT, 320, 1, Color::Rgb(8, 16, 16));
        index = index + 1;
    }
}

pub open spec fn recovery_drawn(picture: Picture, state: AppState) -> Picture {
    written(
        filled(picture, 112, 2, 108, 20, Color::Black),
        if state.recovery_armed {
            ascii("SAFE"@)
        } else {
            ascii("RECOVERY!"@)
        },
        112,
        6,
        Font::Small6x10,
        if state.recovery_armed {
            Color::Green
        } else {
            Color::Red
        },
    )
}

pub fn draw_recovery_status(canvas: &mut Canvas, state: &AppState)
    ensures
        final(canvas).picture() == recovery_drawn(old(canvas).picture(), *state),
{
    canvas.fill(112, 2, 108, 20, Color::Black);
    canvas.label(
        if state.recovery_armed {
            "SAFE"
        } else {
            "RECOVERY!"
        },
        112,
        6,
        Font::Small6x10,
        if state.recovery_armed {
            Color::Green
        } else {
            Color::Red
        },
    );
}

/// The column headings.
pub open spec fn headings_drawn(picture: Picture) -> Picture {
    let first = written(picture, ascii("CH"@), 9, 29, Font::Bold8x13, Color::Cyan);
    let second = written(first, ascii("SET"@), 32, 29, Font::Bold8x13, Color::Cyan);
    let third = written(second, ascii("LIM"@), 85, 29, Font::Bold8x13, Color::Cyan);
    let fourth = written(third, ascii("VOLTS"@), 138, 29, Font::Bold8x13, Color::Cyan);
    let fifth = written(fourth, ascii("AMPS"@), 191, 29, Font::Bold8x13, Color::Cyan);
    written(fifth, ascii("STATE"@), 246, 29, Font::Bold8x13, Color::Cyan)
}

fn draw_headings(canvas: &mut Canvas)
    ensures
        final(canvas).picture() == headings_drawn(old(canvas).picture()),
{
    canvas.label("CH", 9, 29, Font::Bold8x13, Color::Cyan);
    canvas.label("SET", 32, 29, Font::Bold8x13, Color::Cyan);
    canvas.label("LIM", 85, 29, Font::Bold8x13, Color::Cyan);
    canvas.label("VOLTS", 138, 29, Font::Bold8x13, Color::Cyan);
    canvas.label("AMPS", 191, 29, Font::Bold8x13, Color::Cyan);
    canvas.label("STATE", 246, 29, Font::Bold8x13, Color::Cyan);
}

pub open spec fn overview_drawn(picture: Picture, state: AppState) -> Picture {
    let titled = written(
        cleared(picture, Color::Black),
        ascii("BenchVolt"@),
        4,
        1,
        Font::Large10x20,
        Color::White,
    );
    let topped = filled(
        temperature_drawn(recovery_drawn(titled, state), state),
        0,
        TABLE_TOP as int,
        320,
        1,
        Color::White,
    );
    channels_drawn(rows_drawn(columns_drawn(headings_drawn(topped), 7), 6), state, 5)
}

pub fn draw_overview(canvas: &mut Canvas, state: &AppState)
    ensures
        final(canvas).picture() == overview_drawn(old(canvas).picture(), *state),
{
    canvas.clear(Color::Black);
    canvas.label("BenchVolt", 4, 1, Font::Large10x20, Color::White);
    draw_recovery_status(canvas, state);
    draw_temperature(canvas, state);
    canvas.fill(0, TABLE_TOP, 320, 1, Color::White);
    draw_headings(canvas);
    draw_table_grid(canvas);
    draw_channels(canvas, state);
}

/// What changed in a channel's row, repainted.
pub open spec fn channel_updated(
    picture: Picture,
    index: int,
    old: ChannelProjection,
    new: ChannelProjection,
    old_focused: bool,
    new_focused: bool,
) -> Picture {
    let first = if old.setpoint_centivolts != new.setpoint_centivolts {
        setpoint_drawn(picture, index, new)
    } else {
        picture
    };
    let second = if old.limit_centiamps != new.limit_centiamps {
        limit_drawn(first, index, new)
    } else {
        first
    };
    let third = if old.measured_centivolts != new.measured_centivolts {
        voltage_drawn(second, index, new)
    } else {
        second
    };
    let fourth = if old.measured_centiamps != new.measured_centiamps {
        current_drawn(third, index, new)
    } else {
        third
    };
    if old.status != new.status || old.regulation_mode != new.regulation_mode
        || old.regulating_current != new.regulating_current || old_focused != new_focused {
        status_drawn(fourth, index, new, new_focused)
    } else {
        fourth
    }
}

/// Whether two measured values look the same.
pub(crate) fn same_measured(left: Option<u16>, right: Option<u16>) -> (same: bool)
    ensures
        same == (left == right),
{
    match (left, right) {
        (Some(left), Some(right)) => left == right,
        (None, None) => true,
        _ => false,
    }
}

/// Whether two measured powers look the same.
pub(crate) fn same_power(left: Option<u32>, right: Option<u32>) -> (same: bool)
    ensures
        same == (left == right),
{
    match (left, right) {
        (Some(left), Some(right)) => left == right,
        (None, None) => true,
        _ => false,
    }
}

fn update_channel(
    canvas: &mut Canvas,
    index: usize,
    old_shown: &ChannelProjection,
    new_shown: &ChannelProjection,
    old_focused: bool,
    new_focused: bool,
)
    requires
        index < 5,
    ensures
        final(canvas).picture() == channel_updated(
            old(canvas).picture(),
            index as int,
            *old_shown,
            *new_shown,
            old_focused,
            new_focused,
        ),
{
    if old_shown.setpoint_centivolts != new_shown.setpoint_centivolts {
        draw_setpoint(canvas, index, new_shown);
    }
    if old_shown.limit_centiamps != new_shown.limit_centiamps {
        draw_limit(canvas, index, new_shown);
    }
    if !same_measured(old_shown.measured_centivolts, new_shown.measured_centivolts) {
        draw_voltage(canvas, index, new_shown);
    }
    if !same_measured(old_shown.measured_centiamps, new_shown.measured_centiamps) {
        draw_current(canvas, index, new_shown);
    }
    if old_shown.status != new_shown.status || old_shown.regulation_mode
        != new_shown.regulation_mode || old_shown.regulating_current
        != new_shown.regulating_current || old_focused != new_focused {
        draw_status(canvas, index, new_shown, new_focused);
    }
}

/// What changed in the rows of the first `count` channels, repainted.
pub open spec fn overview_updated(
    picture: Picture,
    old: AppState,
    new: AppState,
    count: nat,
) -> Picture
    decreases count,
{
    if count == 0 {
        picture
    } else {
        let index = count - 1;
        channel_updated(
            overview_updated(picture, old, new, (count - 1) as nat),
            index,
            channel_shown(old.channels[index]),
            channel_shown(new.channels[index]),
            old.focus == ControlFocus::OverviewOutput(index as u8),
            new.focus == ControlFocus::OverviewOutput(index as u8),
        )
    }
}

pub fn update_overview(canvas: &mut Canvas, before: &AppState, after: &AppState)
    ensures
        final(canvas).picture() == overview_updated(old(canvas).picture(), *before, *after, 5),
{
    let mut index: usize = 0;
    while index < 5
        invariant
            index <= 5,
            canvas.picture() == overview_updated(
                old(canvas).picture(),
                *before,
                *after,
                index as nat,
            ),
        decreases 5 - index,
    {
        let old_shown = channel_projection(&before.channels[index]);
        let new_shown = channel_projection(&after.channels[index]);
        update_channel(
            canvas,
            index,
            &old_shown,
            &new_shown,
            before.focus == ControlFocus::OverviewOutput(index as u8),
            after.focus == ControlFocus::OverviewOutput(index as u8),
        );
        index = index + 1;
    }
}

} // verus!
