//! Painting of the waveform screen.

use crate::app::{AppState, AwgStatus, AwgWaveform};
use crate::canvas::{cleared, filled, written, Canvas, Color, Font, Picture};
use crate::text::{
    append, append_decimal, append_fixed1, append_fixed2, append_fixed3, ascii, decimal, fixed1,
    fixed2, fixed3,
};
use crate::view_power::{label_text, number_text};
use crate::view_projection::{
    awg_damage, load_channel, load_channel_number, marked, row_damaged, value_damaged, AwgDamage,
};
use vstd::prelude::*;

verus! {

/// The name of row `index`.
pub open spec fn row_label(index: u8) -> Seq<char> {
    match index {
        0 => "Channel"@,
        1 => "Waveform"@,
        2 => "Frequency"@,
        3 => "Duty"@,
        4 => "Low"@,
        5 => "High"@,
        6 => "Output"@,
        _ => "Back"@,
    }
}

fn row_name(index: u8) -> (label: &'static str)
    ensures
        label@ == row_label(index),
{
    match index {
        0 => "Channel",
        1 => "Waveform",
        2 => "Frequency",
        3 => "Duty",
        4 => "Low",
        5 => "High",
        6 => "Output",
        _ => "Back",
    }
}

/// The name of a waveform.
pub open spec fn waveform_label(waveform: AwgWaveform) -> Seq<char> {
    match waveform {
        AwgWaveform::Square => "SQUARE"@,
        AwgWaveform::Triangle => "TRIANGLE"@,
        AwgWaveform::Ramp => "RAMP"@,
        AwgWaveform::Sine => "SINE"@,
    }
}

/// What a click on the output row does in a status.
pub open spec fn status_label(status: AwgStatus) -> Seq<char> {
    match status {
        AwgStatus::Stopped => "START"@,
        AwgStatus::StartRequested => "STARTING"@,
        AwgStatus::Starting => "STARTING"@,
        AwgStatus::Running => "STOP"@,
        AwgStatus::StopRequested => "STOPPING"@,
        AwgStatus::Fault => "FAULT"@,
    }
}

/// The text of the value in row `index`.
pub open spec fn value_label(state: AppState, index: u8) -> Seq<u8> {
    let awg = state.awg;
    match index {
        0 => ascii("CH"@) + decimal((awg.channel + 1) as nat),
        1 => ascii(waveform_label(awg.waveform)),
        2 => fixed1((awg.frequency_millihz / 100) as nat) + ascii(" Hz"@),
        3 => if awg.waveform == AwgWaveform::Square {
            decimal(awg.duty_percent as nat) + ascii("%"@)
        } else {
            ascii("--"@)
        },
        4 => fixed2((awg.low_mv / 10) as nat) + ascii(" V"@),
        5 => fixed2((awg.high_mv / 10) as nat) + ascii(" V"@),
        _ => ascii(status_label(state.awg_status)),
    }
}

fn value_text(state: &AppState, index: u8) -> (text: Vec<u8>)
    requires
        state.awg.channel < 255,
    ensures
        text@ == value_label(*state, index),
{
    let awg = state.awg;
    match index {
        0 => {
            let mut text: Vec<u8> = label_text("CH");
            append_decimal(&mut text, awg.channel as u32 + 1);
            text
        },
        1 => label_text(
            match awg.waveform {
                AwgWaveform::Square => "SQUARE",
                AwgWaveform::Triangle => "TRIANGLE",
                AwgWaveform::Ramp => "RAMP",
                AwgWaveform::Sine => "SINE",
            },
        ),
        2 => {
            let mut text: Vec<u8> = Vec::new();
            append_fixed1(&mut text, awg.frequency_millihz / 100);
            append(&mut text, " Hz");
            assert(text@ =~= value_label(*state, index));
            text
        },
        3 => if awg.waveform == AwgWaveform::Square {
            let mut text: Vec<u8> = number_text(awg.duty_percent as u32);
            append(&mut text, "%");
            text
        } else {
            label_text("--")
        },
        4 => {
            let mut text: Vec<u8> = Vec::new();
            append_fixed2(&mut text, (awg.low_mv / 10) as u32);
            append(&mut text, " V");
            assert(text@ =~= value_label(*state, index));
            text
        },
        5 => {
            let mut text: Vec<u8> = Vec::new();
            append_fixed2(&mut text, (awg.high_mv / 10) as u32);
            append(&mut text, " V");
            assert(text@ =~= value_label(*state, index));
            text
        },
        _ => label_text(
            match state.awg_status {
                AwgStatus::Stopped => "START",
                AwgStatus::StartRequested | AwgStatus::Starting => "STARTING",
                AwgStatus::Running => "STOP",
                AwgStatus::StopRequested => "STOPPING",
                AwgStatus::Fault => "FAULT",
            },
        ),
    }
}

/// The color of the value in row `index`.
pub open spec fn value_color(state: AppState, index: u8) -> Color {
    if index == 6 {
        match state.awg_status {
            AwgStatus::Running => Color::Green,
            AwgStatus::Fault => Color::Red,
            AwgStatus::Stopped => Color::Cyan,
            _ => Color::Yellow,
        }
    } else if state.menu_selection == index && state.awg_editing {
        Color::Cyan
    } else {
        Color::White
    }
}

/// The background of row `index`.
pub open spec fn row_color(state: AppState, index: u8) -> Color {
    if state.menu_selection == index {
        Color::Rgb(0, 18, 24)
    } else {
        Color::Black
    }
}

/// The value in row `index`. The last row has none.
pub open spec fn value_drawn(picture: Picture, state: AppState, index: u8) -> Picture {
    let y = 30 + index * 17;
    if index == 7 {
        picture
    } else {
        written(
            filled(picture, 102, y - 1, 92, 16, row_color(state, index)),
            value_label(state, index),
            106,
            y,
            Font::Bold8x13,
            value_color(state, index),
        )
    }
}

fn background(state: &AppState, index: u8) -> (color: Color)
    ensures
        color == row_color(*state, index),
{
    if state.menu_selection == index {
        Color::Rgb(0, 18, 24)
    } else {
        Color::Black
    }
}

fn draw_awg_value(canvas: &mut Canvas, state: &AppState, index: u8)
    requires
        index < 8,
        state.awg.channel < 255,
    ensures
        final(canvas).picture() == value_drawn(old(canvas).picture(), *state, index),
{
    if index == 7 {
        return;
    }
    let y: i32 = 30 + index as i32 * 17;
    canvas.fill(102, y - 1, 92, 16, background(state, index));
    let color = if index == 6 {
        match state.awg_status {
            AwgStatus::Running => Color::Green,
            AwgStatus::Fault => Color::Red,
            AwgStatus::StartRequested | AwgStatus::Starting | AwgStatus::StopRequested => {
                Color::Yellow
            },
            AwgStatus::Stopped => Color::Cyan,
        }
    } else if state.menu_selection == index && state.awg_editing {
        Color::Cyan
    } else {
        Color::White
    };
    canvas.write(value_text(state, index), 106, y, Font::Bold8x13, color);
}

/// Row `index` with its name and its value.
pub open spec fn row_drawn(picture: Picture, state: AppState, index: u8) -> Picture {
    let y = 30 + index * 17;
    value_drawn(
        written(
            written(
                filled(picture, 4, y - 1, 190, 16, row_color(state, index)),
                if state.menu_selection == index {
                    ascii(">"@)
                } else {
                    ascii(" "@)
                },
                8,
                y,
                Font::Bold8x13,
                Color::Cyan,
            ),
            ascii(row_label(index)),
            27,
            y,
            Font::Bold8x13,
            Color::White,
        ),
        state,
        index,
    )
}

fn draw_awg_row(canvas: &mut Canvas, state: &AppState, index: u8)
    requires
        index < 8,
        state.awg.channel < 255,
    ensures
        final(canvas).picture() == row_drawn(old(canvas).picture(), *state, index),
{
    let y: i32 = 30 + index as i32 * 17;
    canvas.fill(4, y - 1, 190, 16, background(state, index));
    canvas.label(
        if state.menu_selection == index {
            ">"
        } else {
            " "
        },
        8,
        y,
        Font::Bold8x13,
        Color::Cyan,
    );
    canvas.label(row_name(index), 27, y, Font::Bold8x13, Color::White);
    draw_awg_value(canvas, state, index);
}

/// The first `count` rows.
pub open spec fn rows_drawn(picture: Picture, state: AppState, count: nat) -> Picture
    decreases count,
{
    if count == 0 {
        picture
    } else {
        row_drawn(
            rows_drawn(picture, state, (count - 1) as nat),
            state,
            (count - 1) as u8,
        )
    }
}

pub open spec fn load_heading_drawn(picture: Picture, state: AppState) -> Picture {
    written(
        filled(picture, 202, 29, 118, 18, Color::Black),
        ascii("CH"@) + decimal((load_channel(state) + 1) as nat) + ascii(" LOAD"@),
        205,
        32,
        Font::Bold8x13,
        Color::Cyan,
    )
}

fn draw_awg_load_heading(canvas: &mut Canvas, state: &AppState)
    requires
        load_channel(*state) < 255,
    ensures
        final(canvas).picture() == load_heading_drawn(old(canvas).picture(), *state),
{
    canvas.fill(202, 29, 118, 18, Color::Black);
    let mut heading: Vec<u8> = label_text("CH");
    append_decimal(&mut heading, load_channel_number(state) as u32);
    append(&mut heading, " LOAD");
    canvas.write(heading, 205, 32, Font::Bold8x13, Color::Cyan);
}

pub open spec fn load_current_drawn(picture: Picture, state: AppState) -> Picture {
    written(
        filled(picture, 202, 64, 118, 22, Color::Black),
        if state.awg_load.valid {
            fixed3(state.awg_load.milliamps_rms as nat) + ascii(" A"@)
        } else {
            ascii("-.--- A"@)
        },
        205,
        65,
        Font::Large10x20,
        Color::White,
    )
}

fn draw_awg_load_current(canvas: &mut Canvas, state: &AppState)
    ensures
        final(canvas).picture() == load_current_drawn(old(canvas).picture(), *state),
{
    canvas.fill(202, 64, 118, 22, Color::Black);
    let mut current: Vec<u8> = Vec::new();
    if state.awg_load.valid {
        append_fixed3(&mut current, state.awg_load.milliamps_rms as u32);
        append(&mut current, " A");
    } else {
        append(&mut current, "-.--- A");
    }
    assert(current@ =~= (if state.awg_load.valid {
        fixed3(state.awg_load.milliamps_rms as nat) + ascii(" A"@)
    } else {
        ascii("-.--- A"@)
    }));
    canvas.write(current, 205, 65, Font::Large10x20, Color::White);
}

pub open spec fn load_power_drawn(picture: Picture, state: AppState) -> Picture {
    written(
        filled(picture, 202, 113, 118, 22, Color::Black),
        if state.awg_load.valid {
            fixed2((state.awg_load.milliwatts_average / 10) as nat) + ascii(" W"@)
        } else {
            ascii("--.-- W"@)
        },
        205,
        114,
        Font::Large10x20,
        Color::White,
    )
}

fn draw_awg_load_power(canvas: &mut Canvas, state: &AppState)
    ensures
        final(canvas).picture() == load_power_drawn(old(canvas).picture(), *state),
{
    canvas.fill(202, 113, 118, 22, Color::Black);
    let mut power: Vec<u8> = Vec::new();
    if state.awg_load.valid {
        append_fixed2(&mut power, state.awg_load.milliwatts_average / 10);
        append(&mut power, " W");
    } else {
        append(&mut power, "--.-- W");
    }
    assert(power@ =~= (if state.awg_load.valid {
        fixed2((state.awg_load.milliwatts_average / 10) as nat) + ascii(" W"@)
    } else {
        ascii("--.-- W"@)
    }));
    canvas.write(power, 205, 114, Font::Large10x20, Color::White);
}

pub open spec fn load_panel_drawn(picture: Picture, state: AppState) -> Picture {
    let headed = load_heading_drawn(filled(picture, 202, 29, 118, 140, Color::Black), state);
    let labelled = written(
        written(
            headed,
            ascii("CURRENT RMS"@),
            205,
            52,
            Font::Small6x10,
            Color::Rgb(18, 36, 24),
        ),
        ascii("POWER AVG"@),
        205,
        101,
        Font::Small6x10,
        Color::Rgb(18, 36, 24),
    );
    load_power_drawn(load_current_drawn(labelled, state), state)
}

fn draw_awg_load_panel(canvas: &mut Canvas, state: &AppState)
    requires
        load_channel(*state) < 255,
    ensures
        final(canvas).picture() == load_panel_drawn(old(canvas).picture(), *state),
{
    canvas.fill(202, 29, 118, 140, Color::Black);
    draw_awg_load_heading(canvas, state);
    canvas.label("CURRENT RMS", 205, 52, Font::Small6x10, Color::Rgb(18, 36, 24));
    canvas.label("POWER AVG", 205, 101, Font::Small6x10, Color::Rgb(18, 36, 24));
    draw_awg_load_current(canvas, state);
    draw_awg_load_power(canvas, state);
}

pub open spec fn awg_drawn(picture: Picture, state: AppState) -> Picture {
    let titled = written(
        cleared(picture, Color::Black),
        ascii("AWG"@),
        6,
        3,
        Font::Large10x20,
        Color::White,
    );
    let ruled = filled(
        filled(titled, 0, 27, 320, 1, Color::Rgb(8, 16, 16)),
        198,
        27,
        1,
        143,
        Color::Rgb(8, 16, 16),
    );
    load_panel_drawn(rows_drawn(ruled, state, 8), state)
}

pub fn draw_awg(canvas: &mut Canvas, state: &AppState)
    requires
        state.awg.channel < 255,
        load_channel(*state) < 255,
    ensures
        final(canvas).picture() == awg_drawn(old(canvas).picture(), *state),
{
    canvas.clear(Color::Black);
    canvas.label("AWG", 6, 3, Font::Large10x20, Color::White);
    canvas.fill(0, 27, 320, 1, Color::Rgb(8, 16, 16));
    canvas.fill(198, 27, 1, 143, Color::Rgb(8, 16, 16));
    let ghost ruled = canvas.picture();
    let mut index: u8 = 0;
    while index < 8
        invariant
            index <= 8,
            state.awg.channel < 255,
            canvas.picture() == rows_drawn(ruled, *state, index as nat),
        decreases 8 - index,
    {
        draw_awg_row(canvas, state, index);
        index = index + 1;
    }
    draw_awg_load_panel(canvas, state);
}

/// The first `count` rows that changed, repainted: whole rows, or their values
/// only.
pub open spec fn rows_updated(
    picture: Picture,
    old: AppState,
    new: AppState,
    count: nat,
) -> Picture
    decreases count,
{
    if count == 0 {
        picture
    } else {
        let row = (count - 1) as u8;
        let before = rows_updated(picture, old, new, (count - 1) as nat);
        if row_damaged(old, new, row) {
            row_drawn(before, new, row)
        } else if value_damaged(old, new, row) {
            value_drawn(before, new, row)
        } else {
            before
        }
    }
}

/// What changed on the waveform screen, repainted.
pub open spec fn awg_updated(picture: Picture, old: AppState, new: AppState) -> Picture {
    let rows = rows_updated(picture, old, new, 8);
    let heading = if load_channel(old) != load_channel(new) {
        load_heading_drawn(rows, new)
    } else {
        rows
    };
    let current = if old.awg_load.valid != new.awg_load.valid || old.awg_load.milliamps_rms
        != new.awg_load.milliamps_rms {
        load_current_drawn(heading, new)
    } else {
        heading
    };
    if old.awg_load.valid != new.awg_load.valid || old.awg_load.milliwatts_average / 10
        != new.awg_load.milliwatts_average / 10 {
        load_power_drawn(current, new)
    } else {
        current
    }
}

pub fn update_awg(canvas: &mut Canvas, before: &AppState, after: &AppState)
    requires
        before.menu_selection < 8,
        after.menu_selection < 8,
        after.awg.channel < 255,
        load_channel(*after) < 255,
    ensures
        final(canvas).picture() == awg_updated(old(canvas).picture(), *before, *after),
{
    let damage: AwgDamage = awg_damage(before, after);
    let mut index: u8 = 0;
    while index < 8
        invariant
            index <= 8,
            after.awg.channel < 255,
            forall|row: u8| row < 8 ==> (#[trigger] marked(damage.rows, row)) == row_damaged(
                *before,
                *after,
                row,
            ),
            forall|row: u8|
                row < 8 ==> (#[trigger] marked(damage.values, row)) == (value_damaged(
                    *before,
                    *after,
                    row,
                ) && !row_damaged(*before, *after, row)),
            canvas.picture() == rows_updated(
                old(canvas).picture(),
                *before,
                *after,
                index as nat,
            ),
        decreases 8 - index,
    {
        assert(marked(damage.rows, index) == row_damaged(*before, *after, index));
        assert(marked(damage.values, index) == (value_damaged(*before, *after, index)
            && !row_damaged(*before, *after, index)));
        if damage.rows & (1u8 << index) != 0 {
            draw_awg_row(canvas, after, index);
        } else if damage.values & (1u8 << index) != 0 {
            draw_awg_value(canvas, after, index);
        }
        index = index + 1;
    }
    if damage.load_heading {
        draw_awg_load_heading(canvas, after);
    }
    if damage.load_current {
        draw_awg_load_current(canvas, after);
    }
    if damage.load_power {
        draw_awg_load_power(canvas, after);
    }
}

} // verus!
