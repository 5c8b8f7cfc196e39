//! Painting of the detail screens: large digits, settings, toggles and the
//! input's status.

use crate::app::{AppState, ControlFocus, Fault, RegulationMode};
use crate::canvas::{
    capsuled, circled, cleared, filled, framed, written, Canvas, Color, Font, Picture,
};
use crate::pd::{Contract, PdError};
use crate::text::{append, append_decimal, ascii, decimal, decimal_length, fixed2, padded_length};
use crate::view_power::{
    draw_temperature, hundredths_text, knob_color, label_text, same_measured, same_power,
    temperature_drawn,
};
use crate::view_projection::{
    detail_projection, detail_shown, framed_damage, framed_value_damage, marked, segments,
    seven_segment_mask, sink_projection, sink_shown, DetailProjection, FramedValueDamage,
    SinkPdStatus, SinkProjection, StatusProjection,
};
use vstd::prelude::*;

verus! {

/// Segment `index` of a digit, as offset and size.
pub open spec fn segment_rect(large: bool, index: u8) -> (int, int, int, int) {
    if large {
        match index {
            0 => (4, 0, 14, 4),
            1 => (0, 4, 4, 13),
            2 => (18, 4, 4, 13),
            3 => (4, 17, 14, 4),
            4 => (0, 21, 4, 13),
            5 => (18, 21, 4, 13),
            _ => (4, 34, 14, 4),
        }
    } else {
        match index {
            0 => (3, 0, 9, 3),
            1 => (0, 3, 3, 9),
            2 => (12, 3, 3, 9),
            3 => (3, 12, 9, 3),
            4 => (0, 15, 3, 9),
            5 => (12, 15, 3, 9),
            _ => (3, 24, 9, 3),
        }
    }
}

fn rect_of_segment(large: bool, index: u8) -> (rect: (i32, i32, u32, u32))
    requires
        index < 7,
    ensures
        (rect.0 as int, rect.1 as int, rect.2 as int, rect.3 as int) == segment_rect(
            large,
            index,
        ),
        0 <= rect.0 <= 18,
        0 <= rect.1 <= 34,
{
    if large {
        match index {
            0 => (4, 0, 14, 4),
            1 => (0, 4, 4, 13),
            2 => (18, 4, 4, 13),
            3 => (4, 17, 14, 4),
            4 => (0, 21, 4, 13),
            5 => (18, 21, 4, 13),
            _ => (4, 34, 14, 4),
        }
    } else {
        match index {
            0 => (3, 0, 9, 3),
            1 => (0, 3, 3, 9),
            2 => (12, 3, 3, 9),
            3 => (3, 12, 9, 3),
            4 => (0, 15, 3, 9),
            5 => (12, 15, 3, 9),
            _ => (3, 24, 9, 3),
        }
    }
}

/// The first `count` segments of a digit whose bits are set in `mask`.
pub open spec fn segments_drawn(
    picture: Picture,
    large: bool,
    mask: u8,
    x: int,
    y: int,
    count: nat,
) -> Picture
    decreases count,
{
    if count == 0 {
        picture
    } else {
        let before = segments_drawn(picture, large, mask, x, y, (count - 1) as nat);
        let (dx, dy, width, height) = segment_rect(large, (count - 1) as u8);
        if marked(mask, (count - 1) as u8) {
            filled(before, x + dx, y + dy, width, height, Color::White)
        } else {
            before
        }
    }
}

/// A digit in seven segments; other characters leave the place blank.
pub open spec fn digit_drawn(
    picture: Picture,
    large: bool,
    character: char,
    x: int,
    y: int,
) -> Picture {
    match segments(character) {
        Some(mask) => segments_drawn(picture, large, mask, x, y, 7),
        None => picture,
    }
}

fn draw_digit(canvas: &mut Canvas, large: bool, character: char, x: i32, y: i32)
    requires
        -1_000 <= x <= 10_000,
        -1_000 <= y <= 10_000,
    ensures
        final(canvas).picture() == digit_drawn(
            old(canvas).picture(),
            large,
            character,
            x as int,
            y as int,
        ),
{
    let mask: u8 = match seven_segment_mask(character) {
        Some(mask) => mask,
        None => {
            return;
        },
    };
    let mut index: u8 = 0;
    while index < 7
        invariant
            index <= 7,
            -1_000 <= x <= 10_000,
            -1_000 <= y <= 10_000,
            canvas.picture() == segments_drawn(
                old(canvas).picture(),
                large,
                mask,
                x as int,
                y as int,
                index as nat,
            ),
        decreases 7 - index,
    {
        let (dx, dy, width, height) = rect_of_segment(large, index);
        if mask & (1u8 << index) != 0 {
            canvas.fill(x + dx, y + dy, width, height, Color::White);
        }
        index = index + 1;
    }
}

/// A measured value in large digits, from `cursor` on: the picture, and where
/// the cursor ends.
pub open spec fn hero_digits_drawn(picture: Picture, text: Seq<u8>, cursor: int) -> (Picture, int)
    decreases text.len(),
{
    if text.len() == 0 {
        (picture, cursor)
    } else if text[0] == 46 {
        hero_digits_drawn(
            circled(picture, cursor + 1, 63, 5, Color::White),
            text.skip(1),
            cursor + 7,
        )
    } else {
        hero_digits_drawn(
            digit_drawn(picture, true, text[0] as char, cursor, 31),
            text.skip(1),
            cursor + 25,
        )
    }
}

/// Hundredths, or dashes where nothing was measured.
pub open spec fn hero_label(value: Option<u32>) -> Seq<u8> {
    match value {
        Some(value) => fixed2(value as nat),
        None => ascii("--.--"@),
    }
}

/// A measured value in large digits with its unit.
pub open spec fn hero_drawn(
    picture: Picture,
    value: Option<u32>,
    x: int,
    suffix: Seq<u8>,
) -> Picture {
    let (digits, cursor) = hero_digits_drawn(
        filled(picture, x - 7, 29, 151, 42, Color::Black),
        hero_label(value),
        x,
    );
    written(digits, suffix, cursor + 2, 48, Font::Large10x20, Color::White)
}

fn hero_text(value: Option<u32>) -> (text: Vec<u8>)
    ensures
        text@ == hero_label(value),
        text@.len() <= 13,
{
    proof {
        reveal_strlit("--.--");
        reveal_strlit(".");
    }
    match value {
        Some(value) => {
            proof {
                reveal_with_fuel(vstd::arithmetic::power::pow, 11);
                decimal_length((value / 100) as nat, 10, 10_000_000_000);
                padded_length((value % 100) as nat, 2);
            }
            hundredths_text(value)
        },
        None => label_text("--.--"),
    }
}

pub(crate) fn draw_hero(canvas: &mut Canvas, value: Option<u32>, x: i32, suffix: &str)
    requires
        0 <= x <= 1_000,
    ensures
        final(canvas).picture() == hero_drawn(
            old(canvas).picture(),
            value,
            x as int,
            ascii(suffix@),
        ),
{
    let text: Vec<u8> = hero_text(value);
    canvas.fill(x - 7, 29, 151, 42, Color::Black);
    let ghost start = canvas.picture();
    let mut cursor: i32 = x;
    let mut index: usize = 0;
    assert(text@.skip(0) =~= text@);
    while index < text.len()
        invariant
            index <= text@.len() <= 13,
            0 <= x <= 1_000,
            x <= cursor <= x + 25 * index,
            hero_digits_drawn(start, text@, x as int) == hero_digits_drawn(
                canvas.picture(),
                text@.skip(index as int),
                cursor as int,
            ),
        decreases text@.len() - index,
    {
        let ghost here = text@.skip(index as int);
        assert(here[0] == text@[index as int]);
        assert(here.skip(1) =~= text@.skip(index + 1));
        if text[index] == 46 {
            canvas.circle(cursor + 1, 63, 5, Color::White);
            cursor = cursor + 7;
        } else {
            draw_digit(canvas, true, text[index] as char, cursor, 31);
            cursor = cursor + 25;
        }
        index = index + 1;
    }
    canvas.label(suffix, cursor + 2, 48, Font::Large10x20, Color::White);
}

/// A measured power in small digits, from `cursor` on.
pub open spec fn power_digits_drawn(picture: Picture, text: Seq<u8>, cursor: int) -> Picture
    decreases text.len(),
{
    if text.len() == 0 {
        picture
    } else {
        let character = text[0];
        if 48 <= character <= 57 || character == 45 {
            power_digits_drawn(
                digit_drawn(picture, false, character as char, cursor, 91),
                text.skip(1),
                cursor + 17,
            )
        } else if character == 46 {
            power_digits_drawn(
                circled(picture, cursor, 114, 4, Color::White),
                text.skip(1),
                cursor + 6,
            )
        } else if character == 87 {
            power_digits_drawn(
                written(picture, ascii("W"@), cursor, 95, Font::Large10x20, Color::White),
                text.skip(1),
                cursor + 10,
            )
        } else {
            power_digits_drawn(picture, text.skip(1), cursor + 5)
        }
    }
}

pub open spec fn power_drawn(picture: Picture, power_centiwatts: Option<u32>) -> Picture {
    power_digits_drawn(
        filled(picture, 90, 88, 150, 35, Color::Black),
        hero_label(power_centiwatts) + ascii(" W"@),
        100,
    )
}

pub(crate) fn draw_power(canvas: &mut Canvas, power_centiwatts: Option<u32>)
    ensures
        final(canvas).picture() == power_drawn(old(canvas).picture(), power_centiwatts),
{
    let mut text: Vec<u8> = hero_text(power_centiwatts);
    append(&mut text, " W");
    proof {
        reveal_strlit(" W");
    }
    canvas.fill(90, 88, 150, 35, Color::Black);
    let ghost start = canvas.picture();
    let mut cursor: i32 = 100;
    let mut index: usize = 0;
    assert(text@.skip(0) =~= text@);
    while index < text.len()
        invariant
            index <= text@.len() <= 15,
            100 <= cursor <= 100 + 17 * index,
            power_digits_drawn(start, text@, 100) == power_digits_drawn(
                canvas.picture(),
                text@.skip(index as int),
                cursor as int,
            ),
        decreases text@.len() - index,
    {
        let ghost here = text@.skip(index as int);
        assert(here[0] == text@[index as int]);
        assert(here.skip(1) =~= text@.skip(index + 1));
        let character: u8 = text[index];
        if (48 <= character && character <= 57) || character == 45 {
            draw_digit(canvas, false, character as char, cursor, 91);
            cursor = cursor + 17;
        } else if character == 46 {
            canvas.circle(cursor, 114, 4, Color::White);
            cursor = cursor + 6;
        } else if character == 87 {
            canvas.label("W", cursor, 95, Font::Large10x20, Color::White);
            cursor = cursor + 10;
        } else {
            cursor = cursor + 5;
        }
        index = index + 1;
    }
}

/// The frame of a setting; only a focused one shows.
pub open spec fn setting_frame_drawn(
    picture: Picture,
    x: int,
    width: int,
    focused: bool,
) -> Picture {
    let blank = filled(picture, x, 126, width, 37, Color::Black);
    if focused {
        framed(blank, x, 128, width, 31, Color::Cyan)
    } else {
        blank
    }
}

/// The value of a setting. Its focus frame is preserved.
pub open spec fn setting_value_drawn(
    picture: Picture,
    value: u16,
    x: int,
    width: int,
    suffix: Seq<u8>,
    focused: bool,
) -> Picture {
    written(
        filled(picture, x + 2, 130, width - 4, 27, Color::Black),
        fixed2(value as nat) + suffix,
        x + 8,
        135,
        Font::Large10x20,
        knob_color(focused),
    )
}

fn draw_setting_frame(canvas: &mut Canvas, x: i32, width: u32, focused: bool)
    ensures
        final(canvas).picture() == setting_frame_drawn(
            old(canvas).picture(),
            x as int,
            width as int,
            focused,
        ),
{
    canvas.fill(x, 126, width, 37, Color::Black);
    if focused {
        canvas.frame(x, 128, width, 31, Color::Cyan);
    }
}

fn focus_color(focused: bool) -> (color: Color)
    ensures
        color == knob_color(focused),
{
    if focused {
        Color::Cyan
    } else {
        Color::White
    }
}

fn draw_setting_value(
    canvas: &mut Canvas,
    value: u16,
    x: i32,
    width: u32,
    suffix: &str,
    focused: bool,
)
    requires
        0 <= x <= 1_000,
        4 <= width,
    ensures
        final(canvas).picture() == setting_value_drawn(
            old(canvas).picture(),
            value,
            x as int,
            width as int,
            ascii(suffix@),
            focused,
        ),
{
    let mut text: Vec<u8> = hundredths_text(value as u32);
    append(&mut text, suffix);
    canvas.fill(x + 2, 130, width - 4, 27, Color::Black);
    canvas.write(text, x + 8, 135, Font::Large10x20, focus_color(focused));
}

pub open spec fn detail_setpoint_value_drawn(
    picture: Picture,
    projection: DetailProjection,
) -> Picture {
    setting_value_drawn(
        picture,
        projection.setpoint_centivolts,
        4,
        84,
        ascii("V"@),
        projection.focus == ControlFocus::Voltage,
    )
}

pub open spec fn detail_setpoint_drawn(picture: Picture, projection: DetailProjection) -> Picture {
    detail_setpoint_value_drawn(
        setting_frame_drawn(picture, 4, 84, projection.focus == ControlFocus::Voltage),
        projection,
    )
}

pub open spec fn detail_limit_value_drawn(
    picture: Picture,
    projection: DetailProjection,
) -> Picture {
    setting_value_drawn(
        picture,
        projection.limit_centiamps,
        144,
        84,
        ascii("A"@),
        projection.focus == ControlFocus::CurrentLimit,
    )
}

pub open spec fn detail_limit_drawn(picture: Picture, projection: DetailProjection) -> Picture {
    detail_limit_value_drawn(
        setting_frame_drawn(picture, 144, 84, projection.focus == ControlFocus::CurrentLimit),
        projection,
    )
}

fn draw_detail_setpoint_value(canvas: &mut Canvas, projection: &DetailProjection)
    ensures
        final(canvas).picture() == detail_setpoint_value_drawn(
            old(canvas).picture(),
            *projection,
        ),
{
    draw_setting_value(
        canvas,
        projection.setpoint_centivolts,
        4,
        84,
        "V",
        projection.focus == ControlFocus::Voltage,
    );
}

fn draw_detail_setpoint(canvas: &mut Canvas, projection: &DetailProjection)
    ensures
        final(canvas).picture() == detail_setpoint_drawn(old(canvas).picture(), *projection),
{
    draw_setting_frame(canvas, 4, 84, projection.focus == ControlFocus::Voltage);
    draw_detail_setpoint_value(canvas, projection);
}

fn draw_detail_limit_value(canvas: &mut Canvas, projection: &DetailProjection)
    ensures
        final(canvas).picture() == detail_limit_value_drawn(old(canvas).picture(), *projection),
{
    draw_setting_value(
        canvas,
        projection.limit_centiamps,
        144,
        84,
        "A",
        projection.focus == ControlFocus::CurrentLimit,
    );
}

fn draw_detail_limit(canvas: &mut Canvas, projection: &DetailProjection)
    ensures
        final(canvas).picture() == detail_limit_drawn(old(canvas).picture(), *projection),
{
    draw_setting_frame(canvas, 144, 84, projection.focus == ControlFocus::CurrentLimit);
    draw_detail_limit_value(canvas, projection);
}

pub open spec fn detail_status_drawn(
    picture: Picture,
    status: StatusProjection,
    focused: bool,
) -> Picture {
    circled(
        capsuled(
            filled(picture, 238, 125, 82, 39, Color::Black),
            249,
            130,
            58,
            28,
            match status {
                StatusProjection::On => Color::Rgb(4, 42, 10),
                StatusProjection::Wait => Color::Rgb(24, 38, 4),
                _ => Color::Rgb(24, 5, 5),
            },
        ),
        if status is On {
            282
        } else {
            252
        },
        132,
        22,
        knob_color(focused),
    )
}

fn draw_detail_status(canvas: &mut Canvas, status: StatusProjection, focused: bool)
    ensures
        final(canvas).picture() == detail_status_drawn(old(canvas).picture(), status, focused),
{
    canvas.fill(238, 125, 82, 39, Color::Black);
    let color = match status {
        StatusProjection::On => Color::Rgb(4, 42, 10),
        StatusProjection::Wait => Color::Rgb(24, 38, 4),
        StatusProjection::Off | StatusProjection::Fault => Color::Rgb(24, 5, 5),
    };
    canvas.fill_capsule(249, 130, 58, 28, color);
    let knob: i32 = if status == StatusProjection::On {
        282
    } else {
        252
    };
    canvas.circle(knob, 132, 22, focus_color(focused));
}

pub open spec fn detail_mode_drawn(picture: Picture, projection: DetailProjection) -> Picture {
    let focused = projection.focus == ControlFocus::RegulationMode;
    let blank = filled(picture, 94, 126, 44, 37, Color::Black);
    written(
        if focused {
            framed(blank, 94, 128, 44, 31, Color::Cyan)
        } else {
            blank
        },
        match projection.regulation_mode {
            RegulationMode::Cv => ascii("CV"@),
            RegulationMode::Cc => ascii("CC"@),
        },
        107,
        135,
        Font::Large10x20,
        if projection.regulating_current {
            Color::Green
        } else {
            knob_color(focused)
        },
    )
}

fn draw_detail_mode(canvas: &mut Canvas, projection: &DetailProjection)
    ensures
        final(canvas).picture() == detail_mode_drawn(old(canvas).picture(), *projection),
{
    let focused: bool = projection.focus == ControlFocus::RegulationMode;
    canvas.fill(94, 126, 44, 37, Color::Black);
    if focused {
        canvas.frame(94, 128, 44, 31, Color::Cyan);
    }
    canvas.label(
        match projection.regulation_mode {
            RegulationMode::Cv => "CV",
            RegulationMode::Cc => "CC",
        },
        107,
        135,
        Font::Large10x20,
        if projection.regulating_current {
            Color::Green
        } else {
            focus_color(focused)
        },
    );
}

/// A measured value as wide as a power.
pub open spec fn widened(value: Option<u16>) -> Option<u32> {
    match value {
        Some(value) => Some(value as u32),
        None => None,
    }
}

fn widen(value: Option<u16>) -> (wide: Option<u32>)
    ensures
        wide == widened(value),
{
    match value {
        Some(value) => Some(value as u32),
        None => None,
    }
}

pub open spec fn detail_drawn(picture: Picture, state: AppState, index: int) -> Picture {
    let shown = detail_shown(state.channels[index], state.focus);
    let titled = temperature_drawn(
        written(
            cleared(picture, Color::Black),
            ascii("Channel "@) + decimal((index + 1) as nat),
            4,
            1,
            Font::Large10x20,
            Color::White,
        ),
        state,
    );
    let moded = if index >= 3 {
        detail_mode_drawn(titled, shown)
    } else {
        titled
    };
    let measured = power_drawn(
        hero_drawn(
            hero_drawn(moded, widened(shown.voltage_centivolts), 5, ascii("V"@)),
            widened(shown.current_centiamps),
            164,
            ascii("A"@),
        ),
        shown.power_centiwatts,
    );
    detail_status_drawn(
        detail_limit_drawn(detail_setpoint_drawn(measured, shown), shown),
        shown.status,
        shown.focus == ControlFocus::Output,
    )
}

pub fn draw_detail_screen(canvas: &mut Canvas, state: &AppState, index: usize)
    requires
        index < 5,
    ensures
        final(canvas).picture() == detail_drawn(old(canvas).picture(), *state, index as int),
{
    let projection = detail_projection(&state.channels[index], state.focus);
    canvas.clear(Color::Black);
    let mut title: Vec<u8> = label_text("Channel ");
    append_decimal(&mut title, index as u32 + 1);
    canvas.write(title, 4, 1, Font::Large10x20, Color::White);
    draw_temperature(canvas, state);
    if index >= 3 {
        draw_detail_mode(canvas, &projection);
    }
    draw_hero(canvas, widen(projection.voltage_centivolts), 5, "V");
    draw_hero(canvas, widen(projection.current_centiamps), 164, "A");
    draw_power(canvas, projection.power_centiwatts);
    draw_detail_setpoint(canvas, &projection);
    draw_detail_limit(canvas, &projection);
    draw_detail_status(canvas, projection.status, projection.focus == ControlFocus::Output);
}

/// What changed in the measurements, repainted.
pub open spec fn measurements_updated(
    picture: Picture,
    old_voltage: Option<u16>,
    new_voltage: Option<u16>,
    old_current: Option<u16>,
    new_current: Option<u16>,
    old_power: Option<u32>,
    new_power: Option<u32>,
) -> Picture {
    let first = if old_voltage != new_voltage {
        hero_drawn(picture, widened(new_voltage), 5, ascii("V"@))
    } else {
        picture
    };
    let second = if old_current != new_current {
        hero_drawn(first, widened(new_current), 164, ascii("A"@))
    } else {
        first
    };
    if old_power != new_power {
        power_drawn(second, new_power)
    } else {
        second
    }
}

fn update_measurements(
    canvas: &mut Canvas,
    old_voltage: Option<u16>,
    new_voltage: Option<u16>,
    old_current: Option<u16>,
    new_current: Option<u16>,
    old_power: Option<u32>,
    new_power: Option<u32>,
)
    ensures
        final(canvas).picture() == measurements_updated(
            old(canvas).picture(),
            old_voltage,
            new_voltage,
            old_current,
            new_current,
            old_power,
            new_power,
        ),
{
    if !same_measured(old_voltage, new_voltage) {
        draw_hero(canvas, widen(new_voltage), 5, "V");
    }
    if !same_measured(old_current, new_current) {
        draw_hero(canvas, widen(new_current), 164, "A");
    }
    if !same_power(old_power, new_power) {
        draw_power(canvas, new_power);
    }
}

/// What changed in the settings of a channel, repainted.
pub open spec fn settings_updated(
    picture: Picture,
    old: DetailProjection,
    new: DetailProjection,
) -> Picture {
    let first = match framed_damage(
        old.setpoint_centivolts,
        new.setpoint_centivolts,
        old.focus == ControlFocus::Voltage,
        new.focus == ControlFocus::Voltage,
    ) {
        FramedValueDamage::Frame => detail_setpoint_drawn(picture, new),
        FramedValueDamage::Value => detail_setpoint_value_drawn(picture, new),
        FramedValueDamage::Unchanged => picture,
    };
    match framed_damage(
        old.limit_centiamps,
        new.limit_centiamps,
        old.focus == ControlFocus::CurrentLimit,
        new.focus == ControlFocus::CurrentLimit,
    ) {
        FramedValueDamage::Frame => detail_limit_drawn(first, new),
        FramedValueDamage::Value => detail_limit_value_drawn(first, new),
        FramedValueDamage::Unchanged => first,
    }
}

fn update_settings(canvas: &mut Canvas, before: &DetailProjection, after: &DetailProjection)
    ensures
        final(canvas).picture() == settings_updated(old(canvas).picture(), *before, *after),
{
    match framed_value_damage(
        before.setpoint_centivolts,
        after.setpoint_centivolts,
        before.focus == ControlFocus::Voltage,
        after.focus == ControlFocus::Voltage,
    ) {
        FramedValueDamage::Frame => draw_detail_setpoint(canvas, after),
        FramedValueDamage::Value => draw_detail_setpoint_value(canvas, after),
        FramedValueDamage::Unchanged => {},
    }
    match framed_value_damage(
        before.limit_centiamps,
        after.limit_centiamps,
        before.focus == ControlFocus::CurrentLimit,
        after.focus == ControlFocus::CurrentLimit,
    ) {
        FramedValueDamage::Frame => draw_detail_limit(canvas, after),
        FramedValueDamage::Value => draw_detail_limit_value(canvas, after),
        FramedValueDamage::Unchanged => {},
    }
}

/// What changed on a channel's detail screen, repainted.
pub open spec fn detail_updated(
    picture: Picture,
    old_state: AppState,
    new_state: AppState,
    index: int,
) -> Picture {
    let old = detail_shown(old_state.channels[index], old_state.focus);
    let new = detail_shown(new_state.channels[index], new_state.focus);
    let measured = measurements_updated(
        picture,
        old.voltage_centivolts,
        new.voltage_centivolts,
        old.current_centiamps,
        new.current_centiamps,
        old.power_centiwatts,
        new.power_centiwatts,
    );
    let set = settings_updated(measured, old, new);
    let toggled = if old.status != new.status || (old.focus == ControlFocus::Output) != (new.focus
        == ControlFocus::Output) {
        detail_status_drawn(set, new.status, new.focus == ControlFocus::Output)
    } else {
        set
    };
    if index >= 3 && (old.regulation_mode != new.regulation_mode || old.regulating_current
        != new.regulating_current || (old.focus == ControlFocus::RegulationMode) != (new.focus
        == ControlFocus::RegulationMode)) {
        detail_mode_drawn(toggled, new)
    } else {
        toggled
    }
}

pub fn update_detail(canvas: &mut Canvas, before: &AppState, after: &AppState, index: usize)
    requires
        index < 5,
    ensures
        final(canvas).picture() == detail_updated(
            old(canvas).picture(),
            *before,
            *after,
            index as int,
        ),
{
    let shown_before = detail_projection(&before.channels[index], before.focus);
    let shown = detail_projection(&after.channels[index], after.focus);
    update_measurements(
        canvas,
        shown_before.voltage_centivolts,
        shown.voltage_centivolts,
        shown_before.current_centiamps,
        shown.current_centiamps,
        shown_before.power_centiwatts,
        shown.power_centiwatts,
    );
    update_settings(canvas, &shown_before, &shown);
    if shown_before.status != shown.status || (shown_before.focus == ControlFocus::Output) != (
    shown.focus == ControlFocus::Output) {
        draw_detail_status(canvas, shown.status, shown.focus == ControlFocus::Output);
    }
    if index >= 3 && (shown_before.regulation_mode != shown.regulation_mode
        || shown_before.regulating_current != shown.regulating_current || (shown_before.focus
        == ControlFocus::RegulationMode) != (shown.focus == ControlFocus::RegulationMode)) {
        draw_detail_mode(canvas, &shown);
    }
}

pub open spec fn sink_limit_value_drawn(picture: Picture, projection: SinkProjection) -> Picture {
    written(
        filled(picture, 112, 130, 98, 27, Color::Black),
        fixed2(projection.limit_centiamps as nat) + ascii("A"@),
        118,
        135,
        Font::Large10x20,
        if projection.over_limit {
            Color::Red
        } else {
            knob_color(projection.focused)
        },
    )
}

pub open spec fn sink_limit_frame_drawn(picture: Picture, projection: SinkProjection) -> Picture {
    sink_limit_value_drawn(
        setting_frame_drawn(picture, 110, 102, projection.focused),
        projection,
    )
}

fn draw_sink_limit_value(canvas: &mut Canvas, projection: &SinkProjection)
    ensures
        final(canvas).picture() == sink_limit_value_drawn(old(canvas).picture(), *projection),
{
    canvas.fill(112, 130, 98, 27, Color::Black);
    let mut text: Vec<u8> = hundredths_text(projection.limit_centiamps as u32);
    append(&mut text, "A");
    canvas.write(
        text,
        118,
        135,
        Font::Large10x20,
        if projection.over_limit {
            Color::Red
        } else {
            focus_color(projection.focused)
        },
    );
}

fn draw_sink_limit_frame(canvas: &mut Canvas, projection: &SinkProjection)
    ensures
        final(canvas).picture() == sink_limit_frame_drawn(old(canvas).picture(), *projection),
{
    draw_setting_frame(canvas, 110, 102, projection.focused);
    draw_sink_limit_value(canvas, projection);
}

/// The text of a contract: volts and amps with one decimal each.
pub open spec fn contract_label(contract: Contract) -> Seq<u8> {
    ascii("PD"@) + decimal(contract.source_position as nat) + ascii(" "@) + decimal(
        (contract.millivolts / 1_000) as nat,
    ) + ascii("."@) + decimal((contract.millivolts % 1_000 / 100) as nat) + ascii("V "@) + decimal(
        (contract.operating_milliamps / 1_000) as nat,
    ) + ascii("."@) + decimal((contract.operating_milliamps % 1_000 / 100) as nat) + ascii("A"@)
}

/// The name of a negotiation error.
pub open spec fn error_label(error: PdError) -> Seq<u8> {
    match error {
        PdError::Bus => ascii("BUS"@),
        PdError::WrongDevice => ascii("DEVICE"@),
        PdError::Detached => ascii("DETACHED"@),
        PdError::Timeout => ascii("TIMEOUT"@),
        PdError::MalformedCapabilities => ascii("CAPS"@),
        PdError::NoSuitablePdo => ascii("NO PDO"@),
        PdError::ContractMismatch => ascii("CONTRACT"@),
    }
}

/// The name of an input fault.
pub open spec fn fault_label(fault: Fault) -> Seq<u8> {
    match fault {
        Fault::Clear => ascii("OK"@),
        Fault::OverCurrent => ascii("OVERCURRENT"@),
        Fault::OverTemperature => ascii("OVERTEMP"@),
        Fault::Sensor => ascii("SENSOR"@),
        Fault::Hardware => ascii("HARDWARE"@),
    }
}

/// The text of the input's status.
pub open spec fn sink_status_label(status: SinkPdStatus) -> Seq<u8> {
    match status {
        SinkPdStatus::Idle => ascii("PD IDLE"@),
        SinkPdStatus::Negotiating => ascii("PD NEGOTIATING"@),
        SinkPdStatus::Ready(contract) => contract_label(contract),
        SinkPdStatus::Error(error) => ascii("PD ERR:"@) + error_label(error),
        SinkPdStatus::Fault(fault) => ascii("INPUT:"@) + fault_label(fault),
    }
}

/// The color of the input's status.
pub open spec fn sink_status_color(status: SinkPdStatus) -> Color {
    match status {
        SinkPdStatus::Idle => Color::Yellow,
        SinkPdStatus::Negotiating => Color::Yellow,
        SinkPdStatus::Ready(_) => Color::Green,
        _ => Color::Red,
    }
}

fn contract_text_of(contract: Contract) -> (text: Vec<u8>)
    ensures
        text@ == contract_label(contract),
{
    let mut text: Vec<u8> = label_text("PD");
    append_decimal(&mut text, contract.source_position as u32);
    append(&mut text, " ");
    append_decimal(&mut text, (contract.millivolts / 1_000) as u32);
    append(&mut text, ".");
    append_decimal(&mut text, (contract.millivolts % 1_000 / 100) as u32);
    append(&mut text, "V ");
    append_decimal(&mut text, (contract.operating_milliamps / 1_000) as u32);
    append(&mut text, ".");
    append_decimal(&mut text, (contract.operating_milliamps % 1_000 / 100) as u32);
    append(&mut text, "A");
    text
}

fn sink_status_text(status: SinkPdStatus) -> (text: Vec<u8>)
    ensures
        text@ == sink_status_label(status),
{
    match status {
        SinkPdStatus::Idle => label_text("PD IDLE"),
        SinkPdStatus::Negotiating => label_text("PD NEGOTIATING"),
        SinkPdStatus::Ready(contract) => contract_text_of(contract),
        SinkPdStatus::Error(error) => {
            let mut text: Vec<u8> = label_text("PD ERR:");
            append(
                &mut text,
                match error {
                    PdError::Bus => "BUS",
                    PdError::WrongDevice => "DEVICE",
                    PdError::Detached => "DETACHED",
                    PdError::Timeout => "TIMEOUT",
                    PdError::MalformedCapabilities => "CAPS",
                    PdError::NoSuitablePdo => "NO PDO",
                    PdError::ContractMismatch => "CONTRACT",
                },
            );
            text
        },
        SinkPdStatus::Fault(fault) => {
            let mut text: Vec<u8> = label_text("INPUT:");
            append(
                &mut text,
                match fault {
                    Fault::Clear => "OK",
                    Fault::OverCurrent => "OVERCURRENT",
                    Fault::OverTemperature => "OVERTEMP",
                    Fault::Sensor => "SENSOR",
                    Fault::Hardware => "HARDWARE",
                },
            );
            text
        },
    }
}

pub open spec fn sink_status_drawn(picture: Picture, status: SinkPdStatus) -> Picture {
    written(
        filled(picture, 214, 128, 106, 36, Color::Black),
        sink_status_label(status),
        216,
        139,
        Font::Small6x10,
        sink_status_color(status),
    )
}

fn draw_sink_pd_status(canvas: &mut Canvas, status: SinkPdStatus)
    ensures
        final(canvas).picture() == sink_status_drawn(old(canvas).picture(), status),
{
    canvas.fill(214, 128, 106, 36, Color::Black);
    let color = match status {
        SinkPdStatus::Idle | SinkPdStatus::Negotiating => Color::Yellow,
        SinkPdStatus::Ready(_) => Color::Green,
        SinkPdStatus::Error(_) | SinkPdStatus::Fault(_) => Color::Red,
    };
    canvas.write(sink_status_text(status), 216, 139, Font::Small6x10, color);
}

pub open spec fn sink_drawn(picture: Picture, state: AppState) -> Picture {
    let shown = sink_shown(state);
    let titled = temperature_drawn(
        written(
            cleared(picture, Color::Black),
            ascii("USB PD Input"@),
            4,
            1,
            Font::Large10x20,
            Color::White,
        ),
        state,
    );
    let measured = power_drawn(
        hero_drawn(
            hero_drawn(titled, widened(shown.voltage_centivolts), 5, ascii("V"@)),
            widened(shown.current_centiamps),
            164,
            ascii("A"@),
        ),
        shown.power_centiwatts,
    );
    sink_status_drawn(sink_limit_frame_drawn(measured, shown), shown.pd_status)
}

pub fn draw_usb_pd_input(canvas: &mut Canvas, state: &AppState)
    ensures
        final(canvas).picture() == sink_drawn(old(canvas).picture(), *state),
{
    let projection = sink_projection(state);
    canvas.clear(Color::Black);
    canvas.label("USB PD Input", 4, 1, Font::Large10x20, Color::White);
    draw_temperature(canvas, state);
    draw_hero(canvas, widen(projection.voltage_centivolts), 5, "V");
    draw_hero(canvas, widen(projection.current_centiamps), 164, "A");
    draw_power(canvas, projection.power_centiwatts);
    draw_sink_limit_frame(canvas, &projection);
    draw_sink_pd_status(canvas, projection.pd_status);
}

/// What changed on the input screen, repainted.
pub open spec fn sink_updated(picture: Picture, old_state: AppState, new_state: AppState) -> Picture {
    let old = sink_shown(old_state);
    let new = sink_shown(new_state);
    let measured = measurements_updated(
        picture,
        old.voltage_centivolts,
        new.voltage_centivolts,
        old.current_centiamps,
        new.current_centiamps,
        old.power_centiwatts,
        new.power_centiwatts,
    );
    let limited = if old.focused != new.focused {
        sink_limit_frame_drawn(measured, new)
    } else if old.limit_centiamps != new.limit_centiamps || old.over_limit != new.over_limit {
        sink_limit_value_drawn(measured, new)
    } else {
        measured
    };
    if old.pd_status != new.pd_status {
        sink_status_drawn(limited, new.pd_status)
    } else {
        limited
    }
}

pub fn update_sink(canvas: &mut Canvas, before: &AppState, after: &AppState)
    ensures
        final(canvas).picture() == sink_updated(old(canvas).picture(), *before, *after),
{
    let shown_before = sink_projection(before);
    let shown = sink_projection(after);
    update_measurements(
        canvas,
        shown_before.voltage_centivolts,
        shown.voltage_centivolts,
        shown_before.current_centiamps,
        shown.current_centiamps,
        shown_before.power_centiwatts,
        shown.power_centiwatts,
    );
    if shown_before.focused != shown.focused {
        draw_sink_limit_frame(canvas, &shown);
    } else if shown_before.limit_centiamps != shown.limit_centiamps || shown_before.over_limit
        != shown.over_limit {
        draw_sink_limit_value(canvas, &shown);
    }
    if shown_before.pd_status != shown.pd_status {
        draw_sink_pd_status(canvas, shown.pd_status);
    }
}

} // verus!
