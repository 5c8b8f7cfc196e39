//! What the banner promises: where its rectangles go on the panel, which dots of
//! a glyph are drawn, and where a line of text stands.

use crate::boot_display::{
    background, dot, dots, fill_steps, glyph, line_steps, lit, text_dots, text_start, wake_steps,
    Fill, PanelStep,
};
use vstd::prelude::*;

verus! {

/// The number that two bytes on the wire say.
pub open spec fn heard(steps: Seq<PanelStep>, at: int) -> int {
    steps[at]->Data_0 * 0x100 + steps[at + 1]->Data_0
}

/// The panel hears the columns of a rectangle, its rows from the first visible
/// one, and as many pixels as the rectangle has.
pub proof fn rectangles_are_filled_where_they_stand(area: Fill)
    requires
        area.wf(),
        area.x1 < 320,
        area.y1 < 170,
    ensures
        ({
            let steps = fill_steps(area);
            &&& steps.len() == 12
            &&& steps[0] == PanelStep::Command(0x2A)
            &&& forall|i: int| 1 <= i < 5 ==> #[trigger] steps[i] is Data
            &&& heard(steps, 1) == area.x0
            &&& heard(steps, 3) == area.x1
            &&& steps[5] == PanelStep::Command(0x2B)
            &&& forall|i: int| 6 <= i < 10 ==> #[trigger] steps[i] is Data
            &&& heard(steps, 6) == area.y0 + 35
            &&& heard(steps, 8) == area.y1 + 35
            &&& steps[10] == PanelStep::Command(0x2C)
            &&& steps[11] is Pixels
            &&& steps[11]->color == area.color
            &&& steps[11]->count == (area.x1 + 1 - area.x0) * (area.y1 + 1 - area.y0)
        }),
{
    let across = area.x1 - area.x0 + 1;
    let down = area.y1 - area.y0 + 1;
    assert(0 <= across * down <= 320 * 170) by (nonlinear_arith)
        requires
            0 <= across <= 320,
            0 <= down <= 170,
    ;
}

/// A dot is a white square of three by three pixels; the next dot to the right
/// and the next below it begin where it ends.
pub proof fn dots_tile_the_glyph(x: int, y: int, column: int, row: int)
    requires
        0 <= x <= 60_000,
        0 <= y <= 60_000,
        0 <= column < 5,
        0 <= row < 7,
    ensures
        dot(x, y, 0, 0).x0 == x,
        dot(x, y, 0, 0).y0 == y,
        dot(x, y, column, row).color == 0xffff,
        dot(x, y, column, row).x1 == dot(x, y, column, row).x0 + 2,
        dot(x, y, column, row).y1 == dot(x, y, column, row).y0 + 2,
        dot(x, y, column + 1, row).x0 == dot(x, y, column, row).x1 + 1,
        dot(x, y, column + 1, row).y0 == dot(x, y, column, row).y0,
        dot(x, y, column, row + 1).y0 == dot(x, y, column, row).y1 + 1,
        dot(x, y, column, row + 1).x0 == dot(x, y, column, row).x0,
{
}

/// The top row of a column is its lowest bit, and each row below it the next
/// bit.
pub proof fn rows_are_bits(bits: u8)
    ensures
        lit(bits, 0) == (bits % 2 == 1),
        lit(bits, 1) == (bits / 2 % 2 == 1),
        lit(bits, 2) == (bits / 4 % 2 == 1),
        lit(bits, 3) == (bits / 8 % 2 == 1),
        lit(bits, 4) == (bits / 16 % 2 == 1),
        lit(bits, 5) == (bits / 32 % 2 == 1),
        lit(bits, 6) == (bits / 64 % 2 == 1),
{
    assert((bits & 0x01 != 0) == (bits % 2 == 1) && (bits & 0x02 != 0) == (bits / 2 % 2 == 1) && (
    bits & 0x04 != 0) == (bits / 4 % 2 == 1) && (bits & 0x08 != 0) == (bits / 8 % 2 == 1) && (bits
        & 0x10 != 0) == (bits / 16 % 2 == 1) && (bits & 0x20 != 0) == (bits / 32 % 2 == 1) && (bits
        & 0x40 != 0) == (bits / 64 % 2 == 1)) by (bit_vector);
}

proof fn lemma_drawn(byte: u8, x: int, y: int, count: nat, column: int, row: int)
    requires
        0 <= column,
        0 <= row < 7,
        column * 7 + row < count,
        lit(glyph(byte)[column], row),
    ensures
        dots(byte, x, y, count).contains(dot(x, y, column, row)),
    decreases count,
{
    let before = dots(byte, x, y, (count - 1) as nat);
    let after = dots(byte, x, y, count);
    if column * 7 + row == count - 1 {
        assert((count - 1) / 7 == column && (count - 1) % 7 == row);
        assert(after.last() == dot(x, y, column, row));
    } else {
        lemma_drawn(byte, x, y, (count - 1) as nat, column, row);
        let at = choose|at: int| 0 <= at < before.len() && before[at] == dot(x, y, column, row);
        assert(after[at] == dot(x, y, column, row));
    }
}

/// Every lit dot of a glyph is drawn.
pub proof fn every_lit_dot_is_drawn(byte: u8, x: int, y: int, column: int, row: int)
    requires
        0 <= column < 5,
        0 <= row < 7,
        lit(glyph(byte)[column], row),
    ensures
        dots(byte, x, y, 35).contains(dot(x, y, column, row)),
{
    lemma_drawn(byte, x, y, 35, column, row);
}

proof fn lemma_lit(byte: u8, x: int, y: int, count: nat, at: int) -> (place: (int, int))
    requires
        0 <= at < dots(byte, x, y, count).len(),
    ensures
        0 <= place.0,
        0 <= place.1 < 7,
        place.0 * 7 + place.1 < count,
        lit(glyph(byte)[place.0], place.1),
        dots(byte, x, y, count)[at] == dot(x, y, place.0, place.1),
    decreases count,
{
    let before = dots(byte, x, y, (count - 1) as nat);
    if at < before.len() {
        lemma_lit(byte, x, y, (count - 1) as nat, at)
    } else {
        ((count - 1) / 7, (count - 1) % 7)
    }
}

/// Nothing but lit dots of the glyph is drawn.
pub proof fn only_lit_dots_are_drawn(byte: u8, x: int, y: int, at: int)
    requires
        0 <= at < dots(byte, x, y, 35).len(),
    ensures
        exists|column: int, row: int|
            0 <= column < 5 && 0 <= row < 7 && #[trigger] lit(glyph(byte)[column], row) && dots(
                byte,
                x,
                y,
                35,
            )[at] == dot(x, y, column, row),
{
    let place = lemma_lit(byte, x, y, 35, at);
    assert(lit(glyph(byte)[place.0], place.1));
}

/// Small letters look like capitals, a glyph is five columns of seven rows, and
/// what has no glyph is left blank.
pub proof fn letters_have_one_shape(letter: u8)
    ensures
        97 <= letter <= 122 ==> glyph(letter) == glyph((letter - 32) as u8),
        glyph(letter).len() == 5,
        forall|column: int| 0 <= column < 5 ==> #[trigger] glyph(letter)[column] < 128,
        letter < 48 ==> glyph(letter) == seq![0u8, 0, 0, 0, 0],
{
}

/// The letters that look the same in a mirror do so on the panel.
pub proof fn even_letters_are_even(letter: u8, column: int)
    requires
        letter == 65 || letter == 72 || letter == 73 || letter == 77 || letter == 79 || letter == 84
            || letter == 85 || letter == 86 || letter == 87,
        0 <= column < 5,
    ensures
        glyph(letter)[column] == glyph(letter)[4 - column],
        glyph(letter)[2] != 0,
{
}

/// A line of text stands in the middle, the odd pixel to its right; one that is
/// as wide as the panel begins at its left edge.
pub proof fn lines_stand_in_the_middle(length: int)
    requires
        0 <= length,
    ensures
        length <= 17 ==> {
            let left = text_start(length);
            let right = 320 - left - 18 * length;
            left <= right <= left + 1
        },
        length > 17 ==> text_start(length) == 0,
{
}

/// Each character is drawn, 18 pixels to the right of the one before it.
pub proof fn every_character_is_drawn(text: Seq<u8>, x: int, y: int, count: nat, index: int)
    requires
        0 <= index < count <= text.len(),
    ensures
        forall|at: int|
            0 <= at < dots(text[index], x + 18 * index, y, 35).len() ==> text_dots(
                text,
                x,
                y,
                count,
            ).contains(#[trigger] dots(text[index], x + 18 * index, y, 35)[at]),
    decreases count,
{
    let before = text_dots(text, x, y, (count - 1) as nat);
    let last = dots(text[count - 1], x + 18 * (count - 1), y, 35);
    let drawn = dots(text[index], x + 18 * index, y, 35);
    let after = text_dots(text, x, y, count);
    assert(after =~= before + last);
    if index < count - 1 {
        every_character_is_drawn(text, x, y, (count - 1) as nat, index);
    }
    assert forall|at: int| 0 <= at < drawn.len() implies after.contains(#[trigger] drawn[at]) by {
        if index < count - 1 {
            assert(before.contains(drawn[at]));
            let place = choose|place: int| 0 <= place < before.len() && before[place] == drawn[at];
            assert(after[place] == drawn[at]);
        } else {
            assert(after[before.len() + at] == drawn[at]);
        }
    }
}

/// A line that is no wider than the panel stays on it: 21 pixels high from where
/// it begins, and within the width.
pub proof fn lines_stay_on_the_panel(text: Seq<u8>, y: int, count: nat, at: int)
    requires
        text.len() <= 17,
        0 <= y <= 149,
        count <= text.len(),
        0 <= at < text_dots(text, text_start(text.len() as int), y, count).len(),
    ensures
        ({
            let area = text_dots(text, text_start(text.len() as int), y, count)[at];
            y <= area.y0 && area.y1 < y + 21 && area.x1 < 320 && area.wf()
        }),
    decreases count,
{
    let x = text_start(text.len() as int);
    let before = text_dots(text, x, y, (count - 1) as nat);
    if at < before.len() {
        lines_stay_on_the_panel(text, y, (count - 1) as nat, at);
    } else {
        let place = lemma_lit(text[count - 1], x + 18 * (count - 1), y, 35, at - before.len());
        assert(place.0 < 5);
    }
}

/// The background is black and covers the panel to its last pixel.
pub proof fn the_background_is_black()
    ensures
        background().color == 0,
        background().x0 == 0 && background().y0 == 0,
        fill_steps(background())[11] == (PanelStep::Pixels { color: 0, count: 54_400 }),
        background().wf(),
{
    rectangles_are_filled_where_they_stand(background());
    assert((319 + 1 - 0) * (169 + 1 - 0) == 54_400) by (nonlinear_arith);
}

/// The panel is reset and awake before it is switched on, and nothing is drawn
/// until then; a line without text draws nothing.
pub proof fn the_panel_wakes_before_it_shows(y: int, at: int)
    requires
        0 <= at < wake_steps().len(),
    ensures
        line_steps(Seq::empty(), y) == Seq::<PanelStep>::empty(),
        !(wake_steps()[at] is Pixels),
        wake_steps()[at] is Reset ==> at + 1 < wake_steps().len() && wake_steps()[at + 1] is Spin,
        wake_steps()[at] == PanelStep::Command(0x01) || wake_steps()[at] == PanelStep::Command(0x11)
            ==> wake_steps()[at + 1] == PanelStep::Spin(2_000_000),
        wake_steps()[at] == PanelStep::Command(0x3A) ==> wake_steps()[at + 1] == PanelStep::Data(
            0x55,
        ),
        wake_steps()[at] == PanelStep::Command(0x36) ==> wake_steps()[at + 1] == PanelStep::Data(
            0x60,
        ),
        exists|on: int, out: int, reset: int|
            0 <= reset < out < on < wake_steps().len() && #[trigger] wake_steps()[reset]
                == PanelStep::Command(0x01) && #[trigger] wake_steps()[out] == PanelStep::Command(
                0x11,
            ) && #[trigger] wake_steps()[on] == PanelStep::Command(0x29),
{
    assert(wake_steps()[4] == PanelStep::Command(0x01));
    assert(wake_steps()[6] == PanelStep::Command(0x11));
    assert(wake_steps()[14] == PanelStep::Command(0x29));
}

} // verus!
