//! A two-line banner on the panel: the window and pixel transfers, the glyphs,
//! and the layout of the text.

use vstd::prelude::*;

verus! {

pub const WIDTH: u16 = 320;

pub const HEIGHT: u16 = 170;

pub const Y_OFFSET: u16 = 35;

pub const BG: u16 = 0x0000;

pub const FG: u16 = 0xFFFF;

/// Pixels per dot of a glyph.
pub const SCALE: u16 = 3;

/// Five columns and a space.
pub const GLYPH_W: u16 = 18;

/// One transfer to the panel, or a pause.
#[derive(Clone, Copy, Debug, PartialEq, Eq, Structural)]
pub enum PanelStep {
    Command(u8),
    Data(u8),
    Pixels { color: u16, count: u32 },
    Reset { high: bool },
    Spin(u32),
}

/// A filled rectangle, both corners with it.
#[derive(Clone, Copy, Debug, PartialEq, Eq, Structural)]
pub struct Fill {
    pub x0: u16,
    pub y0: u16,
    pub x1: u16,
    pub y1: u16,
    pub color: u16,
}

impl Fill {
    pub open spec fn wf(self) -> bool {
        &&& self.x0 <= self.x1
        &&& self.y0 <= self.y1
        &&& self.y1 + Y_OFFSET <= 0xffff
    }
}

/// The four bytes of a range, each end high byte first.
pub open spec fn range_steps(first: int, last: int) -> Seq<PanelStep> {
    seq![
        PanelStep::Data((first / 0x100) as u8),
        PanelStep::Data((first % 0x100) as u8),
        PanelStep::Data((last / 0x100) as u8),
        PanelStep::Data((last % 0x100) as u8),
    ]
}

/// A rectangle is selected and filled.
pub open spec fn fill_steps(area: Fill) -> Seq<PanelStep> {
    seq![PanelStep::Command(0x2A)] + range_steps(area.x0 as int, area.x1 as int) + seq![
        PanelStep::Command(0x2B),
    ] + range_steps(area.y0 + Y_OFFSET, area.y1 + Y_OFFSET) + seq![
        PanelStep::Command(0x2C),
        PanelStep::Pixels {
            color: area.color,
            count: ((area.x1 - area.x0 + 1) * (area.y1 - area.y0 + 1)) as u32,
        },
    ]
}

fn push_range(steps: &mut Vec<PanelStep>, first: u16, last: u16)
    ensures
        final(steps)@ == old(steps)@ + range_steps(first as int, last as int),
{
    steps.push(PanelStep::Data((first / 0x100) as u8));
    steps.push(PanelStep::Data((first % 0x100) as u8));
    steps.push(PanelStep::Data((last / 0x100) as u8));
    steps.push(PanelStep::Data((last % 0x100) as u8));
    assert(steps@ =~= old(steps)@ + range_steps(first as int, last as int));
}

/// The transfers that fill a rectangle.
pub fn fill(area: Fill) -> (steps: Vec<PanelStep>)
    requires
        area.wf(),
        (area.x1 - area.x0 + 1) * (area.y1 - area.y0 + 1) <= 0xffff_ffff,
    ensures
        steps@ == fill_steps(area),
{
    let mut steps: Vec<PanelStep> = Vec::new();
    steps.push(PanelStep::Command(0x2A));
    push_range(&mut steps, area.x0, area.x1);
    steps.push(PanelStep::Command(0x2B));
    push_range(&mut steps, area.y0 + Y_OFFSET, area.y1 + Y_OFFSET);
    steps.push(PanelStep::Command(0x2C));
    let across: u32 = (area.x1 - area.x0) as u32 + 1;
    let down: u32 = (area.y1 - area.y0) as u32 + 1;
    steps.push(PanelStep::Pixels { color: area.color, count: across * down });
    assert(steps@ =~= fill_steps(area));
    steps
}

/// A byte as an upper-case letter.
pub open spec fn upper(byte: u8) -> u8 {
    if 97 <= byte <= 122 {
        (byte - 32) as u8
    } else {
        byte
    }
}

/// The five columns of a glyph, bit 0 at the top. Bytes without a glyph are
/// blank.
pub open spec fn glyph(byte: u8) -> Seq<u8> {
    match upper(byte) {
        65 => seq![0x7Eu8, 0x09, 0x09, 0x09, 0x7E],
        66 => seq![0x7Fu8, 0x49, 0x49, 0x49, 0x36],
        67 => seq![0x3Eu8, 0x41, 0x41, 0x41, 0x22],
        68 => seq![0x7Fu8, 0x41, 0x41, 0x22, 0x1C],
        69 => seq![0x7Fu8, 0x49, 0x49, 0x49, 0x41],
        70 => seq![0x7Fu8, 0x09, 0x09, 0x09, 0x01],
        71 => seq![0x3Eu8, 0x41, 0x49, 0x49, 0x7A],
        72 => seq![0x7Fu8, 0x08, 0x08, 0x08, 0x7F],
        73 => seq![0x00u8, 0x41, 0x7F, 0x41, 0x00],
        76 => seq![0x7Fu8, 0x40, 0x40, 0x40, 0x40],
        77 => seq![0x7Fu8, 0x02, 0x0C, 0x02, 0x7F],
        78 => seq![0x7Fu8, 0x04, 0x08, 0x10, 0x7F],
        79 => seq![0x3Eu8, 0x41, 0x41, 0x41, 0x3E],
        80 => seq![0x7Fu8, 0x09, 0x09, 0x09, 0x06],
        82 => seq![0x7Fu8, 0x09, 0x19, 0x29, 0x46],
        83 => seq![0x46u8, 0x49, 0x49, 0x49, 0x31],
        84 => seq![0x01u8, 0x01, 0x7F, 0x01, 0x01],
        85 => seq![0x3Fu8, 0x40, 0x40, 0x40, 0x3F],
        86 => seq![0x1Fu8, 0x20, 0x40, 0x20, 0x1F],
        87 => seq![0x3Fu8, 0x40, 0x38, 0x40, 0x3F],
        50 => seq![0x42u8, 0x61, 0x51, 0x49, 0x46],
        _ => seq![0x00u8, 0x00, 0x00, 0x00, 0x00],
    }
}

fn glyph_columns(byte: u8) -> (columns: [u8; 5])
    ensures
        columns@ == glyph(byte),
{
    let letter: u8 = if 97 <= byte && byte <= 122 {
        byte - 32
    } else {
        byte
    };
    let columns: [u8; 5] = match letter {
        65 => [0x7E, 0x09, 0x09, 0x09, 0x7E],
        66 => [0x7F, 0x49, 0x49, 0x49, 0x36],
        67 => [0x3E, 0x41, 0x41, 0x41, 0x22],
        68 => [0x7F, 0x41, 0x41, 0x22, 0x1C],
        69 => [0x7F, 0x49, 0x49, 0x49, 0x41],
        70 => [0x7F, 0x09, 0x09, 0x09, 0x01],
        71 => [0x3E, 0x41, 0x49, 0x49, 0x7A],
        72 => [0x7F, 0x08, 0x08, 0x08, 0x7F],
        73 => [0x00, 0x41, 0x7F, 0x41, 0x00],
        76 => [0x7F, 0x40, 0x40, 0x40, 0x40],
        77 => [0x7F, 0x02, 0x0C, 0x02, 0x7F],
        78 => [0x7F, 0x04, 0x08, 0x10, 0x7F],
        79 => [0x3E, 0x41, 0x41, 0x41, 0x3E],
        80 => [0x7F, 0x09, 0x09, 0x09, 0x06],
        82 => [0x7F, 0x09, 0x19, 0x29, 0x46],
        83 => [0x46, 0x49, 0x49, 0x49, 0x31],
        84 => [0x01, 0x01, 0x7F, 0x01, 0x01],
        85 => [0x3F, 0x40, 0x40, 0x40, 0x3F],
        86 => [0x1F, 0x20, 0x40, 0x20, 0x1F],
        87 => [0x3F, 0x40, 0x38, 0x40, 0x3F],
        50 => [0x42, 0x61, 0x51, 0x49, 0x46],
        _ => [0x00, 0x00, 0x00, 0x00, 0x00],
    };
    assert(columns@ =~= glyph(byte));
    columns
}

/// Whether row `row` of a column is lit.
pub open spec fn lit(bits: u8, row: int) -> bool {
    row == 0 && bits & 0x01 != 0 || row == 1 && bits & 0x02 != 0 || row == 2 && bits & 0x04 != 0
        || row == 3 && bits & 0x08 != 0 || row == 4 && bits & 0x10 != 0 || row == 5 && bits & 0x20
        != 0 || row == 6 && bits & 0x40 != 0
}

fn is_lit(bits: u8, row: u16) -> (result: bool)
    requires
        row < 7,
    ensures
        result == lit(bits, row as int),
{
    match row {
        0 => bits & 0x01 != 0,
        1 => bits & 0x02 != 0,
        2 => bits & 0x04 != 0,
        3 => bits & 0x08 != 0,
        4 => bits & 0x10 != 0,
        5 => bits & 0x20 != 0,
        _ => bits & 0x40 != 0,
    }
}

/// One dot of a glyph.
pub open spec fn dot(x: int, y: int, column: int, row: int) -> Fill {
    Fill {
        x0: (x + column * SCALE) as u16,
        y0: (y + row * SCALE) as u16,
        x1: (x + column * SCALE + SCALE - 1) as u16,
        y1: (y + row * SCALE + SCALE - 1) as u16,
        color: FG,
    }
}

/// The lit dots among the first `count` of a glyph, column by column from the
/// top.
pub open spec fn dots(byte: u8, x: int, y: int, count: nat) -> Seq<Fill>
    decreases count,
{
    if count == 0 {
        Seq::empty()
    } else {
        let before = dots(byte, x, y, (count - 1) as nat);
        let column = (count - 1) / 7;
        let row = (count - 1) % 7;
        if lit(glyph(byte)[column], row) {
            before.push(dot(x, y, column, row))
        } else {
            before
        }
    }
}

/// The dots of the first `count` characters of a text whose first glyph stands
/// at `x`.
pub open spec fn text_dots(text: Seq<u8>, x: int, y: int, count: nat) -> Seq<Fill>
    decreases count,
{
    if count == 0 {
        Seq::empty()
    } else {
        text_dots(text, x, y, (count - 1) as nat) + dots(
            text[count - 1],
            x + (count - 1) * GLYPH_W,
            y,
            35,
        )
    }
}

/// Where a text begins so that it stands in the middle.
pub open spec fn text_start(length: int) -> int {
    if length * GLYPH_W < WIDTH {
        (WIDTH - length * GLYPH_W) / 2
    } else {
        0
    }
}

/// The longest text whose width is a coordinate.
pub const MAX_TEXT: usize = 3_640;

/// The dots of a centred line of text.
pub fn draw_text(text: &[u8], y: u16) -> (fills: Vec<Fill>)
    requires
        text@.len() <= MAX_TEXT,
        y <= 65_480,
    ensures
        fills@ == text_dots(text@, text_start(text@.len() as int), y as int, text@.len()),
        forall|i: int| 0 <= i < fills@.len() ==> (#[trigger] fills@[i]).wf(),
{
    let width: u16 = text.len() as u16 * GLYPH_W;
    let left: u16 = if width < WIDTH {
        (WIDTH - width) / 2
    } else {
        0
    };
    let mut fills: Vec<Fill> = Vec::new();
    let mut index: usize = 0;
    let mut x: u16 = left;
    while index < text.len()
        invariant
            index <= text@.len() <= MAX_TEXT,
            y <= 65_480,
            left == text_start(text@.len() as int),
            left <= 160,
            x == left + index * GLYPH_W,
            fills@ == text_dots(text@, left as int, y as int, index as nat),
            forall|i: int| 0 <= i < fills@.len() ==> (#[trigger] fills@[i]).wf(),
        decreases text@.len() - index,
    {
        let byte: u8 = text[index];
        let columns: [u8; 5] = glyph_columns(byte);
        let ghost before = fills@;
        let mut cell: usize = 0;
        assert(fills@ =~= before + dots(byte, x as int, y as int, 0));
        while cell < 35
            invariant
                cell <= 35,
                y <= 65_480,
                x <= 65_502,
                columns@ == glyph(byte),
                fills@ == before + dots(byte, x as int, y as int, cell as nat),
                forall|i: int| 0 <= i < fills@.len() ==> (#[trigger] fills@[i]).wf(),
            decreases 35 - cell,
        {
            let column: u16 = (cell / 7) as u16;
            let row: u16 = (cell % 7) as u16;
            if is_lit(columns[cell / 7], row) {
                let px: u16 = x + column * SCALE;
                let py: u16 = y + row * SCALE;
                fills.push(
                    Fill { x0: px, y0: py, x1: px + SCALE - 1, y1: py + SCALE - 1, color: FG },
                );
            }
            cell = cell + 1;
            assert(fills@ =~= before + dots(byte, x as int, y as int, cell as nat));
        }
        index = index + 1;
        x = x + GLYPH_W;
    }
    fills
}

/// The transfers that wake the panel up: hardware reset, software reset, sleep
/// out, 16-bit color, landscape, inverted colors, display on.
pub open spec fn wake_steps() -> Seq<PanelStep> {
    seq![
        PanelStep::Reset { high: false },
        PanelStep::Spin(500_000),
        PanelStep::Reset { high: true },
        PanelStep::Spin(1_000_000),
        PanelStep::Command(0x01),
        PanelStep::Spin(2_000_000),
        PanelStep::Command(0x11),
        PanelStep::Spin(2_000_000),
        PanelStep::Command(0x3A),
        PanelStep::Data(0x55),
        PanelStep::Command(0x36),
        PanelStep::Data(0x60),
        PanelStep::Command(0x21),
        PanelStep::Command(0x13),
        PanelStep::Command(0x29),
        PanelStep::Spin(500_000),
    ]
}

/// The whole panel in the background color.
pub open spec fn background() -> Fill {
    Fill { x0: 0, y0: 0, x1: 319, y1: 169, color: BG }
}

/// Rectangles one after the other.
pub open spec fn all_fill_steps(fills: Seq<Fill>) -> Seq<PanelStep>
    decreases fills.len(),
{
    if fills.len() == 0 {
        Seq::empty()
    } else {
        all_fill_steps(fills.drop_last()) + fill_steps(fills.last())
    }
}

fn push_fills(steps: &mut Vec<PanelStep>, fills: &Vec<Fill>)
    requires
        forall|i: int| 0 <= i < fills@.len() ==> (#[trigger] fills@[i]).wf(),
        forall|i: int|
            0 <= i < fills@.len() ==> (#[trigger] fills@[i]).x1 - fills@[i].x0 + 1 <= 320
                && fills@[i].y1 - fills@[i].y0 + 1 <= 170,
    ensures
        final(steps)@ == old(steps)@ + all_fill_steps(fills@),
{
    let ghost before = steps@;
    let mut index: usize = 0;
    assert(fills@.take(0) =~= Seq::<Fill>::empty());
    assert(steps@ =~= before + all_fill_steps(fills@.take(0)));
    while index < fills.len()
        invariant
            index <= fills@.len(),
            forall|i: int| 0 <= i < fills@.len() ==> (#[trigger] fills@[i]).wf(),
            forall|i: int|
                0 <= i < fills@.len() ==> (#[trigger] fills@[i]).x1 - fills@[i].x0 + 1 <= 320
                    && fills@[i].y1 - fills@[i].y0 + 1 <= 170,
            steps@ == before + all_fill_steps(fills@.take(index as int)),
        decreases fills@.len() - index,
    {
        let area: Fill = fills[index];
        assert((area.x1 - area.x0 + 1) * (area.y1 - area.y0 + 1) <= 320 * 170) by (nonlinear_arith)
            requires
                0 <= area.x1 - area.x0 + 1 <= 320,
                0 <= area.y1 - area.y0 + 1 <= 170,
        ;
        let mut more = fill(area);
        steps.append(&mut more);
        index = index + 1;
        proof {
            let longer = fills@.take(index as int);
            assert(longer.drop_last() =~= fills@.take(index - 1));
            assert(longer.last() == area);
            assert(steps@ =~= before + all_fill_steps(longer));
        }
    }
    assert(fills@.take(index as int) =~= fills@);
}

proof fn lemma_dots_are_small(byte: u8, x: int, y: int, count: nat, index: int)
    requires
        0 <= x <= 65_502,
        0 <= y <= 65_480,
        count <= 35,
        0 <= index < dots(byte, x, y, count).len(),
    ensures
        dots(byte, x, y, count)[index].x1 - dots(byte, x, y, count)[index].x0 == 2,
        dots(byte, x, y, count)[index].y1 - dots(byte, x, y, count)[index].y0 == 2,
    decreases count,
{
    if count > 0 {
        let before = dots(byte, x, y, (count - 1) as nat);
        if index < before.len() {
            lemma_dots_are_small(byte, x, y, (count - 1) as nat, index);
        }
    }
}

proof fn lemma_text_dots_are_small(text: Seq<u8>, x: int, y: int, count: nat, index: int)
    requires
        x == text_start(text.len() as int),
        0 <= y <= 65_480,
        count <= text.len() <= MAX_TEXT,
        0 <= index < text_dots(text, x, y, count).len(),
    ensures
        text_dots(text, x, y, count)[index].x1 - text_dots(text, x, y, count)[index].x0 == 2,
        text_dots(text, x, y, count)[index].y1 - text_dots(text, x, y, count)[index].y0 == 2,
    decreases count,
{
    if count > 0 {
        let before = text_dots(text, x, y, (count - 1) as nat);
        let last = dots(text[count - 1], x + (count - 1) * GLYPH_W, y, 35);
        if index < before.len() {
            lemma_text_dots_are_small(text, x, y, (count - 1) as nat, index);
        } else {
            lemma_dots_are_small(
                text[count - 1],
                x + (count - 1) * GLYPH_W,
                y,
                35,
                index - before.len(),
            );
        }
    }
}

/// The transfers of a line of text.
pub open spec fn line_steps(text: Seq<u8>, y: int) -> Seq<PanelStep> {
    all_fill_steps(text_dots(text, text_start(text.len() as int), y, text.len()))
}

fn push_line(steps: &mut Vec<PanelStep>, text: &[u8], y: u16)
    requires
        text@.len() <= MAX_TEXT,
        y <= 65_480,
    ensures
        final(steps)@ == old(steps)@ + line_steps(text@, y as int),
{
    let fills = draw_text(text, y);
    assert forall|i: int| 0 <= i < fills@.len() implies (#[trigger] fills@[i]).x1 - fills@[i].x0 + 1
        <= 320 && fills@[i].y1 - fills@[i].y0 + 1 <= 170 by {
        lemma_text_dots_are_small(
            text@,
            text_start(text@.len() as int),
            y as int,
            text@.len(),
            i,
        );
    }
    push_fills(steps, &fills);
}

/// The transfers that show a two-line banner on a panel whose pins are set up.
pub fn banner(line1: &[u8], line2: &[u8]) -> (steps: Vec<PanelStep>)
    requires
        line1@.len() <= MAX_TEXT,
        line2@.len() <= MAX_TEXT,
    ensures
        steps@ == wake_steps() + fill_steps(background()) + line_steps(line1@, 50) + line_steps(
            line2@,
            100,
        ),
{
    let mut steps: Vec<PanelStep> = vec![
        PanelStep::Reset { high: false },
        PanelStep::Spin(500_000),
        PanelStep::Reset { high: true },
        PanelStep::Spin(1_000_000),
        PanelStep::Command(0x01),
        PanelStep::Spin(2_000_000),
        PanelStep::Command(0x11),
        PanelStep::Spin(2_000_000),
        PanelStep::Command(0x3A),
        PanelStep::Data(0x55),
        PanelStep::Command(0x36),
        PanelStep::Data(0x60),
        PanelStep::Command(0x21),
        PanelStep::Command(0x13),
        PanelStep::Command(0x29),
        PanelStep::Spin(500_000),
    ];
    assert(steps@ =~= wake_steps());
    assert((319 - 0 + 1) * (169 - 0 + 1) == 54_400) by (nonlinear_arith);
    let mut whole = fill(Fill { x0: 0, y0: 0, x1: WIDTH - 1, y1: HEIGHT - 1, color: BG });
    steps.append(&mut whole);
    push_line(&mut steps, line1, 50);
    push_line(&mut steps, line2, 100);
    steps
}

} // verus!
