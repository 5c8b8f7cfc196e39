//! A picture in memory: 320 by 170 pixels of five, six and five bits of red,
//! green and blue, and its enlarged copy with eight bits each.

use crate::display_dma::{clipped_fill, on_display, DISPLAY_HEIGHT, DISPLAY_WIDTH};
use vstd::prelude::*;

verus! {

pub const WIDTH: usize = 320;

pub const HEIGHT: usize = 170;

/// How often a pixel is repeated in each direction.
pub const SCALE: usize = 2;

/// Pixels of the picture.
pub const PIXELS: usize = 54_400;

/// Bytes of the enlarged copy.
pub const RGB_BYTES: usize = 652_800;

pub struct Framebuffer {
    pub pixels: Vec<u16>,
}

/// Where a pixel stands.
pub open spec fn place(x: int, y: int) -> int {
    y * 320 + x
}

impl Framebuffer {
    pub open spec fn wf(&self) -> bool {
        self.pixels@.len() == PIXELS
    }

    /// A black picture.
    pub fn new() -> (frame: Self)
        ensures
            frame.wf(),
            forall|i: int| 0 <= i < PIXELS ==> frame.pixels@[i] == 0,
    {
        let mut pixels: Vec<u16> = Vec::new();
        let mut index: usize = 0;
        while index < PIXELS
            invariant
                index <= PIXELS,
                pixels@.len() == index,
                forall|i: int| 0 <= i < index ==> pixels@[i] == 0,
            decreases PIXELS - index,
        {
            pixels.push(0);
            index = index + 1;
        }
        Framebuffer { pixels }
    }

    /// Sets a pixel, where there is one.
    pub fn set(&mut self, x: i32, y: i32, color: u16)
        requires
            old(self).wf(),
        ensures
            final(self).wf(),
            final(self).pixels@ == (if on_display(x as int, y as int) {
                old(self).pixels@.update(place(x as int, y as int), color)
            } else {
                old(self).pixels@
            }),
    {
        if x >= 0 && y >= 0 && x < DISPLAY_WIDTH as i32 && y < DISPLAY_HEIGHT as i32 {
            let index: usize = y as usize * WIDTH + x as usize;
            self.pixels.set(index, color);
        }
    }

    /// Fills the part of a rectangle that lies in the picture.
    pub fn fill(&mut self, x: i32, y: i32, width: u32, height: u32, color: u16)
        requires
            old(self).wf(),
            width <= i32::MAX,
            height <= i32::MAX,
            x + width <= i32::MAX,
            y + height <= i32::MAX,
        ensures
            final(self).wf(),
            forall|column: int, row: int|
                on_display(column, row) ==> #[trigger] final(self).pixels@[place(column, row)] == (
                if x <= column < x + width && y <= row < y + height {
                    color
                } else {
                    old(self).pixels@[place(column, row)]
                }),
    {
        let area = match clipped_fill(x, y, width, height, color) {
            Some(area) => area,
            None => {
                return;
            },
        };
        let ghost before = self.pixels@;
        let bottom: u16 = area.y + area.height;
        let right: u16 = area.x + area.width;
        let mut row: u16 = area.y;
        while row < bottom
            invariant
                self.wf(),
                area.wf(),
                bottom == area.y + area.height,
                right == area.x + area.width,
                area.y <= row <= bottom,
                forall|column: int, line: int|
                    on_display(column, line) ==> #[trigger] self.pixels@[place(column, line)] == (
                    if area.x <= column < right && area.y <= line < row {
                        color
                    } else {
                        before[place(column, line)]
                    }),
            decreases bottom - row,
        {
            let mut column: u16 = area.x;
            while column < right
                invariant
                    self.wf(),
                    area.wf(),
                    bottom == area.y + area.height,
                    right == area.x + area.width,
                    area.y <= row < bottom,
                    area.x <= column <= right,
                    forall|at: int, line: int|
                        on_display(at, line) ==> #[trigger] self.pixels@[place(at, line)] == (
                        if area.x <= at < right && area.y <= line < row || area.x <= at < column
                            && line == row {
                            color
                        } else {
                            before[place(at, line)]
                        }),
                decreases right - column,
            {
                self.pixels.set(row as usize * WIDTH + column as usize, color);
                column = column + 1;
            }
            row = row + 1;
        }
    }

    /// The enlarged copy, three bytes per pixel.
    pub fn to_rgb(&self) -> (rgb: Vec<u8>)
        requires
            self.wf(),
        ensures
            rgb@ == enlarged(self.pixels@),
    {
        let mut rgb: Vec<u8> = Vec::new();
        let mut index: usize = 0;
        while index < 217_600
            invariant
                index <= 217_600,
                self.wf(),
                rgb@.len() == 3 * index,
                forall|i: int|
                    0 <= i < 3 * index ==> #[trigger] rgb@[i] == enlarged(self.pixels@)[i],
            decreases 217_600 - index,
        {
            let y: usize = index / 640 / SCALE;
            let x: usize = index % 640 / SCALE;
            let raw: u16 = self.pixels[y * WIDTH + x];
            let r: u8 = (raw / 2_048) as u8;
            let g: u8 = (raw / 32 % 64) as u8;
            let b: u8 = (raw % 32) as u8;
            rgb.push(r * 8 + r / 4);
            rgb.push(g * 4 + g / 16);
            rgb.push(b * 8 + b / 4);
            proof {
                let i = 3 * index as int;
                assert(source(i) == y * 320 + x);
                assert(source(i + 1) == source(i));
                assert(source(i + 2) == source(i));
            }
            index = index + 1;
        }
        assert(rgb@ =~= enlarged(self.pixels@));
        rgb
    }
}

/// The pixel that byte `index` of the enlarged copy shows.
pub open spec fn source(index: int) -> int {
    place(index / 3 % 640 / 2, index / 3 / 640 / 2)
}

/// A component of a color with eight bits: the upper bits are repeated below.
pub open spec fn component(raw: u16, which: int) -> u8 {
    if which == 0 {
        (raw / 2_048 * 8 + raw / 2_048 / 4) as u8
    } else if which == 1 {
        (raw / 32 % 64 * 4 + raw / 32 % 64 / 16) as u8
    } else {
        (raw % 32 * 8 + raw % 32 / 4) as u8
    }
}

/// The enlarged copy of a picture: each pixel twice in each direction, red,
/// green and blue in turn.
pub open spec fn enlarged(pixels: Seq<u16>) -> Seq<u8> {
    Seq::new(
        RGB_BYTES as nat,
        |i: int| component(pixels[source(i)], i % 3),
    )
}

/// Black stays black and white becomes full white.
pub proof fn extremes_survive()
    ensures
        forall|which: int| #[trigger] component(0, which) == 0,
        forall|which: int| #[trigger] component(0xffff, which) == 255,
{
}

/// The colors of a row of bytes.
pub open spec fn colors(rgb: Seq<u8>) -> Seq<(u8, u8, u8)> {
    Seq::new(
        (rgb.len() / 3) as nat,
        |i: int| (rgb[3 * i], rgb[3 * i + 1], rgb[3 * i + 2]),
    )
}

fn is_among(seen: &Vec<(u8, u8, u8)>, color: (u8, u8, u8)) -> (found: bool)
    ensures
        found == seen@.contains(color),
{
    let mut index: usize = 0;
    while index < seen.len()
        invariant
            index <= seen@.len(),
            forall|i: int| 0 <= i < index ==> seen@[i] != color,
        decreases seen@.len() - index,
    {
        let (r, g, b) = seen[index];
        if r == color.0 && g == color.1 && b == color.2 {
            assert(seen@[index as int] == color);
            return true;
        }
        index = index + 1;
    }
    false
}

/// The number of different colors.
pub fn distinct_colors(rgb: &[u8]) -> (count: usize)
    ensures
        count == colors(rgb@).to_set().len(),
{
    let total: usize = rgb.len() / 3;
    let mut seen: Vec<(u8, u8, u8)> = Vec::new();
    let mut index: usize = 0;
    proof {
        assert(colors(rgb@).take(0).to_set() =~= Set::empty());
        assert(seen@.to_set() =~= Set::empty());
    }
    while index < total
        invariant
            index <= total,
            total == rgb@.len() / 3,
            3 * total <= usize::MAX,
            seen@.no_duplicates(),
            seen@.to_set() == colors(rgb@).take(index as int).to_set(),
        decreases total - index,
    {
        let color = (rgb[3 * index], rgb[3 * index + 1], rgb[3 * index + 2]);
        let ghost all = colors(rgb@);
        let ghost before = seen@;
        let known: bool = is_among(&seen, color);
        if !known {
            seen.push(color);
        }
        proof {
            assert(all[index as int] == color);
            assert(all.take(index + 1) =~= all.take(index as int).push(color));
            assert(all.take(index + 1).to_set() =~= all.take(index as int).to_set().insert(color))
                by {
                assert forall|c: (u8, u8, u8)| #[trigger]
                    all.take(index + 1).to_set().contains(c) <==> all.take(
                    index as int,
                ).to_set().insert(color).contains(c) by {
                    lemma_pushed(all.take(index as int), color, c);
                }
            }
            if known {
                assert(before.to_set().contains(color));
                assert(before.to_set().insert(color) =~= before.to_set());
            } else {
                assert(seen@.to_set() =~= before.to_set().insert(color)) by {
                    assert forall|c: (u8, u8, u8)| #[trigger]
                        seen@.to_set().contains(c) <==> before.to_set().insert(color).contains(
                        c,
                    ) by {
                        lemma_pushed(before, color, c);
                    }
                }
            }
        }
        index = index + 1;
    }
    proof {
        assert(colors(rgb@).take(total as int) =~= colors(rgb@));
        seen@.unique_seq_to_set();
    }
    seen.len()
}

proof fn lemma_pushed(items: Seq<(u8, u8, u8)>, item: (u8, u8, u8), probe: (u8, u8, u8))
    ensures
        items.push(item).to_set().contains(probe) <==> items.to_set().contains(probe) || probe
            == item,
{
    let longer = items.push(item);
    if longer.contains(probe) && probe != item {
        let i = choose|i: int| 0 <= i < longer.len() && longer[i] == probe;
        assert(items[i] == probe);
    }
    if items.contains(probe) {
        let i = choose|i: int| 0 <= i < items.len() && items[i] == probe;
        assert(longer[i] == probe);
    }
    assert(longer[items.len() as int] == item);
}

} // verus!
