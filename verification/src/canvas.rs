//! A display list: what is to be painted, in order.

use crate::text::{append, ascii};
use vstd::prelude::*;

verus! {

#[derive(Clone, Copy, Debug, PartialEq, Eq, Structural)]
pub enum Color {
    Black,
    White,
    Cyan,
    Green,
    Red,
    Yellow,
    /// Five, six and five bits of red, green and blue.
    Rgb(u8, u8, u8),
}

/// The fonts, by the size of a character.
#[derive(Clone, Copy, Debug, PartialEq, Eq, Structural)]
pub enum Font {
    Small6x10,
    Bold8x13,
    Large10x20,
}

/// One thing to paint.
#[derive(Clone, Debug, PartialEq, Eq)]
pub enum DrawCommand {
    Clear { color: Color },
    Fill { x: i32, y: i32, width: u32, height: u32, color: Color },
    Frame { x: i32, y: i32, width: u32, height: u32, color: Color },
    Circle { x: i32, y: i32, diameter: u32, color: Color },
    Text { text: Vec<u8>, x: i32, y: i32, font: Font, color: Color },
}

/// What a command stands for.
pub enum DrawModel {
    Clear { color: Color },
    Fill { x: int, y: int, width: int, height: int, color: Color },
    Frame { x: int, y: int, width: int, height: int, color: Color },
    Circle { x: int, y: int, diameter: int, color: Color },
    Text { text: Seq<u8>, x: int, y: int, font: Font, color: Color },
}

/// A picture: what is painted, in order.
pub type Picture = Seq<DrawModel>;

/// The screen in one color.
pub open spec fn cleared(picture: Picture, color: Color) -> Picture {
    picture.push(DrawModel::Clear { color })
}

/// A filled rectangle.
pub open spec fn filled(
    picture: Picture,
    x: int,
    y: int,
    width: int,
    height: int,
    color: Color,
) -> Picture {
    picture.push(DrawModel::Fill { x, y, width, height, color })
}

/// The outline of a rectangle.
pub open spec fn framed(
    picture: Picture,
    x: int,
    y: int,
    width: int,
    height: int,
    color: Color,
) -> Picture {
    picture.push(DrawModel::Frame { x, y, width, height, color })
}

/// A filled circle, by the corner of its bounding box.
pub open spec fn circled(picture: Picture, x: int, y: int, diameter: int, color: Color) -> Picture {
    picture.push(DrawModel::Circle { x, y, diameter, color })
}

/// A line of text, by its upper left corner.
pub open spec fn written(
    picture: Picture,
    text: Seq<u8>,
    x: int,
    y: int,
    font: Font,
    color: Color,
) -> Picture {
    picture.push(DrawModel::Text { text, x, y, font, color })
}

/// A rectangle with round ends.
pub open spec fn capsuled(
    picture: Picture,
    x: int,
    y: int,
    width: int,
    height: int,
    color: Color,
) -> Picture {
    filled(
        circled(
            circled(picture, x, y, height, color),
            x + width - height,
            y,
            height,
            color,
        ),
        x + height / 2,
        y,
        width - 2 * (height / 2),
        height,
        color,
    )
}

impl DrawCommand {
    pub open spec fn model(self) -> DrawModel {
        match self {
            DrawCommand::Clear { color } => DrawModel::Clear { color },
            DrawCommand::Fill { x, y, width, height, color } => DrawModel::Fill {
                x: x as int,
                y: y as int,
                width: width as int,
                height: height as int,
                color,
            },
            DrawCommand::Frame { x, y, width, height, color } => DrawModel::Frame {
                x: x as int,
                y: y as int,
                width: width as int,
                height: height as int,
                color,
            },
            DrawCommand::Circle { x, y, diameter, color } => DrawModel::Circle {
                x: x as int,
                y: y as int,
                diameter: diameter as int,
                color,
            },
            DrawCommand::Text { text, x, y, font, color } => DrawModel::Text {
                text: text@,
                x: x as int,
                y: y as int,
                font,
                color,
            },
        }
    }
}

/// A display list under construction.
pub struct Canvas {
    pub commands: Vec<DrawCommand>,
}

impl Canvas {
    pub open spec fn picture(&self) -> Picture {
        self.commands@.map_values(|command: DrawCommand| command.model())
    }

    pub fn new() -> (canvas: Self)
        ensures
            canvas.picture() == Seq::<DrawModel>::empty(),
    {
        let canvas = Canvas { commands: Vec::new() };
        assert(canvas.picture() =~= Seq::<DrawModel>::empty());
        canvas
    }

    fn push(&mut self, command: DrawCommand)
        ensures
            final(self).picture() == old(self).picture().push(command.model()),
    {
        self.commands.push(command);
        assert(self.picture() =~= old(self).picture().push(command.model()));
    }

    pub fn clear(&mut self, color: Color)
        ensures
            final(self).picture() == cleared(old(self).picture(), color),
    {
        self.push(DrawCommand::Clear { color });
    }

    pub fn fill(&mut self, x: i32, y: i32, width: u32, height: u32, color: Color)
        ensures
            final(self).picture() == filled(
                old(self).picture(),
                x as int,
                y as int,
                width as int,
                height as int,
                color,
            ),
    {
        self.push(DrawCommand::Fill { x, y, width, height, color });
    }

    pub fn frame(&mut self, x: i32, y: i32, width: u32, height: u32, color: Color)
        ensures
            final(self).picture() == framed(
                old(self).picture(),
                x as int,
                y as int,
                width as int,
                height as int,
                color,
            ),
    {
        self.push(DrawCommand::Frame { x, y, width, height, color });
    }

    pub fn circle(&mut self, x: i32, y: i32, diameter: u32, color: Color)
        ensures
            final(self).picture() == circled(
                old(self).picture(),
                x as int,
                y as int,
                diameter as int,
                color,
            ),
    {
        self.push(DrawCommand::Circle { x, y, diameter, color });
    }

    /// Writes a text that was put together.
    pub fn write(&mut self, text: Vec<u8>, x: i32, y: i32, font: Font, color: Color)
        ensures
            final(self).picture() == written(
                old(self).picture(),
                text@,
                x as int,
                y as int,
                font,
                color,
            ),
    {
        self.push(DrawCommand::Text { text, x, y, font, color });
    }

    /// Writes a fixed text.
    pub fn label(&mut self, text: &str, x: i32, y: i32, font: Font, color: Color)
        ensures
            final(self).picture() == written(
                old(self).picture(),
                ascii(text@),
                x as int,
                y as int,
                font,
                color,
            ),
    {
        let mut bytes: Vec<u8> = Vec::new();
        append(&mut bytes, text);
        assert(bytes@ =~= ascii(text@));
        self.write(bytes, x, y, font, color);
    }

    /// Draws a rectangle with round ends.
    pub fn fill_capsule(&mut self, x: i32, y: i32, width: u32, height: u32, color: Color)
        requires
            height <= width,
            x + (width - height) <= i32::MAX,
            x + height / 2 <= i32::MAX,
        ensures
            final(self).picture() == capsuled(
                old(self).picture(),
                x as int,
                y as int,
                width as int,
                height as int,
                color,
            ),
    {
        let radius: u32 = height / 2;
        self.circle(x, y, height, color);
        let right: i64 = x as i64 + (width - height) as i64;
        self.circle(right as i32, y, height, color);
        self.fill(x + radius as i32, y, width - 2 * radius, height, color);
    }
}

} // verus!
