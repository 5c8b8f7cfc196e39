//! The queued display: paint commands, the bounded queue between painter and
//! DMA, and the lifecycle from self test to healthy.
//!
//! The hardware itself is driven elsewhere. Each step here says what the
//! hardware has to do next.

use crate::executor::{clock_after, clock_reached};
use embedded_graphics::geometry::{Point, Size};
use embedded_graphics::primitives::Rectangle;
use vstd::prelude::*;

verus! {

pub const DISPLAY_WIDTH: u16 = 320;

pub const DISPLAY_HEIGHT: u16 = 170;

pub const COMMAND_CAPACITY: usize = 192;

pub const TRANSFER_TIMEOUT_MS: u16 = 100;

pub const DISPLAY_Y_OFFSET: u16 = 35;

/// Pixels that one DMA transfer carries.
pub const PIXELS_PER_CHUNK: u32 = 128;

/// One rectangle of one color.
#[derive(Clone, Copy, Debug, PartialEq, Eq, Structural)]
pub struct PaintCommand {
    pub x: u16,
    pub y: u16,
    pub width: u16,
    pub height: u16,
    pub color: u16,
}

impl PaintCommand {
    /// True of a rectangle that lies on the display.
    pub open spec fn wf(self) -> bool {
        &&& 1 <= self.width
        &&& 1 <= self.height
        &&& self.x + self.width <= DISPLAY_WIDTH
        &&& self.y + self.height <= DISPLAY_HEIGHT
    }

    /// The pixels of a rectangle one pixel high, from left to right.
    pub open spec fn row_pixels(self) -> Seq<(int, int, u16)> {
        Seq::new(self.width as nat, |i: int| (self.x + i, self.y as int, self.color))
    }
}

/// The pixels of a span, if there is one.
pub open spec fn span_pixels(span: Option<PaintCommand>) -> Seq<(int, int, u16)> {
    match span {
        Some(command) => command.row_pixels(),
        None => Seq::empty(),
    }
}

/// True of a point on the display.
pub open spec fn on_display(x: int, y: int) -> bool {
    0 <= x < DISPLAY_WIDTH && 0 <= y < DISPLAY_HEIGHT
}

/// Gathers pixels that follow each other into spans.
#[derive(Clone, Copy, Debug, PartialEq, Eq, Structural)]
pub struct SpanMerger {
    pub span: Option<PaintCommand>,
}

impl SpanMerger {
    pub open spec fn wf(self) -> bool {
        self.span matches Some(command) ==> command.wf() && command.height == 1
    }

    pub fn new() -> (merger: Self)
        ensures
            merger.wf(),
            merger.span is None,
    {
        SpanMerger { span: None }
    }

    /// True when a pixel goes on where the span ends.
    pub open spec fn continued_by(self, x: int, y: int, color: u16) -> bool {
        self.span matches Some(current) && current.y == y && current.color == color && current.x
            + current.width == x
    }

    /// Takes in a pixel. A pixel off the display is dropped; one that does not
    /// go on with the span releases it and starts another.
    pub fn push(&mut self, x: i32, y: i32, color: u16) -> (released: Option<PaintCommand>)
        requires
            old(self).wf(),
        ensures
            final(self).wf(),
            released matches Some(command) ==> command.wf(),
            !on_display(x as int, y as int) ==> released is None && *final(self) == *old(self),
            on_display(x as int, y as int) ==> {
                &&& released == (if old(self).continued_by(x as int, y as int, color) {
                    None
                } else {
                    old(self).span
                })
                &&& final(self).span == Some(
                    if old(self).continued_by(x as int, y as int, color) {
                        PaintCommand {
                            width: (old(self).span->Some_0.width + 1) as u16,
                            ..old(self).span->Some_0
                        }
                    } else {
                        PaintCommand { x: x as u16, y: y as u16, width: 1, height: 1, color }
                    },
                )
            },
    {
        if x < 0 || y < 0 || x >= DISPLAY_WIDTH as i32 || y >= DISPLAY_HEIGHT as i32 {
            return None;
        }
        let pixel = PaintCommand { x: x as u16, y: y as u16, width: 1, height: 1, color };
        if let Some(current) = self.span {
            if current.y == pixel.y && current.color == pixel.color && current.x + current.width
                == pixel.x {
                let mut longer: PaintCommand = current;
                longer.width = current.width + 1;
                self.span = Some(longer);
                return None;
            }
        }
        let released = self.span;
        self.span = Some(pixel);
        released
    }

    /// Releases the last span.
    pub fn finish(&mut self) -> (released: Option<PaintCommand>)
        requires
            old(self).wf(),
        ensures
            released == old(self).span,
            released matches Some(command) ==> command.wf(),
            final(self).span is None,
    {
        let released = self.span;
        self.span = None;
        released
    }
}

/// Merging loses and invents no pixel: what is released, with what is held
/// back, is what came in, in order.
pub proof fn merging_keeps_every_pixel(
    before: SpanMerger,
    x: i32,
    y: i32,
    color: u16,
    after: SpanMerger,
    released: Option<PaintCommand>,
)
    requires
        before.wf(),
        on_display(x as int, y as int),
        released == (if before.continued_by(x as int, y as int, color) {
            None
        } else {
            before.span
        }),
        after.span == Some(
            if before.continued_by(x as int, y as int, color) {
                PaintCommand {
                    width: (before.span->Some_0.width + 1) as u16,
                    ..before.span->Some_0
                }
            } else {
                PaintCommand { x: x as u16, y: y as u16, width: 1, height: 1, color }
            },
        ),
    ensures
        span_pixels(released) + span_pixels(after.span) == span_pixels(before.span).push(
            (x as int, y as int, color),
        ),
{
    assert(span_pixels(released) + span_pixels(after.span) =~= span_pixels(before.span).push(
        (x as int, y as int, color),
    ));
}

/// The larger of two numbers.
pub open spec fn larger(left: int, right: int) -> int {
    if left < right {
        right
    } else {
        left
    }
}

/// The smaller of two numbers.
pub open spec fn smaller(left: int, right: int) -> int {
    if left < right {
        left
    } else {
        right
    }
}

/// True when two rectangles, the second at the origin, share a pixel.
pub open spec fn overlap(x: int, y: int, width: int, height: int, across: int, down: int) -> bool {
    &&& width > 0
    &&& height > 0
    &&& across > 0
    &&& down > 0
    &&& x < across
    &&& y < down
    &&& x + width > 0
    &&& y + height > 0
}

/// `embedded_graphics::primitives::Rectangle::intersection` of a rectangle with
/// one at the origin: corner and size of the pixels that both hold, and no
/// pixels (a width or a height of zero) where they share none. It computes with
/// 32-bit corners, so the far corner must be one.
#[verifier::external_body]
fn intersect(x: i32, y: i32, width: u32, height: u32, across: u32, down: u32) -> (clipped: (
    i32,
    i32,
    u32,
    u32,
))
    requires
        width <= i32::MAX,
        height <= i32::MAX,
        x + width <= i32::MAX,
        y + height <= i32::MAX,
        across <= i32::MAX,
        down <= i32::MAX,
    ensures
        overlap(
            x as int,
            y as int,
            width as int,
            height as int,
            across as int,
            down as int,
        ) ==> {
            &&& clipped.0 == larger(x as int, 0)
            &&& clipped.1 == larger(y as int, 0)
            &&& clipped.2 == smaller(x + width, across as int) - larger(x as int, 0)
            &&& clipped.3 == smaller(y + height, down as int) - larger(y as int, 0)
        },
        !overlap(
            x as int,
            y as int,
            width as int,
            height as int,
            across as int,
            down as int,
        ) ==> clipped.2 == 0 || clipped.3 == 0,
{
    let area = Rectangle::new(Point::new(x, y), Size::new(width, height));
    let shared = area.intersection(&Rectangle::new(Point::zero(), Size::new(across, down)));
    (shared.top_left.x, shared.top_left.y, shared.size.width, shared.size.height)
}

/// The part of a rectangle that lies on the display, as a paint command.
pub fn clipped_fill(x: i32, y: i32, width: u32, height: u32, color: u16) -> (command: Option<
    PaintCommand,
>)
    requires
        width <= i32::MAX,
        height <= i32::MAX,
        x + width <= i32::MAX,
        y + height <= i32::MAX,
    ensures
        command is Some <==> overlap(
            x as int,
            y as int,
            width as int,
            height as int,
            DISPLAY_WIDTH as int,
            DISPLAY_HEIGHT as int,
        ),
        command matches Some(found) ==> {
            &&& found.wf()
            &&& found.color == color
            &&& found.x == larger(x as int, 0)
            &&& found.y == larger(y as int, 0)
            &&& found.x + found.width == smaller(x + width, DISPLAY_WIDTH as int)
            &&& found.y + found.height == smaller(y + height, DISPLAY_HEIGHT as int)
        },
{
    let (left, top, across, down) = intersect(
        x,
        y,
        width,
        height,
        DISPLAY_WIDTH as u32,
        DISPLAY_HEIGHT as u32,
    );
    if across == 0 || down == 0 {
        return None;
    }
    Some(
        PaintCommand {
            x: left as u16,
            y: top as u16,
            width: across as u16,
            height: down as u16,
            color,
        },
    )
}

/// What one step of a paint command sends to the display.
#[derive(Clone, Copy, Debug, PartialEq, Eq)]
pub enum PaintTransfer {
    Bytes { data_mode: bool, bytes: [u8; 4], len: u8 },
    RepeatedColor { color: u16, pixels: u32 },
    Complete,
}

/// The high byte, then the low byte, of both ends of a range.
pub open spec fn range_bytes(first: int, last: int) -> Seq<u8> {
    seq![
        (first / 0x100) as u8,
        (first % 0x100) as u8,
        (last / 0x100) as u8,
        (last % 0x100) as u8,
    ]
}

fn window_bytes(first: u16, last: u16) -> (bytes: [u8; 4])
    ensures
        bytes@ == range_bytes(first as int, last as int),
{
    let bytes: [u8; 4] = [
        (first / 0x100) as u8,
        (first % 0x100) as u8,
        (last / 0x100) as u8,
        (last % 0x100) as u8,
    ];
    assert(bytes@ =~= range_bytes(first as int, last as int));
    bytes
}

impl PaintCommand {
    /// What step `step` sends: the column window, the row window, the write
    /// command, and then the pixels.
    pub open spec fn sends(self, step: u8, transfer: PaintTransfer) -> bool {
        match step {
            0 => transfer matches PaintTransfer::Bytes { data_mode, bytes, len } && !data_mode
                && bytes[0] == 0x2a && len == 1,
            1 => transfer matches PaintTransfer::Bytes { data_mode, bytes, len } && data_mode
                && bytes@ == range_bytes(self.x as int, self.x + self.width - 1) && len == 4,
            2 => transfer matches PaintTransfer::Bytes { data_mode, bytes, len } && !data_mode
                && bytes[0] == 0x2b && len == 1,
            3 => transfer matches PaintTransfer::Bytes { data_mode, bytes, len } && data_mode
                && bytes@ == range_bytes(
                self.y + DISPLAY_Y_OFFSET,
                self.y + DISPLAY_Y_OFFSET + self.height - 1,
            ) && len == 4,
            4 => transfer matches PaintTransfer::Bytes { data_mode, bytes, len } && !data_mode
                && bytes[0] == 0x2c && len == 1,
            5 => transfer == (PaintTransfer::RepeatedColor {
                color: self.color,
                pixels: (self.width * self.height) as u32,
            }),
            _ => transfer == PaintTransfer::Complete,
        }
    }

    pub fn transfer(&self, step: u8) -> (transfer: PaintTransfer)
        requires
            self.wf(),
        ensures
            self.sends(step, transfer),
    {
        match step {
            0 => PaintTransfer::Bytes { data_mode: false, bytes: [0x2a, 0, 0, 0], len: 1 },
            1 => PaintTransfer::Bytes {
                data_mode: true,
                bytes: window_bytes(self.x, self.x + self.width - 1),
                len: 4,
            },
            2 => PaintTransfer::Bytes { data_mode: false, bytes: [0x2b, 0, 0, 0], len: 1 },
            3 => PaintTransfer::Bytes {
                data_mode: true,
                bytes: window_bytes(
                    self.y + DISPLAY_Y_OFFSET,
                    self.y + DISPLAY_Y_OFFSET + self.height - 1,
                ),
                len: 4,
            },
            4 => PaintTransfer::Bytes { data_mode: false, bytes: [0x2c, 0, 0, 0], len: 1 },
            5 => {
                assert(self.width * self.height <= 320 * 170) by (nonlinear_arith)
                    requires
                        self.width <= 320,
                        self.height <= 170,
                ;
                PaintTransfer::RepeatedColor {
                    color: self.color,
                    pixels: self.width as u32 * self.height as u32,
                }
            },
            _ => PaintTransfer::Complete,
        }
    }
}

#[derive(Clone, Copy, Debug, PartialEq, Eq, Structural)]
pub enum Lifecycle {
    Uninstalled,
    Installed,
    SelfTest,
    AwaitContinue,
    FullEnqueue,
    FullDrain,
    Healthy,
    Failed,
}

/// The display behind its queue.
pub struct QueuedDisplay {
    pub lifecycle: Lifecycle,
    pub queue: Vec<PaintCommand>,
    pub active: Option<PaintCommand>,
    pub step: u8,
    pub pixels_remaining: u32,
    pub deadline: u16,
    pub high_water: u16,
    pub overflowed: bool,
    pub failed: bool,
}

/// What a display stands for.
pub struct DisplayModel {
    pub lifecycle: Lifecycle,
    pub queue: Seq<PaintCommand>,
    pub active: Option<PaintCommand>,
    pub step: u8,
    pub pixels_remaining: u32,
    pub deadline: u16,
    pub high_water: u16,
    pub overflowed: bool,
    pub failed: bool,
}

/// What becomes of a paint command that is handed in.
#[derive(Clone, Copy, Debug, PartialEq, Eq, Structural)]
pub enum Enqueued {
    /// The display is not ready to show it.
    Ignored,
    /// It waits for its turn.
    Queued,
    /// The queue is full; it may be tried again.
    Full,
    /// The display is not installed or has failed.
    Refused,
}

/// What the hardware has to do next.
#[derive(Clone, Copy, Debug, PartialEq, Eq)]
pub enum DmaAction {
    /// Nothing.
    Rest,
    /// Select the display and send the first bytes of a command.
    Begin { transfer: PaintTransfer },
    /// Send the next bytes.
    Continue { transfer: PaintTransfer },
    /// Fill the buffer with this color, and send this many pixels of it.
    Fill { color: u16, count: u32 },
    /// Send this many more pixels of the color that is in the buffer.
    Pixels { count: u32 },
    /// Deselect the display.
    Release,
    /// Deselect the display, then begin the next command.
    ReleaseAndBegin { transfer: PaintTransfer },
    /// Stop the transfer and deselect the display.
    Abort,
}

impl DisplayModel {
    /// The display after a failure: nothing is queued or in progress any more.
    pub open spec fn broken(self) -> Self {
        DisplayModel {
            lifecycle: Lifecycle::Failed,
            queue: Seq::empty(),
            active: None,
            step: 0,
            pixels_remaining: 0,
            failed: true,
            ..self
        }
    }

    /// The display with `command` at the end of its queue.
    pub open spec fn queued(self, command: PaintCommand) -> Self {
        DisplayModel {
            queue: self.queue.push(command),
            high_water: if self.queue.len() + 1 > self.high_water {
                (self.queue.len() + 1) as u16
            } else {
                self.high_water
            },
            ..self
        }
    }

    /// The lifecycle once everything is drained.
    pub open spec fn drained(self) -> Self {
        DisplayModel {
            lifecycle: if self.active is None && self.queue.len() == 0 {
                match self.lifecycle {
                    Lifecycle::SelfTest => Lifecycle::AwaitContinue,
                    Lifecycle::FullDrain => Lifecycle::Healthy,
                    other => other,
                }
            } else {
                self.lifecycle
            },
            ..self
        }
    }

    /// The display with its next command begun.
    pub open spec fn begun(self, now: u16) -> Self {
        if self.queue.len() == 0 {
            self
        } else {
            DisplayModel {
                queue: self.queue.skip(1),
                active: Some(self.queue[0]),
                step: 0,
                deadline: clock_after(now, TRANSFER_TIMEOUT_MS),
                ..self
            }
        }
    }

    /// The display with a chunk of pixels on its way.
    pub open spec fn chunk_sent(self, now: u16) -> Self {
        DisplayModel {
            pixels_remaining: (self.pixels_remaining - self.chunk()) as u32,
            deadline: clock_after(now, TRANSFER_TIMEOUT_MS),
            ..self
        }
    }

    /// The size of the next chunk of pixels.
    pub open spec fn chunk(self) -> u32 {
        if self.pixels_remaining < PIXELS_PER_CHUNK {
            self.pixels_remaining
        } else {
            PIXELS_PER_CHUNK
        }
    }
}

impl QueuedDisplay {
    pub open spec fn model(&self) -> DisplayModel {
        DisplayModel {
            lifecycle: self.lifecycle,
            queue: self.queue@,
            active: self.active,
            step: self.step,
            pixels_remaining: self.pixels_remaining,
            deadline: self.deadline,
            high_water: self.high_water,
            overflowed: self.overflowed,
            failed: self.failed,
        }
    }

    /// The queue is bounded, and everything in it lies on the display.
    pub open spec fn wf(&self) -> bool {
        &&& self.queue@.len() <= COMMAND_CAPACITY
        &&& forall|i: int| 0 <= i < self.queue@.len() ==> (#[trigger] self.queue@[i]).wf()
        &&& self.active matches Some(command) ==> command.wf()
        &&& self.lifecycle == Lifecycle::Failed ==> self.failed
        &&& self.failed ==> self.active is None && (self.lifecycle == Lifecycle::Failed
            || self.lifecycle == Lifecycle::Installed || self.lifecycle == Lifecycle::SelfTest)
        &&& self.lifecycle == Lifecycle::Uninstalled || self.lifecycle == Lifecycle::Installed
            || self.lifecycle == Lifecycle::Failed ==> self.queue@.len() == 0
            && self.active is None
        &&& self.step <= 5
    }

    pub fn new() -> (display: Self)
        ensures
            display.wf(),
            display.model() == (DisplayModel {
                lifecycle: Lifecycle::Uninstalled,
                queue: Seq::empty(),
                active: None,
                step: 0,
                pixels_remaining: 0,
                deadline: 0,
                high_water: 0,
                overflowed: false,
                failed: false,
            }),
    {
        let display = QueuedDisplay {
            lifecycle: Lifecycle::Uninstalled,
            queue: Vec::new(),
            active: None,
            step: 0,
            pixels_remaining: 0,
            deadline: 0,
            high_water: 0,
            overflowed: false,
            failed: false,
        };
        assert(display.model().queue =~= Seq::empty());
        display
    }

    /// Hands in a command at the end of the queue, where there is room.
    fn enqueue_unchecked(&mut self, command: PaintCommand) -> (enqueued: Enqueued)
        requires
            old(self).wf(),
            command.wf(),
            old(self).lifecycle != Lifecycle::Uninstalled,
            old(self).lifecycle != Lifecycle::Installed,
            old(self).lifecycle != Lifecycle::Failed,
        ensures
            final(self).wf(),
            if old(self).queue@.len() < COMMAND_CAPACITY {
                &&& enqueued == Enqueued::Queued
                &&& final(self).model() == old(self).model().queued(command)
            } else {
                &&& enqueued == Enqueued::Full
                &&& final(self).model() == old(self).model()
            },
    {
        if self.queue.len() >= COMMAND_CAPACITY {
            return Enqueued::Full;
        }
        self.queue.push(command);
        let queued: u16 = self.queue.len() as u16;
        if queued > self.high_water {
            self.high_water = queued;
        }
        Enqueued::Queued
    }

    /// Hands in a command, after which the display is serviced. Before the self
    /// test has passed the command is ignored; a display that is not installed
    /// or has failed refuses it for good.
    pub fn enqueue(&mut self, command: PaintCommand) -> (enqueued: Enqueued)
        requires
            old(self).wf(),
            command.wf(),
        ensures
            final(self).wf(),
            match old(self).lifecycle {
                Lifecycle::Installed | Lifecycle::SelfTest | Lifecycle::AwaitContinue => {
                    &&& enqueued == Enqueued::Ignored
                    &&& final(self).model() == old(self).model()
                },
                Lifecycle::FullEnqueue | Lifecycle::FullDrain | Lifecycle::Healthy => {
                    if old(self).queue@.len() < COMMAND_CAPACITY {
                        &&& enqueued == Enqueued::Queued
                        &&& final(self).model() == old(self).model().queued(command)
                    } else {
                        &&& enqueued == Enqueued::Full
                        &&& final(self).model() == old(self).model()
                    }
                },
                _ => {
                    &&& enqueued == Enqueued::Refused
                    &&& final(self).model() == (DisplayModel {
                        lifecycle: Lifecycle::Failed,
                        failed: true,
                        ..old(self).model()
                    })
                },
            },
    {
        match self.lifecycle {
            Lifecycle::Installed | Lifecycle::SelfTest | Lifecycle::AwaitContinue => {
                Enqueued::Ignored
            },
            Lifecycle::FullEnqueue | Lifecycle::FullDrain | Lifecycle::Healthy => {
                self.enqueue_unchecked(command)
            },
            Lifecycle::Uninstalled | Lifecycle::Failed => {
                self.failed = true;
                self.lifecycle = Lifecycle::Failed;
                Enqueued::Refused
            },
        }
    }

    fn fail_locked(&mut self)
        ensures
            final(self).wf(),
            final(self).model() == old(self).model().broken(),
    {
        self.active = None;
        self.step = 0;
        self.pixels_remaining = 0;
        self.queue = Vec::new();
        self.failed = true;
        self.lifecycle = Lifecycle::Failed;
        assert(self.model().queue =~= Seq::empty());
    }

    /// Gives up after a transfer has failed.
    pub fn abort_dma(&mut self) -> (action: DmaAction)
        ensures
            final(self).wf(),
            action == DmaAction::Abort,
            final(self).model() == old(self).model().broken(),
    {
        self.fail_locked();
        DmaAction::Abort
    }

    /// Gives up when the queue has stayed full until `deadline`, or at once
    /// where the display has failed; returns whether the command may be tried
    /// again.
    pub fn wait_for_room(&mut self, now: u16, deadline: u16) -> (retry: bool)
        requires
            old(self).wf(),
        ensures
            final(self).wf(),
            retry == !(old(self).failed || clock_reached(now, deadline)),
            final(self).model() == (if retry {
                old(self).model()
            } else {
                DisplayModel { overflowed: true, ..old(self).model().broken() }
            }),
    {
        if self.failed || now.wrapping_sub(deadline) < 0x8000 {
            self.fail_locked();
            self.overflowed = true;
            return false;
        }
        true
    }

    fn mark_drain_complete_if_idle(&mut self)
        requires
            old(self).wf(),
            !old(self).failed,
        ensures
            final(self).wf(),
            final(self).model() == old(self).model().drained(),
    {
        if self.active.is_none() && self.queue.len() == 0 {
            match self.lifecycle {
                Lifecycle::SelfTest => {
                    self.lifecycle = Lifecycle::AwaitContinue;
                },
                Lifecycle::FullDrain => {
                    self.lifecycle = Lifecycle::Healthy;
                },
                _ => {},
            }
        }
    }

    /// Begins the next command, if one waits.
    fn start_next(&mut self, now: u16) -> (transfer: Option<PaintTransfer>)
        requires
            old(self).wf(),
            old(self).active is None,
            !old(self).failed,
        ensures
            final(self).wf(),
            final(self).model() == old(self).model().begun(now),
            transfer is Some <==> old(self).queue@.len() > 0,
            transfer matches Some(found) ==> old(self).queue@[0].sends(0, found),
    {
        if self.queue.len() == 0 {
            return None;
        }
        let ghost waiting = self.queue@;
        let command: PaintCommand = self.queue.remove(0);
        assert(self.queue@ =~= waiting.skip(1));
        self.active = Some(command);
        self.step = 0;
        self.deadline = now.wrapping_add(TRANSFER_TIMEOUT_MS);
        Some(command.transfer(0))
    }
}

/// Takes over an initialized display, which happens once.
pub fn install(display: &mut QueuedDisplay)
    requires
        old(display).wf(),
        old(display).lifecycle == Lifecycle::Uninstalled || old(display).lifecycle
            == Lifecycle::Failed,
    ensures
        final(display).wf(),
        final(display).model() == (DisplayModel {
            lifecycle: Lifecycle::Installed,
            ..old(display).model()
        }),
{
    display.lifecycle = Lifecycle::Installed;
}

/// The square that the self test paints.
pub open spec fn self_test_square() -> PaintCommand {
    PaintCommand { x: 128, y: 53, width: 64, height: 64, color: 0xf81f }
}

/// Begins the self test of an installed display: one square goes through the
/// whole pipeline, which is serviced next.
pub fn begin_self_test(display: &mut QueuedDisplay) -> (begun: bool)
    requires
        old(display).wf(),
    ensures
        final(display).wf(),
        begun == (old(display).lifecycle == Lifecycle::Installed),
        !begun ==> final(display).model() == old(display).model(),
        begun ==> final(display).model() == (DisplayModel {
            lifecycle: Lifecycle::SelfTest,
            ..old(display).model()
        }.queued(self_test_square())),
{
    if display.lifecycle != Lifecycle::Installed {
        return false;
    }
    display.lifecycle = Lifecycle::SelfTest;
    let _ = display.enqueue_unchecked(
        PaintCommand { x: 128, y: 53, width: 64, height: 64, color: 0xf81f },
    );
    true
}

/// Begins the first full picture, once the self test has passed.
pub fn begin_full_render(display: &mut QueuedDisplay) -> (begun: bool)
    requires
        old(display).wf(),
    ensures
        final(display).wf(),
        begun == (old(display).lifecycle == Lifecycle::AwaitContinue),
        final(display).model() == (if begun {
            DisplayModel { lifecycle: Lifecycle::FullEnqueue, ..old(display).model() }
        } else {
            old(display).model()
        }),
{
    if display.lifecycle != Lifecycle::AwaitContinue {
        return false;
    }
    display.lifecycle = Lifecycle::FullEnqueue;
    true
}

/// Ends the first full picture: the display, which is serviced next, is healthy
/// once it is drained.
pub fn finish_full_render(display: &mut QueuedDisplay)
    requires
        old(display).wf(),
    ensures
        final(display).wf(),
        final(display).model() == (if old(display).lifecycle == Lifecycle::FullEnqueue {
            DisplayModel { lifecycle: Lifecycle::FullDrain, ..old(display).model() }.drained()
        } else {
            old(display).model()
        }),
{
    if display.lifecycle == Lifecycle::FullEnqueue {
        display.lifecycle = Lifecycle::FullDrain;
        display.mark_drain_complete_if_idle();
    }
}

/// Whether the firmware may be sealed as bootable: only with a healthy
/// display.
pub fn ready_for_seal(display: &QueuedDisplay) -> (ready: bool)
    ensures
        ready == (display.lifecycle == Lifecycle::Healthy),
{
    display.lifecycle == Lifecycle::Healthy
}

pub fn has_failed(display: &QueuedDisplay) -> (failed: bool)
    ensures
        failed == display.failed,
{
    display.failed
}

/// The name of a lifecycle.
pub open spec fn lifecycle_text(lifecycle: Lifecycle) -> Seq<char> {
    match lifecycle {
        Lifecycle::Uninstalled => "UNINSTALLED"@,
        Lifecycle::Installed => "INSTALLED"@,
        Lifecycle::SelfTest => "SELFTEST"@,
        Lifecycle::AwaitContinue => "SELFTEST_OK"@,
        Lifecycle::FullEnqueue => "FULL_ENQUEUE"@,
        Lifecycle::FullDrain => "FULL_DRAIN"@,
        Lifecycle::Healthy => "HEALTHY"@,
        Lifecycle::Failed => "FAILED"@,
    }
}

pub fn lifecycle_label(display: &QueuedDisplay) -> (label: &'static str)
    ensures
        label@ == lifecycle_text(display.lifecycle),
{
    match display.lifecycle {
        Lifecycle::Uninstalled => "UNINSTALLED",
        Lifecycle::Installed => "INSTALLED",
        Lifecycle::SelfTest => "SELFTEST",
        Lifecycle::AwaitContinue => "SELFTEST_OK",
        Lifecycle::FullEnqueue => "FULL_ENQUEUE",
        Lifecycle::FullDrain => "FULL_DRAIN",
        Lifecycle::Healthy => "HEALTHY",
        Lifecycle::Failed => "FAILED",
    }
}

/// Looks after the display from the firmware loop: a transfer that is overdue
/// fails the display, and a resting display begins its next command.
pub fn service(display: &mut QueuedDisplay, now: u16) -> (action: DmaAction)
    requires
        old(display).wf(),
    ensures
        final(display).wf(),
        if old(display).lifecycle == Lifecycle::Uninstalled || old(display).failed {
            &&& action == DmaAction::Rest
            &&& final(display).model() == old(display).model()
        } else if old(display).active is Some {
            if clock_reached(now, old(display).deadline) {
                &&& action == DmaAction::Abort
                &&& final(display).model() == old(display).model().broken()
            } else {
                &&& action == DmaAction::Rest
                &&& final(display).model() == old(display).model()
            }
        } else {
            &&& final(display).model() == old(display).model().begun(now).drained()
            &&& if old(display).queue@.len() > 0 {
                action matches DmaAction::Begin { transfer } && old(display).queue@[0].sends(
                    0,
                    transfer,
                )
            } else {
                action == DmaAction::Rest
            }
        },
{
    if display.lifecycle == Lifecycle::Uninstalled || display.failed {
        return DmaAction::Rest;
    }
    if display.active.is_some() {
        if now.wrapping_sub(display.deadline) < 0x8000 {
            display.fail_locked();
            return DmaAction::Abort;
        }
        return DmaAction::Rest;
    }
    let begun = display.start_next(now);
    display.mark_drain_complete_if_idle();
    match begun {
        Some(transfer) => DmaAction::Begin { transfer },
        None => DmaAction::Rest,
    }
}

/// Goes on after a transfer has completed. A completion that nothing waits for
/// fails the display.
pub fn advance(display: &mut QueuedDisplay, now: u16) -> (action: DmaAction)
    requires
        old(display).wf(),
    ensures
        final(display).wf(),
        match old(display).active {
            None => action == DmaAction::Abort && final(display).model()
                == old(display).model().broken(),
            Some(command) => if old(display).step == 5 && old(display).pixels_remaining != 0 {
                &&& action == (DmaAction::Pixels { count: old(display).model().chunk() })
                &&& final(display).model() == old(display).model().chunk_sent(now)
            } else if old(display).step == 5 {
                let released = DisplayModel { active: None, step: 0, ..old(display).model() };
                &&& final(display).model() == released.begun(now)
                &&& if old(display).queue@.len() > 0 {
                    action matches DmaAction::ReleaseAndBegin { transfer }
                        && old(display).queue@[0].sends(0, transfer)
                } else {
                    action == DmaAction::Release
                }
            } else {
                let moved = DisplayModel {
                    step: (old(display).step + 1) as u8,
                    deadline: clock_after(now, TRANSFER_TIMEOUT_MS),
                    ..old(display).model()
                };
                if old(display).step == 4 {
                    let all = DisplayModel {
                        pixels_remaining: (command.width * command.height) as u32,
                        ..moved
                    };
                    &&& action == (DmaAction::Fill { color: command.color, count: all.chunk() })
                    &&& final(display).model() == all.chunk_sent(now)
                } else {
                    &&& action matches DmaAction::Continue { transfer } && command.sends(
                        (old(display).step + 1) as u8,
                        transfer,
                    )
                    &&& final(display).model() == moved
                }
            },
        },
{
    let command: PaintCommand = match display.active {
        Some(command) => command,
        None => {
            display.fail_locked();
            return DmaAction::Abort;
        },
    };
    if display.step == 5 {
        if display.pixels_remaining != 0 {
            let count: u32 = if display.pixels_remaining < PIXELS_PER_CHUNK {
                display.pixels_remaining
            } else {
                PIXELS_PER_CHUNK
            };
            display.pixels_remaining = display.pixels_remaining - count;
            display.deadline = now.wrapping_add(TRANSFER_TIMEOUT_MS);
            return DmaAction::Pixels { count };
        }
        display.active = None;
        display.step = 0;
        return match display.start_next(now) {
            Some(transfer) => DmaAction::ReleaseAndBegin { transfer },
            None => DmaAction::Release,
        };
    }
    display.step = display.step + 1;
    display.deadline = now.wrapping_add(TRANSFER_TIMEOUT_MS);
    let transfer: PaintTransfer = command.transfer(display.step);
    if let PaintTransfer::RepeatedColor { color, pixels } = transfer {
        let count: u32 = if pixels < PIXELS_PER_CHUNK {
            pixels
        } else {
            PIXELS_PER_CHUNK
        };
        display.pixels_remaining = pixels - count;
        return DmaAction::Fill { color, count };
    }
    DmaAction::Continue { transfer }
}

/// The queue length, its high-water mark, and whether a transfer is active,
/// the queue has overflowed, or the display has failed.
pub fn diagnostics(display: &QueuedDisplay) -> (report: (usize, u16, bool, bool, bool))
    ensures
        report.0 == display.queue@.len(),
        report.1 == display.high_water,
        report.2 == display.active is Some,
        report.3 == display.overflowed,
        report.4 == display.failed,
{
    (
        display.queue.len(),
        display.high_water,
        display.active.is_some(),
        display.overflowed,
        display.failed,
    )
}

/// A display becomes healthy only when the whole first full picture is out.
pub proof fn health_needs_a_drained_picture(before: DisplayModel)
    requires
        before.lifecycle != Lifecycle::Healthy,
        before.drained().lifecycle == Lifecycle::Healthy,
    ensures
        before.lifecycle == Lifecycle::FullDrain,
        before.active is None,
        before.queue.len() == 0,
{
}

/// A display that has failed is never sealed as good.
pub proof fn a_failed_display_is_never_sealed(display: &QueuedDisplay)
    requires
        display.wf(),
        display.failed,
    ensures
        display.lifecycle != Lifecycle::Healthy,
{
}

/// The pixels that are still to be sent after `chunks` more chunks.
pub open spec fn pixels_after(pixels: int, chunks: nat) -> int {
    if pixels <= chunks * PIXELS_PER_CHUNK {
        0
    } else {
        pixels - chunks * PIXELS_PER_CHUNK
    }
}

/// Every pixel of a command is sent: chunk by chunk the rest shrinks to nothing.
pub proof fn chunks_add_up(before: DisplayModel, now: u16, chunks: nat)
    requires
        before.pixels_remaining > 0,
    ensures
        0 < before.chunk() <= PIXELS_PER_CHUNK,
        before.chunk_sent(now).pixels_remaining + before.chunk() == before.pixels_remaining,
        pixels_after(before.chunk_sent(now).pixels_remaining as int, chunks) == pixels_after(
            before.pixels_remaining as int,
            chunks + 1,
        ),
{
    assert((chunks + 1) * PIXELS_PER_CHUNK == chunks * PIXELS_PER_CHUNK + PIXELS_PER_CHUNK)
        by (nonlinear_arith);
}

} // verus!
