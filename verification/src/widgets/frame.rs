//! The frame being composed and the rectangles written into it.

use vstd::prelude::*;
use crate::widgets::color::Rgb;
use crate::widgets::geometry::Point;

verus! {

/// A size in physical pixels.
#[derive(Clone, Copy, Debug, PartialEq, Eq, Structural)]
pub struct PhysicalSize {
    pub width: u32,
    pub height: u32,
}

/// What a draw pass reads from its surroundings: the current size of the
/// viewport. It is shared, read-only, by every widget of a frame.
#[derive(Clone, Copy, Debug, PartialEq, Eq, Structural)]
pub struct DrawingContext {
    pub size: PhysicalSize,
}

/// A corner of a rectangle as the renderer takes it: `position` holds the x
/// and the y coordinate, in pixels.
#[derive(Clone, Copy, Debug, PartialEq, Eq)]
pub struct Vertex {
    pub position: [u32; 2],
}

/// One rectangle written into a frame: its four corners, its place in the
/// z-order, its color, and the viewport that its pixel coordinates are
/// projected from.
#[derive(Clone, Copy, Debug, PartialEq, Eq, Structural)]
pub struct RectCall {
    pub top_right: Point,
    pub bottom_right: Point,
    pub bottom_left: Point,
    pub top_left: Point,
    pub z_index: i32,
    pub usr_color: Rgb,
    pub viewport: PhysicalSize,
}

impl RectCall {
    /// The corners in the order the renderer takes them: top-right,
    /// bottom-right, bottom-left, top-left.
    pub fn shape(&self) -> (shape: [Vertex; 4])
        ensures
            shape[0].position@ == seq![self.top_right.x, self.top_right.y],
            shape[1].position@ == seq![self.bottom_right.x, self.bottom_right.y],
            shape[2].position@ == seq![self.bottom_left.x, self.bottom_left.y],
            shape[3].position@ == seq![self.top_left.x, self.top_left.y],
    {
        [
            Vertex { position: [self.top_right.x, self.top_right.y] },
            Vertex { position: [self.bottom_right.x, self.bottom_right.y] },
            Vertex { position: [self.bottom_left.x, self.bottom_left.y] },
            Vertex { position: [self.top_left.x, self.top_left.y] },
        ]
    }

    /// The two triangles that cover the rectangle, as indices into `shape`:
    /// top-right, bottom-right, top-left and bottom-right, bottom-left,
    /// top-left.
    pub fn indices() -> (indices: [u8; 6])
        ensures
            indices@ == seq![0u8, 1u8, 3u8, 1u8, 2u8, 3u8],
    {
        [0, 1, 3, 1, 2, 3]
    }
}

/// The frame being composed: the rectangles written so far, oldest first.
#[derive(Debug)]
pub struct Frame {
    calls: Vec<RectCall>,
}

impl View for Frame {
    type V = Seq<RectCall>;

    closed spec fn view(&self) -> Seq<RectCall> {
        self.calls@
    }
}

impl Frame {
    /// A frame into which nothing has been drawn.
    pub fn new() -> (frame: Frame)
        ensures
            frame@ == Seq::<RectCall>::empty(),
    {
        Frame { calls: Vec::new() }
    }

    /// Writes one rectangle into the frame, after those already in it.
    pub fn draw(&mut self, call: RectCall)
        ensures
            final(self)@ == old(self)@.push(call),
    {
        self.calls.push(call);
    }

    /// The rectangles written into the frame, in the order they were drawn.
    pub fn calls(&self) -> (calls: &Vec<RectCall>)
        ensures
            calls@ == self@,
    {
        &self.calls
    }
}

} // verus!
