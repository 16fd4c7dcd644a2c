//! What every widget is made of: the options of a box, the two capabilities
//! of a node, the node type itself, and the root of a tree.

use vstd::prelude::*;
use crate::widgets::color::ColorError;
use crate::widgets::frame::{DrawingContext, Frame, RectCall};
use crate::widgets::geometry::{Region, TakenRegion};
use crate::widgets::layout::{draw_children, stacked};
use crate::widgets::rect::{Rect, RectView};

verus! {

/// The configuration of a box widget.
#[derive(Debug)]
pub struct BaseOptions {
    /// Horizontal extent, in pixels.
    pub width: u32,
    /// Vertical extent, in pixels.
    pub height: u32,
    /// Place in the z-order: a higher index draws in front.
    pub z_index: u8,
    /// Color specifier; `None` stands for `"black"`.
    pub color: Option<String>,
    /// Reserved for clipping. Layout and drawing do not read it.
    pub overflow: bool,
}

impl Default for BaseOptions {
    /// An empty box with no color of its own, at the back of the z-order.
    fn default() -> (options: BaseOptions)
        ensures
            options.width == 0,
            options.height == 0,
            options.z_index == 0,
            options.color is None,
            !options.overflow,
    {
        BaseOptions { width: 0, height: 0, z_index: 0, color: None, overflow: false }
    }
}

/// Why a draw pass was abandoned.
#[derive(Clone, Copy, Debug, PartialEq, Eq, Structural)]
pub enum DrawError {
    /// A box carries a color specifier that does not resolve.
    InvalidColor(ColorError),
    /// A coordinate of the layout does not fit in 32 bits.
    CoordinateOverflow,
}

/// Why a change to the shape of a tree was refused.
#[derive(Clone, Copy, Debug, PartialEq, Eq, Structural)]
pub enum StructureError {
    /// A screen is the root of its tree and cannot be given a parent.
    ScreenHasNoParent,
}

/// What one draw pass does: the rectangles it writes into the frame, in
/// order, and the region it reports or the error it stops on.
pub ghost struct Rendering {
    pub calls: Seq<RectCall>,
    pub result: Result<TakenRegion, DrawError>,
}

/// A node of a widget tree.
#[derive(Debug)]
pub enum Widget {
    Screen(Screen),
    Rect(Rect),
}

/// The capability of being laid out and rendered.
pub trait Drawable: Sized {
    /// The parent on record for this node, if any.
    spec fn parent(&self) -> Option<Widget>;

    /// The region this node reports as taken when it is drawn into `offered`.
    spec fn taken(&self, offered: Region) -> TakenRegion;

    /// What drawing this node, and everything below it, into `offered` does.
    spec fn rendering(&self, offered: Region, context: DrawingContext) -> Rendering;

    /// Records `item` as the parent of this node. The record is a relation
    /// only: neither layout nor drawing consults it.
    fn set_parent(&mut self, item: Widget) -> (res: Result<(), StructureError>)
        ensures
            res is Ok ==> final(self).parent() == Some(item),
            res is Err ==> *final(self) == *old(self),
    ;

    /// Draws this node and everything below it into `frame`, within
    /// `drawing_region`, and reports the region it has taken.
    ///
    /// The rectangles come after those already in the frame. When the pass
    /// fails, the rectangles written before the failure stay in the frame.
    fn draw(&self, drawing_region: Region, context: &DrawingContext, frame: &mut Frame) -> (res:
        Result<TakenRegion, DrawError>)
        ensures
            res == self.rendering(drawing_region, *context).result,
            final(frame)@ == old(frame)@ + self.rendering(drawing_region, *context).calls,
            res matches Ok(taken) ==> taken == self.taken(drawing_region),
    ;
}

/// The capability of holding child nodes.
pub trait Container: Sized {
    /// The children of this node, in the order they were put.
    spec fn children(&self) -> Seq<Widget>;

    /// Takes ownership of `item` and makes it the last child of this node.
    fn put(&mut self, item: Widget)
        ensures
            final(self).children() == old(self).children().push(item),
    ;
}

impl Drawable for Widget {
    open spec fn parent(&self) -> Option<Widget> {
        match self {
            Widget::Screen(screen) => screen.parent(),
            Widget::Rect(rect) => rect.parent(),
        }
    }

    open spec fn taken(&self, offered: Region) -> TakenRegion {
        match self {
            Widget::Screen(screen) => screen.taken(offered),
            Widget::Rect(rect) => rect.taken(offered),
        }
    }

    open spec fn rendering(&self, offered: Region, context: DrawingContext) -> Rendering
        decreases self, 0nat,
    {
        match self {
            Widget::Screen(screen) => screen.rendering(offered, context),
            Widget::Rect(rect) => rect.rendering(offered, context),
        }
    }

    /// Fails on a screen and succeeds on a box, as the node's own
    /// `set_parent` does.
    fn set_parent(&mut self, item: Widget) -> (res: Result<(), StructureError>)
        ensures
            *old(self) is Screen ==> res == Err::<(), StructureError>(
                StructureError::ScreenHasNoParent,
            ),
            *old(self) matches Widget::Rect(before) ==> {
                &&& res is Ok
                &&& *final(self) matches Widget::Rect(after)
                &&& after@ == (RectView { parent: Some(item), ..before@ })
            },
    {
        match self {
            Widget::Screen(screen) => screen.set_parent(item),
            Widget::Rect(rect) => rect.set_parent(item),
        }
    }

    fn draw(&self, drawing_region: Region, context: &DrawingContext, frame: &mut Frame) -> (res:
        Result<TakenRegion, DrawError>)
        decreases self,
    {
        match self {
            Widget::Screen(screen) => screen.draw(drawing_region, context, frame),
            Widget::Rect(rect) => rect.draw(drawing_region, context, frame),
        }
    }
}

/// The root of a widget tree. It has no box of its own and no parent.
#[derive(Debug)]
pub struct Screen {
    children: Vec<Widget>,
}

impl View for Screen {
    type V = Seq<Widget>;

    /// A screen is its children, in the order they were put.
    closed spec fn view(&self) -> Seq<Widget> {
        self.children@
    }
}

impl Screen {
    /// A screen without children.
    pub fn new() -> (screen: Screen)
        ensures
            screen@ == Seq::<Widget>::empty(),
    {
        Screen { children: Vec::new() }
    }
}

impl Container for Screen {
    open spec fn children(&self) -> Seq<Widget> {
        self@
    }

    fn put(&mut self, item: Widget) {
        self.children.push(item)
    }
}

impl Drawable for Screen {
    open spec fn parent(&self) -> Option<Widget> {
        None
    }

    /// A screen reports all of what it was offered, whatever it holds.
    open spec fn taken(&self, offered: Region) -> TakenRegion {
        offered
    }

    open spec fn rendering(&self, offered: Region, context: DrawingContext) -> Rendering
        decreases self, 0nat,
    {
        stacked(self@, 0, offered, context)
    }

    /// Always fails: the root of a tree has no parent. The screen is left as
    /// it was.
    fn set_parent(&mut self, item: Widget) -> (res: Result<(), StructureError>)
        ensures
            res == Err::<(), StructureError>(StructureError::ScreenHasNoParent),
    {
        Err(StructureError::ScreenHasNoParent)
    }

    fn draw(&self, drawing_region: Region, context: &DrawingContext, frame: &mut Frame) -> (res:
        Result<TakenRegion, DrawError>)
        decreases self,
    {
        draw_children(&self.children, drawing_region, context, frame)
    }
}

} // verus!
