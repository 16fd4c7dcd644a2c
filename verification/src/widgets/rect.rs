//! The box widget: a colored rectangle that may hold further widgets.

use vstd::prelude::*;
use crate::widgets::base::{
    BaseOptions, Container, DrawError, Drawable, Rendering, StructureError, Widget,
};
use crate::widgets::color::{parse_color, parsed_color, ColorError, Rgb};
use crate::widgets::frame::{DrawingContext, Frame, RectCall};
use crate::widgets::geometry::{Point, Region, TakenRegion};
use crate::widgets::layout::{draw_children, stacked};

verus! {

/// Whether a box of the given extent, with its top-left corner at `origin`,
/// lies within pixel space.
pub open spec fn box_fits(origin: Point, width: u32, height: u32) -> bool {
    origin.x + width <= u32::MAX && origin.y + height <= u32::MAX
}

/// The box of the given extent with its top-left corner at `origin`.
pub open spec fn box_at(origin: Point, width: u32, height: u32) -> Region {
    Region {
        p1: origin,
        p2: Point { x: (origin.x + width) as u32, y: (origin.y + height) as u32 },
    }
}

/// The color a box is filled with: what its specifier resolves to, and what
/// `"black"` resolves to when it has none.
pub open spec fn fill_color(color: Option<String>) -> Result<Rgb, ColorError> {
    match color {
        Some(code) => parsed_color(code@),
        None => parsed_color("black"@),
    }
}

/// The rectangle that a box with the given options writes into the frame
/// when its top-left corner is at `origin`.
pub open spec fn rect_call(
    origin: Point,
    options: BaseOptions,
    color: Rgb,
    context: DrawingContext,
) -> RectCall {
    let footprint = box_at(origin, options.width, options.height);
    RectCall {
        top_right: Point { x: footprint.p2.x, y: footprint.p1.y },
        bottom_right: footprint.p2,
        bottom_left: Point { x: footprint.p1.x, y: footprint.p2.y },
        top_left: footprint.p1,
        z_index: options.z_index as i32,
        usr_color: color,
        viewport: context.size,
    }
}

/// A rectangle of a fixed size and color. It is drawn at the top-left corner
/// of the region it is offered, and its children are laid out inside it.
#[derive(Debug)]
pub struct Rect {
    base_options: BaseOptions,
    children: Vec<Widget>,
    parent: Option<Box<Widget>>,
}

/// What a box is made of.
pub ghost struct RectView {
    /// The options the box was made with.
    pub options: BaseOptions,
    /// The children, in the order they were put.
    pub children: Seq<Widget>,
    /// The parent on record, if any.
    pub parent: Option<Widget>,
}

impl View for Rect {
    type V = RectView;

    closed spec fn view(&self) -> RectView {
        RectView {
            options: self.base_options,
            children: self.children@,
            parent: match self.parent {
                Some(widget) => Some(*widget),
                None => None,
            },
        }
    }
}

impl Rect {
    /// A box without children.
    pub fn new(base_options: BaseOptions, parent: Option<Widget>) -> (rect: Rect)
        ensures
            rect@ == (RectView { options: base_options, children: Seq::empty(), parent }),
    {
        let parent = match parent {
            Some(widget) => Some(Box::new(widget)),
            None => None,
        };
        Rect { base_options, children: Vec::new(), parent }
    }
}

impl Container for Rect {
    open spec fn children(&self) -> Seq<Widget> {
        self@.children
    }

    /// The options and the parent on record stay as they were.
    fn put(&mut self, item: Widget)
        ensures
            final(self)@ == (RectView { children: old(self)@.children.push(item), ..old(self)@ }),
    {
        self.children.push(item);
    }
}

impl Drawable for Rect {
    open spec fn parent(&self) -> Option<Widget> {
        self@.parent
    }

    /// A box takes its own footprint, whatever the extent of the region it
    /// was offered and whatever it holds.
    open spec fn taken(&self, offered: Region) -> TakenRegion {
        box_at(offered.p1, self@.options.width, self@.options.height)
    }

    open spec fn rendering(&self, offered: Region, context: DrawingContext) -> Rendering
        decreases self, 0nat,
    {
        let options = self@.options;
        if !box_fits(offered.p1, options.width, options.height) {
            Rendering { calls: Seq::empty(), result: Err(DrawError::CoordinateOverflow) }
        } else {
            match fill_color(options.color) {
                Err(error) => Rendering {
                    calls: Seq::empty(),
                    result: Err(DrawError::InvalidColor(error)),
                },
                Ok(color) => {
                    let inside = stacked(self@.children, 0, self.taken(offered), context);
                    Rendering {
                        calls: seq![rect_call(offered.p1, options, color, context)] + inside.calls,
                        result: inside.result,
                    }
                },
            }
        }
    }

    /// Always succeeds. The options and the children stay as they were.
    fn set_parent(&mut self, item: Widget) -> (res: Result<(), StructureError>)
        ensures
            res is Ok,
            final(self)@ == (RectView { parent: Some(item), ..old(self)@ }),
    {
        self.parent = Some(Box::new(item));
        Ok(())
    }

    /// Writes the box into `frame` as one rectangle, with its top-left corner
    /// at the top-left corner of `drawing_region`, and then draws the
    /// children inside the box.
    fn draw(&self, drawing_region: Region, context: &DrawingContext, frame: &mut Frame) -> (res:
        Result<TakenRegion, DrawError>)
        ensures
            res matches Ok(taken) ==> {
                &&& taken.p1 == drawing_region.p1
                &&& taken.p2.x == drawing_region.p1.x + self@.options.width
                &&& taken.p2.y == drawing_region.p1.y + self@.options.height
            },
        decreases self,
    {
        let opts = &self.base_options;
        let right = match drawing_region.p1.x.checked_add(opts.width) {
            Some(right) => right,
            None => {
                return Err(DrawError::CoordinateOverflow);
            },
        };
        let bottom = match drawing_region.p1.y.checked_add(opts.height) {
            Some(bottom) => bottom,
            None => {
                return Err(DrawError::CoordinateOverflow);
            },
        };
        let top_left = Point { x: drawing_region.p1.x, y: drawing_region.p1.y };
        let top_right = Point { x: right, y: drawing_region.p1.y };
        let bottom_left = Point { x: drawing_region.p1.x, y: bottom };
        let bottom_right = Point { x: right, y: bottom };

        let taken_space = Region { p1: top_left, p2: bottom_right };

        let color = match &opts.color {
            Some(color) => parse_color(color.as_str()),
            None => parse_color("black"),
        };
        let color = match color {
            Ok(color) => color,
            Err(error) => {
                return Err(DrawError::InvalidColor(error));
            },
        };

        frame.draw(
            RectCall {
                top_right,
                bottom_right,
                bottom_left,
                top_left,
                z_index: opts.z_index as i32,
                usr_color: color,
                viewport: context.size,
            },
        );

        draw_children(&self.children, taken_space, context, frame)
    }
}

/// A box reads only the top-left corner of the region it is offered: it
/// takes and draws the same whatever the extent of that region.
pub proof fn lemma_rect_ignores_offered_extent(
    rect: Rect,
    a: Region,
    b: Region,
    context: DrawingContext,
)
    requires
        a.p1 == b.p1,
    ensures
        rect.taken(a) == rect.taken(b),
        rect.rendering(a, context) == rect.rendering(b, context),
{
}

/// Layout and drawing read the extent, the z-index, the color and the
/// children of a box, and nothing else: neither the `overflow` flag nor the
/// parent on record has any part in them.
pub proof fn lemma_rendering_reads_box_and_children(
    a: Rect,
    b: Rect,
    offered: Region,
    context: DrawingContext,
)
    requires
        a@.options.width == b@.options.width,
        a@.options.height == b@.options.height,
        a@.options.z_index == b@.options.z_index,
        a@.options.color == b@.options.color,
        a@.children == b@.children,
    ensures
        a.taken(offered) == b.taken(offered),
        a.rendering(offered, context) == b.rendering(offered, context),
{
}

} // verus!
