//! Widgets, the regions they are laid out in, and the frame they draw into.

pub mod base;
pub mod color;
pub mod frame;
pub mod geometry;
pub mod layout;
pub mod rect;

pub use base::{
    BaseOptions, Container, DrawError, Drawable, Rendering, Screen, StructureError, Widget,
};
pub use color::{parse_color, ColorError, Rgb};
pub use frame::{DrawingContext, Frame, PhysicalSize, RectCall, Vertex};
pub use geometry::{Point, Region, TakenRegion};
pub use layout::draw_children;
pub use rect::Rect;
