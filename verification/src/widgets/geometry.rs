//! Points and axis-aligned regions in pixel space.

use vstd::prelude::*;

verus! {

/// A position in pixel space.
#[derive(Clone, Copy, Debug, PartialEq, Eq, Structural)]
pub struct Point {
    pub x: u32,
    pub y: u32,
}

/// An axis-aligned box between two corners: `p1` is the top-left corner,
/// `p2` the bottom-right one.
///
/// The type does not enforce that `p1` lies above and to the left of `p2`.
/// A region is either the space offered to a widget or the space a widget
/// reports to have taken.
#[derive(Clone, Copy, Debug, PartialEq, Eq, Structural)]
pub struct Region {
    pub p1: Point,
    pub p2: Point,
}

/// The region a widget reports to have consumed.
pub type TakenRegion = Region;

} // verus!
