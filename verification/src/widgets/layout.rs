//! The layout engine that every container shares: one pass over the
//! children, in order, that stacks them from the top down.

use vstd::prelude::*;
use crate::widgets::base::{DrawError, Drawable, Rendering, Widget};
use crate::widgets::frame::{DrawingContext, Frame};
use crate::widgets::geometry::{Point, Region, TakenRegion};

verus! {

/// Whether `available` can be moved down past `taken` without leaving pixel
/// space.
pub open spec fn fits_below(available: Region, taken: TakenRegion) -> bool {
    available.p1.y + taken.p2.y <= u32::MAX
}

/// What is offered to the next sibling: `available` with its top edge moved
/// down by the bottom coordinate of `taken`. The bottom of `taken` is added
/// as it is, not as a distance from the top of `available`. The left edge
/// and the bottom-right corner stay.
pub open spec fn below(available: Region, taken: TakenRegion) -> Region {
    Region {
        p1: Point { x: available.p1.x, y: (available.p1.y + taken.p2.y) as u32 },
        p2: available.p2,
    }
}

/// The region offered to the child at `index` when the container lays its
/// children out in `offered`: the first child gets `offered` itself, each
/// later one what is below the region its predecessor took.
pub open spec fn offered_at(children: Seq<Widget>, offered: Region, index: nat) -> Region
    decreases index,
{
    if index == 0 {
        offered
    } else {
        let before = offered_at(children, offered, (index - 1) as nat);
        below(before, children[index - 1].taken(before))
    }
}

/// What the pass over `children` does from the child at `from` on, for a
/// container that lays them out in `offered`.
///
/// Each child is drawn into the region offered to it. The pass stops at the
/// first child that fails, and at the first region that cannot be moved down
/// past what a child took. When no child is left, the container reports
/// `offered` itself: what the children took is not folded into it.
pub open spec fn stacked(
    children: Seq<Widget>,
    from: nat,
    offered: Region,
    context: DrawingContext,
) -> Rendering
    decreases children, children.len() - from,
{
    if from >= children.len() {
        Rendering { calls: Seq::empty(), result: Ok(offered) }
    } else {
        let available = offered_at(children, offered, from);
        let first = children[from as int].rendering(available, context);
        match first.result {
            Err(_) => first,
            Ok(taken) => if !fits_below(available, taken) {
                Rendering { calls: first.calls, result: Err(DrawError::CoordinateOverflow) }
            } else {
                let rest = stacked(children, from + 1, offered, context);
                Rendering { calls: first.calls + rest.calls, result: rest.result }
            },
        }
    }
}

/// The sum of the bottom coordinates of the regions that the children before
/// `index` take, each one laid out where the pass offers it.
pub open spec fn bottoms_before(children: Seq<Widget>, offered: Region, index: nat) -> int
    decreases index,
{
    if index == 0 {
        0
    } else {
        let before = (index - 1) as nat;
        bottoms_before(children, offered, before) + children[before as int].taken(
            offered_at(children, offered, before),
        ).p2.y
    }
}

/// Stacking never moves the left edge or the bottom-right corner: every
/// child is offered those of the container's own region.
pub proof fn lemma_offer_keeps_edges(children: Seq<Widget>, offered: Region, index: nat)
    ensures
        offered_at(children, offered, index).p1.x == offered.p1.x,
        offered_at(children, offered, index).p2 == offered.p2,
    decreases index,
{
    if index > 0 {
        lemma_offer_keeps_edges(children, offered, (index - 1) as nat);
    }
}

/// The top edge offered to the child at `index` lies below the container's
/// own by the sum of the bottom coordinates of the regions that the earlier
/// children took. The bottoms add up as absolute coordinates, not as
/// heights. This holds as long as that sum stays within pixel space.
pub proof fn lemma_offer_sums_bottoms(children: Seq<Widget>, offered: Region, index: nat)
    requires
        index <= children.len(),
        offered.p1.y + bottoms_before(children, offered, index) <= u32::MAX,
    ensures
        offered_at(children, offered, index).p1.y == offered.p1.y + bottoms_before(
            children,
            offered,
            index,
        ),
    decreases index,
{
    if index > 0 {
        lemma_offer_sums_bottoms(children, offered, (index - 1) as nat);
    }
}

/// A pass that succeeds reports the region the container was offered,
/// whatever the children took.
pub proof fn lemma_stacked_reports_offered(
    children: Seq<Widget>,
    from: nat,
    offered: Region,
    context: DrawingContext,
)
    ensures
        stacked(children, from, offered, context).result matches Ok(taken) ==> taken == offered,
    decreases children.len() - from,
{
    if from < children.len() {
        lemma_stacked_reports_offered(children, from + 1, offered, context);
    }
}

/// A widget that is drawn with success reports the region that its geometry
/// alone determines.
pub proof fn lemma_reports_taken(widget: Widget, offered: Region, context: DrawingContext)
    ensures
        widget.rendering(offered, context).result matches Ok(taken) ==> taken == widget.taken(
            offered,
        ),
{
    match widget {
        Widget::Screen(screen) => {
            lemma_stacked_reports_offered(screen@, 0, offered, context);
        },
        Widget::Rect(rect) => {
            lemma_stacked_reports_offered(rect@.children, 0, rect.taken(offered), context);
        },
    }
}

/// What one child adds to the top edge: after a box, the next sibling is
/// offered twice the top edge of the box plus its height, since the bottom of
/// the box is itself measured from the top of pixel space; after a screen,
/// which takes all it is offered, the bottom edge of the container's region
/// is added.
pub proof fn lemma_offer_after_child(children: Seq<Widget>, offered: Region, index: nat)
    requires
        index < children.len(),
        fits_below(
            offered_at(children, offered, index),
            children[index as int].taken(offered_at(children, offered, index)),
        ),
    ensures
        children[index as int] matches Widget::Rect(rect) ==> offered_at(
            children,
            offered,
            index,
        ).p1.y + rect@.options.height <= u32::MAX ==> offered_at(children, offered, index + 1).p1.y
            == 2 * offered_at(children, offered, index).p1.y + rect@.options.height,
        children[index as int] is Screen ==> offered_at(children, offered, index + 1).p1.y
            == offered_at(children, offered, index).p1.y + offered.p2.y,
{
    lemma_offer_keeps_edges(children, offered, index);
}

/// In a pass that succeeds from the child at `from` on, every remaining
/// child is drawn with success into the region offered to it, and no region
/// leaves pixel space: the top edges are the sums that
/// `lemma_offer_sums_bottoms` speaks of, up to and including the one that
/// follows the last child.
pub proof fn lemma_stacked_success(
    children: Seq<Widget>,
    from: nat,
    offered: Region,
    context: DrawingContext,
)
    requires
        from <= children.len(),
        offered.p1.y + bottoms_before(children, offered, from) <= u32::MAX,
        stacked(children, from, offered, context).result is Ok,
    ensures
        offered.p1.y + bottoms_before(children, offered, children.len()) <= u32::MAX,
        forall|index: int|
            from <= index < children.len() ==> (#[trigger] children[index]).rendering(
                offered_at(children, offered, index as nat),
                context,
            ).result == Ok::<TakenRegion, DrawError>(
                children[index].taken(offered_at(children, offered, index as nat)),
            ),
    decreases children.len() - from,
{
    if from < children.len() {
        let available = offered_at(children, offered, from);
        lemma_offer_sums_bottoms(children, offered, from);
        lemma_reports_taken(children[from as int], available, context);
        lemma_stacked_success(children, from + 1, offered, context);
    }
}

/// Lays `children` out in `drawing_region` and draws them into `frame`, first
/// to last. Every child is offered what is below the region its predecessor
/// took; the horizontal extent is left to the child.
///
/// On success the region reported is `drawing_region` itself.
pub fn draw_children(
    children: &Vec<Widget>,
    drawing_region: Region,
    context: &DrawingContext,
    frame: &mut Frame,
) -> (res: Result<TakenRegion, DrawError>)
    ensures
        res == stacked(children@, 0, drawing_region, *context).result,
        final(frame)@ == old(frame)@ + stacked(children@, 0, drawing_region, *context).calls,
        res matches Ok(taken) ==> taken == drawing_region,
    decreases children,
{
    let mut available_region = drawing_region;
    let mut i: usize = 0;
    while i < children.len()
        invariant
            i <= children.len(),
            available_region == offered_at(children@, drawing_region, i as nat),
            stacked(children@, 0, drawing_region, *context).result == stacked(
                children@,
                i as nat,
                drawing_region,
                *context,
            ).result,
            old(frame)@ + stacked(children@, 0, drawing_region, *context).calls == frame@
                + stacked(children@, i as nat, drawing_region, *context).calls,
        decreases children.len() - i,
    {
        let taken_region = match children[i].draw(available_region, context, frame) {
            Ok(taken_region) => taken_region,
            Err(error) => {
                return Err(error);
            },
        };
        let top = match available_region.p1.y.checked_add(taken_region.p2.y) {
            Some(top) => top,
            None => {
                return Err(DrawError::CoordinateOverflow);
            },
        };
        // Top-down only: the bottom of what was taken is added as it is.
        available_region = Region {
            p1: Point { x: available_region.p1.x, y: top },
            p2: Point { x: available_region.p2.x, y: available_region.p2.y },
        };
        i = i + 1;
    }
    Ok(drawing_region)
}

} // verus!
