//! The placement calculator: pure functions from a run rectangle, the
//! placement policies and the ancestor transforms to the annotation node's
//! position, in both coordinate regimes.

use vstd::prelude::*;

use crate::geom::{
    div_euclid_pos, inv_transform_point, spec_inv_transform_point, spec_transform_point,
    transform_point, Affine, RectI, Vec2I, COORD_BOUND, GLOBAL_BOUND, POINT_BOUND,
};
use crate::{RubyAlign, RubyPosition};

verus! {

/// The horizontal anchor within the run's rectangle: the point over which
/// the annotation node (of width `w`) is centered.
pub open spec fn spec_anchor_x(rect: RectI, align: RubyAlign, w: int) -> int {
    match align {
        RubyAlign::Start => rect.min.x + w / 2,
        RubyAlign::Center => (rect.min.x + rect.max.x) / 2,
        RubyAlign::End => rect.max.x - w / 2,
    }
}

/// The vertical anchor within the run's rectangle: its top edge when the
/// annotation sits over the run, its bottom edge when it sits under it.
pub open spec fn spec_anchor_y(rect: RectI, position: RubyPosition) -> int {
    match position {
        RubyPosition::Over => rect.min.y as int,
        RubyPosition::Under => rect.max.y as int,
    }
}

/// The anchor point of the annotation within the block's top-left-origin
/// rectangle space.  It is a function of the run rectangle, the two
/// policies and the annotation node's width alone.
pub fn anchor_point(rect: &RectI, align: RubyAlign, position: RubyPosition, node_size: Vec2I) -> (r:
    Vec2I)
    requires
        rect.bounded(),
        node_size.size_bounded(),
    ensures
        r.x == spec_anchor_x(*rect, align, node_size.x as int),
        r.y == spec_anchor_y(*rect, position),
        -2 * COORD_BOUND <= r.x <= 2 * COORD_BOUND,
        -COORD_BOUND <= r.y <= COORD_BOUND,
{
    let half_w: i64 = div_euclid_pos(node_size.x, 2);
    let x: i64 = match align {
        RubyAlign::Start => rect.min.x + half_w,
        RubyAlign::Center => div_euclid_pos(rect.min.x + rect.max.x, 2),
        RubyAlign::End => rect.max.x - half_w,
    };
    let y: i64 = match position {
        RubyPosition::Over => rect.min.y,
        RubyPosition::Under => rect.max.y,
    };
    proof {
        crate::geom::lemma_div_pos_in_range(rect.min.x + rect.max.x, 2);
    }
    Vec2I { x, y }
}

/// The anchor point re-centered into the block's centered local space: the
/// rectangle space has its origin at the block's top-left corner, the
/// block's own space at its center.
pub open spec fn spec_center_anchor(anchor: Vec2I, content_size: Vec2I) -> (int, int) {
    (anchor.x - content_size.x / 2, anchor.y - content_size.y / 2)
}

/// Re-centers the anchor point by half the block's content size.
pub fn center_anchor(anchor: Vec2I, content_size: Vec2I) -> (r: Vec2I)
    requires
        -2 * COORD_BOUND <= anchor.x <= 2 * COORD_BOUND,
        -2 * COORD_BOUND <= anchor.y <= 2 * COORD_BOUND,
        content_size.size_bounded(),
    ensures
        (r.x as int, r.y as int) == spec_center_anchor(anchor, content_size),
        -POINT_BOUND <= r.x <= POINT_BOUND,
        -POINT_BOUND <= r.y <= POINT_BOUND,
{
    let half_x: i64 = div_euclid_pos(content_size.x, 2);
    let half_y: i64 = div_euclid_pos(content_size.y, 2);
    Vec2I { x: anchor.x - half_x, y: anchor.y - half_y }
}

/// The world-regime position of the annotation node: the centered local
/// point, flipped from the y-down layout space into the y-up world space,
/// then carried by the block's global transform.
pub open spec fn spec_world_point(block: Affine, local: (int, int)) -> (int, int) {
    spec_transform_point(block, local.0, -local.1)
}

/// Computes the world-regime position of the annotation node.
pub fn world_point(block: &Affine, local: Vec2I) -> (r: Vec2I)
    requires
        block.wf(),
        -POINT_BOUND <= local.x <= POINT_BOUND,
        -POINT_BOUND <= local.y <= POINT_BOUND,
    ensures
        (r.x as int, r.y as int) == spec_world_point(*block, (local.x as int, local.y as int)),
{
    transform_point(block, Vec2I { x: local.x, y: -local.y })
}

/// The flow-regime global point of the annotation: the centered local point
/// carried by the block's global transform (no y flip; flow layout space is
/// y-down throughout).
pub open spec fn spec_flow_global_point(block: Affine, local: (int, int)) -> (int, int) {
    spec_transform_point(block, local.0, local.1)
}

/// The flow-regime offset of the annotation node within its render parent:
/// the global point pulled back into the parent's local space, shifted from
/// the parent's centered space to its top-left-origin content space (past
/// the border insets), centered on the node's own size, and divided by the
/// render-target scale factor.  The pair is `(left, top)`.
pub open spec fn spec_flow_offset(
    parent: Affine,
    parent_size: Vec2I,
    border_tl: Vec2I,
    node_size: Vec2I,
    scale_factor: int,
    global: (int, int),
) -> (int, int) {
    let pl = spec_inv_transform_point(parent, global.0, global.1);
    let left = pl.0 + parent_size.x / 2 - border_tl.x - node_size.x / 2;
    let top = pl.1 + parent_size.y / 2 - border_tl.y - node_size.y / 2;
    (left / scale_factor, top / scale_factor)
}

/// Computes the flow-regime `(left, top)` offset of the annotation node.
pub fn flow_offset(
    parent: &Affine,
    parent_size: Vec2I,
    border_tl: Vec2I,
    node_size: Vec2I,
    scale_factor: i64,
    global: Vec2I,
) -> (r: Vec2I)
    requires
        parent.wf(),
        parent_size.size_bounded(),
        border_tl.bounded(),
        node_size.size_bounded(),
        1 <= scale_factor,
        -GLOBAL_BOUND <= global.x <= GLOBAL_BOUND,
        -GLOBAL_BOUND <= global.y <= GLOBAL_BOUND,
    ensures
        (r.x as int, r.y as int) == spec_flow_offset(
            *parent,
            parent_size,
            border_tl,
            node_size,
            scale_factor as int,
            (global.x as int, global.y as int),
        ),
{
    let pl = inv_transform_point(parent, global);
    proof {
        lemma_inv_point_in_range(*parent, global.x as int, global.y as int);
    }
    let half_pw: i64 = div_euclid_pos(parent_size.x, 2);
    let half_ph: i64 = div_euclid_pos(parent_size.y, 2);
    let half_nw: i64 = div_euclid_pos(node_size.x, 2);
    let half_nh: i64 = div_euclid_pos(node_size.y, 2);
    let left: i64 = pl.x + half_pw - border_tl.x - half_nw;
    let top: i64 = pl.y + half_ph - border_tl.y - half_nh;
    Vec2I { x: div_euclid_pos(left, scale_factor), y: div_euclid_pos(top, scale_factor) }
}

/// Pulling an in-range global point back through a well-formed transform
/// leaves a coordinate that is still comfortably inside `i64`.
proof fn lemma_inv_point_in_range(t: Affine, x: int, y: int)
    requires
        t.wf(),
        -GLOBAL_BOUND <= x <= GLOBAL_BOUND,
        -GLOBAL_BOUND <= y <= GLOBAL_BOUND,
    ensures
        ({
            let (ux, uy) = spec_inv_transform_point(t, x, y);
            -(GLOBAL_BOUND + COORD_BOUND) <= ux <= GLOBAL_BOUND + COORD_BOUND
                && -(GLOBAL_BOUND + COORD_BOUND) <= uy <= GLOBAL_BOUND + COORD_BOUND
        }),
{
    let dx = x - t.trans.x;
    let dy = y - t.trans.y;
    let b = GLOBAL_BOUND + COORD_BOUND;
    assert(-b <= dx <= b && -b <= dy <= b);
    let (rx, ry) = crate::geom::spec_rot_apply(crate::geom::spec_rot_inverse(t.rot), dx, dy);
    assert(-b <= rx <= b && -b <= ry <= b);
    crate::geom::lemma_div_pos_in_range(rx, t.scale.x as int);
    crate::geom::lemma_div_pos_in_range(ry, t.scale.y as int);
}

/// The global transform written directly to a freshly placed flow-regime
/// node when one-frame-delay elimination is on: the block's scale and
/// rotation with the computed global point as translation.
pub open spec fn spec_elimination_affine(block: Affine, global: (int, int)) -> Affine
    recommends
        -GLOBAL_BOUND <= global.0 <= GLOBAL_BOUND,
        -GLOBAL_BOUND <= global.1 <= GLOBAL_BOUND,
{
    Affine {
        scale: block.scale,
        rot: block.rot,
        trans: Vec2I { x: global.0 as i64, y: global.1 as i64 },
    }
}

/// Under an identity transform chain, the computed global point equals the
/// local anchor point unchanged, and the pull-back into the parent's local
/// space gives it back again.
pub proof fn lemma_identity_transform_round_trip(x: int, y: int)
    ensures
        spec_flow_global_point(Affine::spec_identity(), (x, y)) == (x, y),
        spec_inv_transform_point(Affine::spec_identity(), x, y) == (x, y),
{
    crate::geom::lemma_identity_transform_point(x, y);
}

} // verus!
