//! Exact integer geometry for the placement engine.
//!
//! Coordinates are `i64` values in fixed layout units.  An affine transform
//! is a non-uniform positive scale followed by a quarter-turn rotation
//! followed by a translation, so applying a transform, and applying the
//! inverse of a transform, are exact integer computations.  Division is
//! Euclidean (the remainder is never negative), matching the mathematical
//! `/` of specifications.

use vstd::prelude::*;

verus! {

/// Bound on every raw scene coordinate (sizes, rectangle corners, scale
/// components, translations).  Keeping inputs within this bound keeps every
/// intermediate product of the placement algorithm inside `i64`.
pub const COORD_BOUND: i64 = 0x4000_0000;

/// Bound on anchor and block-local points: a coordinate plus half a size
/// stays within twice the coordinate bound, with room to spare.
pub const POINT_BOUND: i64 = 0x1_0000_0000;

/// Bound on globally transformed points: a scaled point plus a translation.
pub const GLOBAL_BOUND: i64 = 0x4000_4000_0000_0000;

/// A point or size in the plane.
#[derive(Clone, Copy, Debug, PartialEq, Eq, Structural)]
pub struct Vec2I {
    pub x: i64,
    pub y: i64,
}

impl Vec2I {
    /// Both coordinates are within the raw coordinate bound.
    pub open spec fn bounded(self) -> bool {
        -COORD_BOUND <= self.x <= COORD_BOUND && -COORD_BOUND <= self.y <= COORD_BOUND
    }

    /// Both coordinates are nonnegative and within the coordinate bound;
    /// this is the shape of a size.
    pub open spec fn size_bounded(self) -> bool {
        0 <= self.x <= COORD_BOUND && 0 <= self.y <= COORD_BOUND
    }

    /// The origin; also the zero size.
    pub fn zero() -> (r: Self)
        ensures
            r == (Vec2I { x: 0, y: 0 }),
    {
        Vec2I { x: 0, y: 0 }
    }
}

/// An axis-aligned rectangle given by two corners, in a space whose y axis
/// grows downward; `min` is the top-left corner.
#[derive(Clone, Copy, Debug, PartialEq, Eq, Structural)]
pub struct RectI {
    pub min: Vec2I,
    pub max: Vec2I,
}

impl RectI {
    /// Both corners are within the raw coordinate bound.
    pub open spec fn bounded(self) -> bool {
        self.min.bounded() && self.max.bounded()
    }

    /// The zero-size rectangle at the origin: the fallback for a run that
    /// the shaping output does not mention this frame.
    pub fn zero() -> (r: Self)
        ensures
            r == (RectI { min: Vec2I { x: 0, y: 0 }, max: Vec2I { x: 0, y: 0 } }),
    {
        RectI { min: Vec2I { x: 0, y: 0 }, max: Vec2I { x: 0, y: 0 } }
    }
}

/// A quarter-turn rotation, counted counterclockwise in a y-up plane.
#[derive(Clone, Copy, Debug, PartialEq, Eq, Structural)]
pub enum Rot {
    R0,
    R90,
    R180,
    R270,
}

/// The image of the point `(x, y)` under the rotation.
pub open spec fn spec_rot_apply(r: Rot, x: int, y: int) -> (int, int) {
    match r {
        Rot::R0 => (x, y),
        Rot::R90 => (-y, x),
        Rot::R180 => (-x, -y),
        Rot::R270 => (y, -x),
    }
}

/// The rotation that undoes the given one.
pub open spec fn spec_rot_inverse(r: Rot) -> Rot {
    match r {
        Rot::R0 => Rot::R0,
        Rot::R90 => Rot::R270,
        Rot::R180 => Rot::R180,
        Rot::R270 => Rot::R90,
    }
}

/// Applies a quarter-turn rotation to a point.
pub fn rot_apply(r: Rot, v: Vec2I) -> (out: Vec2I)
    requires
        i64::MIN < v.x,
        i64::MIN < v.y,
    ensures
        (out.x as int, out.y as int) == spec_rot_apply(r, v.x as int, v.y as int),
{
    match r {
        Rot::R0 => Vec2I { x: v.x, y: v.y },
        Rot::R90 => Vec2I { x: -v.y, y: v.x },
        Rot::R180 => Vec2I { x: -v.x, y: -v.y },
        Rot::R270 => Vec2I { x: v.y, y: -v.x },
    }
}

/// The rotation that undoes the given one.
pub fn rot_inverse(r: Rot) -> (out: Rot)
    ensures
        out == spec_rot_inverse(r),
{
    match r {
        Rot::R0 => Rot::R0,
        Rot::R90 => Rot::R270,
        Rot::R180 => Rot::R180,
        Rot::R270 => Rot::R90,
    }
}

/// Euclidean division by a positive divisor (the quotient is the floor of
/// the exact quotient), as an executable function.
pub fn div_euclid_pos(a: i64, d: i64) -> (q: i64)
    requires
        1 <= d,
    ensures
        q == a as int / d as int,
{
    proof {
        lemma_div_pos_in_range(a as int, d as int);
    }
    match a.checked_div_euclid(d) {
        Some(q) => q,
        None => {
            proof {
                assert(false);
            }
            0
        },
    }
}

/// Euclidean division of an `i64` by a positive divisor never leaves the
/// `i64` range.
pub proof fn lemma_div_pos_in_range(a: int, d: int)
    requires
        i64::MIN <= a <= i64::MAX,
        1 <= d,
    ensures
        i64::MIN <= a / d <= i64::MAX,
        a >= 0 ==> 0 <= a / d <= a,
        a < 0 ==> a <= a / d <= 0,
{
    if a >= 0 {
        assert(0 <= a / d <= a) by (nonlinear_arith)
            requires
                a >= 0 && d >= 1,
        ;
    } else {
        assert(a <= a / d <= 0) by (nonlinear_arith)
            requires
                a < 0 && d >= 1,
        ;
    }
}

/// An affine transform of the plane: a non-uniform positive scale, then a
/// quarter-turn rotation, then a translation.
#[derive(Clone, Copy, Debug, PartialEq, Eq, Structural)]
pub struct Affine {
    /// Per-axis scale factors, applied first.
    pub scale: Vec2I,
    /// Quarter-turn rotation, applied second.
    pub rot: Rot,
    /// Translation, applied last.
    pub trans: Vec2I,
}

impl Affine {
    /// A transform is well formed when its scale components are positive and
    /// every component is within the raw coordinate bound.
    pub open spec fn wf(self) -> bool {
        &&& 1 <= self.scale.x <= COORD_BOUND
        &&& 1 <= self.scale.y <= COORD_BOUND
        &&& self.trans.bounded()
    }

    /// The identity transform.
    pub fn identity() -> (r: Self)
        ensures
            r == Self::spec_identity(),
    {
        Affine { scale: Vec2I { x: 1, y: 1 }, rot: Rot::R0, trans: Vec2I { x: 0, y: 0 } }
    }

    /// The identity transform.
    pub open spec fn spec_identity() -> Self {
        Affine { scale: Vec2I { x: 1, y: 1 }, rot: Rot::R0, trans: Vec2I { x: 0, y: 0 } }
    }
}

/// The image of the point `(x, y)` under the transform: scale, then rotate,
/// then translate.
pub open spec fn spec_transform_point(t: Affine, x: int, y: int) -> (int, int) {
    let (rx, ry) = spec_rot_apply(t.rot, t.scale.x * x, t.scale.y * y);
    (rx + t.trans.x, ry + t.trans.y)
}

/// The preimage of the point `(x, y)` under the transform: untranslate, then
/// unrotate, then divide out the scale (Euclidean division; exact whenever
/// the scale divides the unrotated coordinates, in particular under an
/// identity scale).
pub open spec fn spec_inv_transform_point(t: Affine, x: int, y: int) -> (int, int) {
    let (ux, uy) = spec_rot_apply(spec_rot_inverse(t.rot), x - t.trans.x, y - t.trans.y);
    (ux / t.scale.x as int, uy / t.scale.y as int)
}

/// Applies a well-formed transform to a point.
pub fn transform_point(t: &Affine, p: Vec2I) -> (out: Vec2I)
    requires
        t.wf(),
        -POINT_BOUND <= p.x <= POINT_BOUND,
        -POINT_BOUND <= p.y <= POINT_BOUND,
    ensures
        (out.x as int, out.y as int) == spec_transform_point(*t, p.x as int, p.y as int),
        -GLOBAL_BOUND <= out.x <= GLOBAL_BOUND,
        -GLOBAL_BOUND <= out.y <= GLOBAL_BOUND,
{
    proof {
        lemma_scaled_point_bound(t.scale.x as int, p.x as int);
        lemma_scaled_point_bound(t.scale.y as int, p.y as int);
    }
    let sx: i64 = t.scale.x * p.x;
    let sy: i64 = t.scale.y * p.y;
    let r = rot_apply(t.rot, Vec2I { x: sx, y: sy });
    Vec2I { x: r.x + t.trans.x, y: r.y + t.trans.y }
}

/// A well-formed scale applied to an in-range point coordinate stays within
/// the product bound.
proof fn lemma_scaled_point_bound(s: int, c: int)
    requires
        1 <= s <= COORD_BOUND,
        -POINT_BOUND <= c <= POINT_BOUND,
    ensures
        -0x4000_0000_0000_0000 <= s * c <= 0x4000_0000_0000_0000,
{
    assert(-0x4000_0000_0000_0000 <= s * c <= 0x4000_0000_0000_0000) by (nonlinear_arith)
        requires
            1 <= s <= 0x4000_0000 && -0x1_0000_0000 <= c <= 0x1_0000_0000,
    ;
}

/// Applies the inverse of a well-formed transform to a point.
pub fn inv_transform_point(t: &Affine, p: Vec2I) -> (out: Vec2I)
    requires
        t.wf(),
        -GLOBAL_BOUND <= p.x <= GLOBAL_BOUND,
        -GLOBAL_BOUND <= p.y <= GLOBAL_BOUND,
    ensures
        (out.x as int, out.y as int) == spec_inv_transform_point(*t, p.x as int, p.y as int),
{
    let dx: i64 = p.x - t.trans.x;
    let dy: i64 = p.y - t.trans.y;
    let u = rot_apply(rot_inverse(t.rot), Vec2I { x: dx, y: dy });
    Vec2I { x: div_euclid_pos(u.x, t.scale.x), y: div_euclid_pos(u.y, t.scale.y) }
}

/// Under the identity transform, a point maps to itself, forward and
/// backward.
pub proof fn lemma_identity_transform_point(x: int, y: int)
    ensures
        spec_transform_point(Affine::spec_identity(), x, y) == (x, y),
        spec_inv_transform_point(Affine::spec_identity(), x, y) == (x, y),
{
    assert(1 * x == x) by (nonlinear_arith);
    assert(1 * y == y) by (nonlinear_arith);
    vstd::arithmetic::div_mod::lemma_div_basics(x);
    vstd::arithmetic::div_mod::lemma_div_basics(y);
}

} // verus!
