//! An axis-aligned box in the plane: a centre and per-axis half-extents
//! carried as a scale.

use crate::maths::fixed::Fixed;
use crate::maths::fixed::fadd;
use crate::maths::fixed::fsub;
use crate::maths::fixed::fx;
use crate::maths::fixed::iabs;
use crate::maths::point2::Point2;
use crate::maths::scale2::Scale2;
use crate::maths::vec2::Vec2;
use vstd::prelude::*;

verus! {

#[derive(Clone, Copy, Debug, PartialEq, Eq, Structural)]
pub struct AxisAlignedBox3 {
    pub centre: Vec2,
    pub scale: Scale2,
}

/// The separating-axis test in the plane, computed exactly.
pub open spec fn aab2_intersects_spec(a: AxisAlignedBox3, b: AxisAlignedBox3) -> bool {
    &&& iabs(a.centre.x@ - b.centre.x@) <= a.scale.w@ + b.scale.w@
    &&& iabs(a.centre.y@ - b.centre.y@) <= a.scale.h@ + b.scale.h@
}

/// The same per-axis test against a single point.
pub open spec fn aab2_contains_spec(a: AxisAlignedBox3, p: Point2) -> bool {
    &&& iabs(a.centre.x@ - p.x@) <= a.scale.w@
    &&& iabs(a.centre.y@ - p.y@) <= a.scale.h@
}

fn axis_within(ca: Fixed, cb: Fixed, bound: i64) -> (r: bool)
    requires
        0 - 0x100000000 <= bound <= 0x100000000,
    ensures
        r == (iabs(ca@ - cb@) <= bound as int),
{
    let d: i64 = ca.raw as i64 - cb.raw as i64;
    let m: i64 = if d < 0 {
        -d
    } else {
        d
    };
    m <= bound
}

impl AxisAlignedBox3 {
    pub fn new(centre: Vec2, scale: Scale2) -> (r: AxisAlignedBox3)
        ensures
            r == (AxisAlignedBox3 { centre, scale }),
    {
        AxisAlignedBox3 { centre, scale }
    }

    pub fn intersects(&self, rhs: &AxisAlignedBox3) -> (r: bool)
        ensures
            r == aab2_intersects_spec(*self, *rhs),
    {
        axis_within(self.centre.x, rhs.centre.x, self.scale.w.raw as i64 + rhs.scale.w.raw as i64)
            && axis_within(
            self.centre.y,
            rhs.centre.y,
            self.scale.h.raw as i64 + rhs.scale.h.raw as i64,
        )
    }

    pub fn contains_point(&self, rhs: &Point2) -> (r: bool)
        ensures
            r == aab2_contains_spec(*self, *rhs),
    {
        axis_within(self.centre.x, rhs.x, self.scale.w.raw as i64) && axis_within(
            self.centre.y,
            rhs.y,
            self.scale.h.raw as i64,
        )
    }

    /// The corner with the smallest coordinates.
    pub fn min(&self) -> (r: Vec2)
        ensures
            r == (Vec2 {
                x: fx(fsub(self.centre.x@, self.scale.w@)),
                y: fx(fsub(self.centre.y@, self.scale.h@)),
            }),
    {
        self.centre.sub(Vec2::new(self.scale.w, self.scale.h))
    }

    /// The corner with the largest coordinates.
    pub fn max(&self) -> (r: Vec2)
        ensures
            r == (Vec2 {
                x: fx(fadd(self.centre.x@, self.scale.w@)),
                y: fx(fadd(self.centre.y@, self.scale.h@)),
            }),
    {
        self.centre.add(Vec2::new(self.scale.w, self.scale.h))
    }
}

/// Intersection is symmetric: `a` meets `b` exactly when `b` meets `a`.
pub proof fn lemma_aab2_intersects_symmetric(a: AxisAlignedBox3, b: AxisAlignedBox3)
    ensures
        aab2_intersects_spec(a, b) == aab2_intersects_spec(b, a),
{
}

} // verus!
