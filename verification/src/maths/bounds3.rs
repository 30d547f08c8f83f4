//! An axis-aligned bounding volume: a centre and three half-extents.
//!
//! The half-extents must be non-negative for the intersection tests to be
//! meaningful; that is the caller's responsibility, as it is for the scale
//! factors.

use crate::maths::fixed::Fixed;
use crate::maths::fixed::fadd;
use crate::maths::fixed::fsub;
use crate::maths::fixed::fx;
use crate::maths::fixed::iabs;
use crate::maths::vec3::Vec3;
use vstd::prelude::*;

verus! {

#[derive(Clone, Copy, Debug, PartialEq, Eq, Structural)]
pub struct Bounds3 {
    pub centre: Vec3,
    pub half_w: Fixed,
    pub half_h: Fixed,
    pub half_d: Fixed,
}

/// The separating-axis test: the volumes meet exactly when, on every axis,
/// the distance of the centres is at most the sum of the half-extents.
/// The comparison is computed exactly in wide integers.
pub open spec fn bounds3_intersects_spec(a: Bounds3, b: Bounds3) -> bool {
    &&& iabs(a.centre.x@ - b.centre.x@) <= a.half_w@ + b.half_w@
    &&& iabs(a.centre.y@ - b.centre.y@) <= a.half_h@ + b.half_h@
    &&& iabs(a.centre.z@ - b.centre.z@) <= a.half_d@ + b.half_d@
}

/// The distance of `a` to the centre is within the half-extent, per axis.
fn axis_within(ca: Fixed, cb: Fixed, ha: Fixed, hb: Fixed) -> (r: bool)
    ensures
        r == (iabs(ca@ - cb@) <= ha@ + hb@),
{
    let d: i64 = ca.raw as i64 - cb.raw as i64;
    let m: i64 = if d < 0 {
        -d
    } else {
        d
    };
    m <= ha.raw as i64 + hb.raw as i64
}

impl Bounds3 {
    pub fn new(centre: Vec3, half_w: Fixed, half_h: Fixed, half_d: Fixed) -> (r: Bounds3)
        ensures
            r == (Bounds3 { centre, half_w, half_h, half_d }),
    {
        Bounds3 { centre, half_w, half_h, half_d }
    }

    pub fn intersects(&self, rhs: &Bounds3) -> (r: bool)
        ensures
            r == bounds3_intersects_spec(*self, *rhs),
    {
        axis_within(self.centre.x, rhs.centre.x, self.half_w, rhs.half_w)
            && axis_within(self.centre.y, rhs.centre.y, self.half_h, rhs.half_h)
            && axis_within(self.centre.z, rhs.centre.z, self.half_d, rhs.half_d)
    }

    /// The corner with the smallest coordinates: centre - half-extents.
    pub fn min(&self) -> (r: Vec3)
        ensures
            r == (Vec3 {
                x: fx(fsub(self.centre.x@, self.half_w@)),
                y: fx(fsub(self.centre.y@, self.half_h@)),
                z: fx(fsub(self.centre.z@, self.half_d@)),
            }),
    {
        self.centre.sub(Vec3::new(self.half_w, self.half_h, self.half_d))
    }

    /// The corner with the largest coordinates: centre + half-extents.
    pub fn max(&self) -> (r: Vec3)
        ensures
            r == (Vec3 {
                x: fx(fadd(self.centre.x@, self.half_w@)),
                y: fx(fadd(self.centre.y@, self.half_h@)),
                z: fx(fadd(self.centre.z@, self.half_d@)),
            }),
    {
        self.centre.add(Vec3::new(self.half_w, self.half_h, self.half_d))
    }
}

/// Intersection is symmetric: `a` meets `b` exactly when `b` meets `a`.
pub proof fn lemma_bounds3_intersects_symmetric(a: Bounds3, b: Bounds3)
    ensures
        bounds3_intersects_spec(a, b) == bounds3_intersects_spec(b, a),
{
}

} // verus!
