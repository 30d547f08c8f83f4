//! A ray in the plane: an origin and a unit direction, with the
//! direction's perpendicular and reciprocal cached for intersection tests.

use crate::maths::fixed::ONE_RAW;
use crate::maths::fixed::fdiv;
use crate::maths::fixed::fmul;
use crate::maths::fixed::fneg;
use crate::maths::fixed::fsub;
use crate::maths::fixed::fx;
use crate::maths::unit::Normed;
use crate::maths::unit::Unit;
use crate::maths::vec2::Vec2;
use vstd::prelude::*;

verus! {

pub struct Ray2 {
    pub perpendicular: Vec2,
    pub reciprocal: Vec2,
    pub origin: Vec2,
    pub direction: Unit<Vec2>,
}

impl Ray2 {
    /// Builds a ray from an origin and a unit direction.  The direction is
    /// first re-normalised with the fast Newton step to shed drift; each
    /// zero component of it turns into a saturated reciprocal, the
    /// fixed-point stand-in for an infinity.
    pub fn new(origin: Vec2, direction: Unit<Vec2>) -> (r: Ray2)
        ensures
            r.origin == origin,
            r.direction@ == direction@.scaled_spec(
                fmul((ONE_RAW as int) / 2, fsub(3 * (ONE_RAW as int), direction@.norm_sq_spec())),
            ),
            r.perpendicular == (Vec2 { x: fx(fneg(r.direction@.y@)), y: r.direction@.x }),
            r.reciprocal == (Vec2 {
                x: fx(fdiv(ONE_RAW as int, r.direction@.x@)),
                y: fx(fdiv(ONE_RAW as int, r.direction@.y@)),
            }),
    {
        let mut direction = direction;
        direction.nomalise_fast();
        let inner = direction.inner();
        let perpendicular = inner.left_perpendicular();
        let reciprocal = inner.reciprocal();
        Ray2 { perpendicular, reciprocal, origin, direction }
    }
}

} // verus!
