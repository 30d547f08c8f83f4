//! A 2D point: an affine position, distinct from a displacement.
//!
//! Only point + vector and point - point (giving a vector) are defined;
//! there is deliberately no point + point.

use crate::maths::fixed::Fixed;
use crate::maths::fixed::fadd;
use crate::maths::fixed::fsub;
use crate::maths::fixed::fx;
use crate::maths::vec2::Vec2;
use vstd::prelude::*;

verus! {

#[derive(Clone, Copy, Debug, PartialEq, Eq, Structural)]
pub struct Point2 {
    pub x: Fixed,
    pub y: Fixed,
}

impl Point2 {
    pub fn new(x: Fixed, y: Fixed) -> (r: Point2)
        ensures
            r == (Point2 { x, y }),
    {
        Point2 { x, y }
    }

    pub fn splat(value: Fixed) -> (r: Point2)
        ensures
            r == (Point2 { x: value, y: value }),
    {
        Point2 { x: value, y: value }
    }

    /// The origin.
    pub fn identity() -> (r: Point2)
        ensures
            r.x@ == 0 && r.y@ == 0,
    {
        Point2::splat(Fixed::zero())
    }

    /// The displacement from the origin to this point.
    pub fn vector_from_origin(&self) -> (r: Vec2)
        ensures
            r == (Vec2 { x: self.x, y: self.y }),
    {
        Vec2 { x: self.x, y: self.y }
    }

    /// The displacement from `rhs` to this point.
    pub fn vector_from(&self, rhs: &Point2) -> (r: Vec2)
        ensures
            r == (Vec2 { x: fx(fsub(self.x@, rhs.x@)), y: fx(fsub(self.y@, rhs.y@)) }),
    {
        Vec2 { x: self.x.sub(rhs.x), y: self.y.sub(rhs.y) }
    }

    /// The displacement from this point to `rhs`.
    pub fn vector_to(&self, rhs: &Point2) -> (r: Vec2)
        ensures
            r == (Vec2 { x: fx(fsub(rhs.x@, self.x@)), y: fx(fsub(rhs.y@, self.y@)) }),
    {
        Vec2 { x: rhs.x.sub(self.x), y: rhs.y.sub(self.y) }
    }

    /// The point displaced by a vector.
    pub fn add(self, rhs: Vec2) -> (r: Point2)
        ensures
            r == (Point2 { x: fx(fadd(self.x@, rhs.x@)), y: fx(fadd(self.y@, rhs.y@)) }),
    {
        Point2 { x: self.x.add(rhs.x), y: self.y.add(rhs.y) }
    }

    /// Displaces this point by a vector, in place.
    pub fn add_assign(&mut self, rhs: Vec2)
        ensures
            *final(self) == (Point2 {
                x: fx(fadd(old(self).x@, rhs.x@)),
                y: fx(fadd(old(self).y@, rhs.y@)),
            }),
    {
        *self = self.add(rhs);
    }
}

} // verus!
