//! A 3D point: an affine position, distinct from a displacement.
//!
//! Only point + vector and point - point (giving a vector) are defined;
//! there is deliberately no point + point.

use crate::maths::fixed::Fixed;
use crate::maths::fixed::fadd;
use crate::maths::fixed::fsub;
use crate::maths::fixed::fx;
use crate::maths::vec3::Vec3;
use vstd::prelude::*;

verus! {

#[derive(Clone, Copy, Debug, PartialEq, Eq, Structural)]
pub struct Point3 {
    pub x: Fixed,
    pub y: Fixed,
    pub z: Fixed,
}

impl Point3 {
    pub fn new(x: Fixed, y: Fixed, z: Fixed) -> (r: Point3)
        ensures
            r == (Point3 { x, y, z }),
    {
        Point3 { x, y, z }
    }

    pub fn splat(value: Fixed) -> (r: Point3)
        ensures
            r == (Point3 { x: value, y: value, z: value }),
    {
        Point3 { x: value, y: value, z: value }
    }

    /// The origin.
    pub fn identity() -> (r: Point3)
        ensures
            r.x@ == 0 && r.y@ == 0 && r.z@ == 0,
    {
        Point3::splat(Fixed::zero())
    }

    /// The displacement from the origin to this point.
    pub fn vector_from_origin(&self) -> (r: Vec3)
        ensures
            r == (Vec3 { x: self.x, y: self.y, z: self.z }),
    {
        Vec3 { x: self.x, y: self.y, z: self.z }
    }

    /// The displacement from `rhs` to this point.
    pub fn vector_from(&self, rhs: &Point3) -> (r: Vec3)
        ensures
            r == (Vec3 {
                x: fx(fsub(self.x@, rhs.x@)),
                y: fx(fsub(self.y@, rhs.y@)),
                z: fx(fsub(self.z@, rhs.z@)),
            }),
    {
        Vec3 { x: self.x.sub(rhs.x), y: self.y.sub(rhs.y), z: self.z.sub(rhs.z) }
    }

    /// The displacement from this point to `rhs`.
    pub fn vector_to(&self, rhs: &Point3) -> (r: Vec3)
        ensures
            r == (Vec3 {
                x: fx(fsub(rhs.x@, self.x@)),
                y: fx(fsub(rhs.y@, self.y@)),
                z: fx(fsub(rhs.z@, self.z@)),
            }),
    {
        Vec3 { x: rhs.x.sub(self.x), y: rhs.y.sub(self.y), z: rhs.z.sub(self.z) }
    }

    /// The point displaced by a vector.
    pub fn add(self, rhs: Vec3) -> (r: Point3)
        ensures
            r == (Point3 {
                x: fx(fadd(self.x@, rhs.x@)),
                y: fx(fadd(self.y@, rhs.y@)),
                z: fx(fadd(self.z@, rhs.z@)),
            }),
    {
        Point3 { x: self.x.add(rhs.x), y: self.y.add(rhs.y), z: self.z.add(rhs.z) }
    }

    /// Displaces this point by a vector, in place.
    pub fn add_assign(&mut self, rhs: Vec3)
        ensures
            *final(self) == (Point3 {
                x: fx(fadd(old(self).x@, rhs.x@)),
                y: fx(fadd(old(self).y@, rhs.y@)),
                z: fx(fadd(old(self).z@, rhs.z@)),
            }),
    {
        *self = self.add(rhs);
    }
}

} // verus!
