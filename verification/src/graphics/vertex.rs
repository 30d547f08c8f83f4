//! The vertex record handed to the renderer: a position and a colour, each
//! three scalars, with no other fields.  The rendering layer is expected to
//! lay this out as two consecutive three-component attributes.

use crate::maths::vec3::Vec3;
use vstd::prelude::*;

verus! {

#[derive(Clone, Copy, Debug, PartialEq, Eq, Structural)]
pub struct Vertex {
    pub position: Vec3,
    pub colour: Vec3,
}

impl Vertex {
    pub fn new(position: Vec3, colour: Vec3) -> (r: Vertex)
        ensures
            r == (Vertex { position, colour }),
    {
        Vertex { position, colour }
    }
}

} // verus!
