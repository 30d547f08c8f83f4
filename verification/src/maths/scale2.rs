//! Non-uniform 2D scale factors (width and height).

use crate::maths::fixed::Fixed;
use crate::maths::fixed::ONE_RAW;
use vstd::prelude::*;

verus! {

#[derive(Clone, Copy, Debug, PartialEq, Eq, Structural)]
pub struct Scale2 {
    pub w: Fixed,
    pub h: Fixed,
}

impl Scale2 {
    pub fn new(w: Fixed, h: Fixed) -> (r: Scale2)
        ensures
            r == (Scale2 { w, h }),
    {
        Scale2 { w, h }
    }

    /// The scale that changes nothing.
    pub fn identity() -> (r: Scale2)
        ensures
            r.w@ == ONE_RAW as int && r.h@ == ONE_RAW as int,
    {
        Scale2 { w: Fixed::one(), h: Fixed::one() }
    }
}

} // verus!
