//! Non-uniform 3D scale factors (width, height and depth).

use crate::maths::fixed::Fixed;
use crate::maths::fixed::ONE_RAW;
use vstd::prelude::*;

verus! {

#[derive(Clone, Copy, Debug, PartialEq, Eq, Structural)]
pub struct Scale3 {
    pub w: Fixed,
    pub h: Fixed,
    pub d: Fixed,
}

impl Scale3 {
    pub fn new(w: Fixed, h: Fixed, d: Fixed) -> (r: Scale3)
        ensures
            r == (Scale3 { w, h, d }),
    {
        Scale3 { w, h, d }
    }

    /// The scale that changes nothing.
    pub fn identity() -> (r: Scale3)
        ensures
            r.w@ == ONE_RAW as int && r.h@ == ONE_RAW as int && r.d@ == ONE_RAW as int,
    {
        Scale3 { w: Fixed::one(), h: Fixed::one(), d: Fixed::one() }
    }
}

} // verus!
