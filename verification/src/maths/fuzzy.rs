//! Epsilon-tolerant relational operators on the fixed-point scalar.
//!
//! Every downstream equality test (vectors, points, quaternions) tolerates a
//! small drift instead of demanding exact equality.  `gt`/`lt` mean "strictly
//! ordered *and* not equal within epsilon"; `gte`/`lte` mean "ordered *or*
//! equal within epsilon".  The comparisons are computed exactly in wide
//! integers, so the contracts carry no saturation.

use crate::maths::fixed::Fixed;
use crate::maths::fixed::iabs;
pub use crate::maths::fixed::DEFAULT_EPSILON;
use vstd::prelude::*;

verus! {

/// Two raw values agree within the tolerance `e`.
pub open spec fn eq_spec(a: int, b: int, e: int) -> bool {
    iabs(a - b) <= e
}

pub fn eq_with_epsilon(a: Fixed, b: Fixed, epsilon: Fixed) -> (r: bool)
    ensures
        r == eq_spec(a@, b@, epsilon@),
{
    let d: i64 = a.raw as i64 - b.raw as i64;
    let m: i64 = if d < 0 {
        -d
    } else {
        d
    };
    m <= epsilon.raw as i64
}

pub fn gt_with_epsilon(a: Fixed, b: Fixed, epsilon: Fixed) -> (r: bool)
    ensures
        r == (a@ > b@ && !eq_spec(a@, b@, epsilon@)),
{
    a.raw > b.raw && !eq_with_epsilon(a, b, epsilon)
}

pub fn gte_with_epsilon(a: Fixed, b: Fixed, epsilon: Fixed) -> (r: bool)
    ensures
        r == (a@ > b@ || eq_spec(a@, b@, epsilon@)),
{
    a.raw > b.raw || eq_with_epsilon(a, b, epsilon)
}

pub fn lt_with_epsilon(a: Fixed, b: Fixed, epsilon: Fixed) -> (r: bool)
    ensures
        r == (a@ < b@ && !eq_spec(a@, b@, epsilon@)),
{
    a.raw < b.raw && !eq_with_epsilon(a, b, epsilon)
}

pub fn lte_with_epsilon(a: Fixed, b: Fixed, epsilon: Fixed) -> (r: bool)
    ensures
        r == (a@ < b@ || eq_spec(a@, b@, epsilon@)),
{
    a.raw < b.raw || eq_with_epsilon(a, b, epsilon)
}

pub fn eq(a: Fixed, b: Fixed) -> (r: bool)
    ensures
        r == eq_spec(a@, b@, DEFAULT_EPSILON as int),
{
    eq_with_epsilon(a, b, Fixed::from_raw(DEFAULT_EPSILON))
}

pub fn gt(a: Fixed, b: Fixed) -> (r: bool)
    ensures
        r == (a@ > b@ && !eq_spec(a@, b@, DEFAULT_EPSILON as int)),
{
    gt_with_epsilon(a, b, Fixed::from_raw(DEFAULT_EPSILON))
}

pub fn gte(a: Fixed, b: Fixed) -> (r: bool)
    ensures
        r == (a@ > b@ || eq_spec(a@, b@, DEFAULT_EPSILON as int)),
{
    gte_with_epsilon(a, b, Fixed::from_raw(DEFAULT_EPSILON))
}

pub fn lt(a: Fixed, b: Fixed) -> (r: bool)
    ensures
        r == (a@ < b@ && !eq_spec(a@, b@, DEFAULT_EPSILON as int)),
{
    lt_with_epsilon(a, b, Fixed::from_raw(DEFAULT_EPSILON))
}

pub fn lte(a: Fixed, b: Fixed) -> (r: bool)
    ensures
        r == (a@ < b@ || eq_spec(a@, b@, DEFAULT_EPSILON as int)),
{
    lte_with_epsilon(a, b, Fixed::from_raw(DEFAULT_EPSILON))
}

/// Fuzzy equality is symmetric in its two operands.
pub proof fn lemma_eq_symmetric(a: int, b: int, e: int)
    ensures
        eq_spec(a, b, e) == eq_spec(b, a, e),
{
}

} // verus!
