//! Quaternions: vector part `v` and scalar part `w`.
//!
//! A quaternion represents a rotation only while its norm is one; non-unit
//! quaternions are legitimate intermediate values (during interpolation, for
//! instance) and must be re-normalised before use as a rotation.  The
//! Hamilton product below is the single source of truth for composing
//! rotations.

use crate::maths::angle::Angle;
use crate::maths::angle::cos_spec;
use crate::maths::angle::sin_spec;
use crate::maths::angle::wrap_spec;
use crate::maths::fixed::Fixed;
use crate::maths::fixed::ONE_RAW;
use crate::maths::fixed::fadd;
use crate::maths::fixed::fdiv;
use crate::maths::fixed::fmul;
use crate::maths::fixed::fsub;
use crate::maths::fixed::fx;
use crate::maths::fixed::lemma_fmul_one;
use crate::maths::fixed::lemma_fmul_square_nonneg;
use crate::maths::fixed::lemma_fmul_zero;
use crate::maths::fixed::quot;
use crate::maths::unit::Normed;
use crate::maths::unit::Unit;
use crate::maths::vec3::Vec3;
use crate::maths::vec3::add3_spec;
use crate::maths::vec3::cross3_spec;
use crate::maths::vec3::dot3_spec;
use crate::maths::fixed::DEFAULT_EPSILON;
use crate::maths::fixed::iabs;
use crate::maths::fixed::fsqrt;
use crate::maths::fixed::lemma_fdiv_near_one;
use crate::maths::fixed::lemma_fmul_near_one;
use crate::maths::fixed::lemma_fsqrt_near_one;
use crate::maths::fixed::lemma_newton_factor_near_one;
use crate::maths::fixed::lemma_square_bound;
use vstd::prelude::*;

verus! {

#[derive(Clone, Copy, Debug, PartialEq, Eq, Structural)]
pub struct Quat {
    pub v: Vec3,
    pub w: Fixed,
}

/// The quaternion that rotates nothing: `w = 1`, `v = 0`.
pub open spec fn quat_identity_spec() -> Quat {
    Quat { v: Vec3 { x: fx(0), y: fx(0), z: fx(0) }, w: fx(ONE_RAW as int) }
}

/// The Hamilton product:
/// `w' = w1 w2 - v1 . v2` and `v' = w1 v2 + w2 v1 + v1 x v2`.
pub open spec fn quat_mul_spec(a: Quat, b: Quat) -> Quat {
    Quat {
        v: add3_spec(
            add3_spec(b.v.scaled_spec(a.w@), a.v.scaled_spec(b.w@)),
            cross3_spec(a.v, b.v),
        ),
        w: fx(fsub(fmul(a.w@, b.w@), dot3_spec(a.v, b.v))),
    }
}

/// The conjugate: the vector part negated, the scalar part kept.
pub open spec fn quat_conjugate_spec(q: Quat) -> Quat {
    Quat { v: q.v.scaled_spec(-(ONE_RAW as int)), w: q.w }
}

/// The rotation from a unit axis and an angle:
/// `w = cos(angle / 2)`, `v = sin(angle / 2) * axis`.
pub open spec fn from_axis_angle_spec(axis: Vec3, a: int) -> Quat {
    let half = wrap_spec(quot(a * ((ONE_RAW as int) / 2), ONE_RAW as int));
    Quat { v: axis.scaled_spec(sin_spec(half)), w: fx(cos_spec(half)) }
}

/// Linear interpolation at `t` followed by normalisation.
pub open spec fn quat_lerp_spec(start: Quat, end: Quat, t: int) -> Quat {
    let mid = quat_add_spec(start.scaled_spec(fsub(ONE_RAW as int, t)), end.scaled_spec(t));
    mid.div_scaled_spec(crate::maths::fixed::fsqrt(mid.norm_sq_spec()))
}

/// Component-wise sum of two quaternions.
pub open spec fn quat_add_spec(a: Quat, b: Quat) -> Quat {
    Quat { v: add3_spec(a.v, b.v), w: fx(fadd(a.w@, b.w@)) }
}

impl Quat {
    pub fn identity() -> (r: Quat)
        ensures
            r == quat_identity_spec(),
    {
        Quat { v: Vec3::zero(), w: Fixed::one() }
    }

    pub fn new(w: Fixed, v: Vec3) -> (r: Quat)
        ensures
            r == (Quat { v, w }),
    {
        Quat { v, w }
    }

    /// Component-wise sum; an algebraic helper, not a rotation composition.
    pub fn add(self, rhs: Quat) -> (r: Quat)
        ensures
            r == quat_add_spec(self, rhs),
    {
        Quat { v: self.v.add(rhs.v), w: self.w.add(rhs.w) }
    }

    /// The Hamilton product; the operand order matters.
    pub fn mul(self, rhs: Quat) -> (r: Quat)
        ensures
            r == quat_mul_spec(self, rhs),
    {
        let scalar = self.w.mul(rhs.w).sub(self.v.dot(&rhs.v));
        let imaginary = rhs.v.mul_scalar(self.w).add(self.v.mul_scalar(rhs.w)).add(
            self.v.cross(&rhs.v),
        );
        Quat { v: imaginary, w: scalar }
    }

    /// The Hamilton product, applied in place.
    pub fn mul_assign(&mut self, rhs: Quat)
        ensures
            *final(self) == quat_mul_spec(*old(self), rhs),
    {
        *self = self.mul(rhs);
    }

    /// The rotation of `angle` about the unit axis `axis`.
    pub fn from_axis_angle(axis: &Unit<Vec3>, angle: Angle) -> (r: Quat)
        requires
            angle.wf(),
        ensures
            r == from_axis_angle_spec(axis@, angle@),
    {
        let (half_sin, half_cos) = angle.mul(Fixed::half()).sin_cos();
        Quat { v: axis.inner().mul_scalar(half_sin), w: half_cos }
    }

    pub fn conjugate(&self) -> (r: Quat)
        ensures
            r == quat_conjugate_spec(*self),
    {
        Quat { v: self.v.mul_scalar(Fixed::one().neg()), w: self.w }
    }

    /// The inverse: the conjugate scaled by the reciprocal of the squared
    /// norm.  For a unit quaternion this reduces to the conjugate, but the
    /// general formula is used because intermediate quaternions need not be
    /// unit length.  On a zero norm the reciprocal saturates and the result
    /// is the conjugate scaled by that saturated value, rather than a
    /// failure.
    pub fn inverse(&self) -> (r: Quat)
        ensures
            r == quat_conjugate_spec(*self).scaled_spec(
                fdiv(ONE_RAW as int, self.norm_sq_spec()),
            ),
    {
        self.conjugate().mul_scalar(self.norm_squared().recip())
    }

    /// Interpolates between two rotations and re-normalises the result.
    pub fn lerp(start: &Quat, end: &Quat, t: Fixed) -> (r: Unit<Quat>)
        ensures
            r@ == quat_lerp_spec(*start, *end, t@),
    {
        let mid = start.mul_scalar(Fixed::one().sub(t)).add(end.mul_scalar(t));
        Unit::from(mid)
    }
}

impl Normed for Quat {
    open spec fn norm_sq_spec(self) -> int {
        fadd(dot3_spec(self.v, self.v), fmul(self.w@, self.w@))
    }

    open spec fn scaled_spec(self, s: int) -> Quat {
        Quat { v: self.v.scaled_spec(s), w: fx(fmul(self.w@, s)) }
    }

    open spec fn div_scaled_spec(self, s: int) -> Quat {
        Quat { v: self.v.div_scaled_spec(s), w: fx(fdiv(self.w@, s)) }
    }

    proof fn lemma_norm_sq_nonneg(self) {
        self.v.lemma_norm_sq_nonneg();
        lemma_fmul_square_nonneg(self.w@);
    }

    fn norm_squared(&self) -> (r: Fixed) {
        let v = self.v.dot(&self.v);
        let w = self.w.mul(self.w);
        v.add(w)
    }

    fn norm(&self) -> (r: Fixed) {
        proof {
            self.lemma_norm_sq_nonneg();
        }
        self.norm_squared().sqrt()
    }

    fn mul_scalar(&self, s: Fixed) -> (r: Quat) {
        Quat { v: self.v.mul_scalar(s), w: self.w.mul(s) }
    }

    fn div_scalar(&self, s: Fixed) -> (r: Quat) {
        Quat { v: self.v.div_scalar(s), w: self.w.div(s) }
    }
}

/// The identity quaternion is a left and right identity of the Hamilton
/// product, exactly, for every quaternion.
pub proof fn lemma_quat_identity(q: Quat)
    ensures
        quat_mul_spec(quat_identity_spec(), q) == q,
        quat_mul_spec(q, quat_identity_spec()) == q,
{
    lemma_fmul_one(q.w@);
    lemma_fmul_one(q.v.x@);
    lemma_fmul_one(q.v.y@);
    lemma_fmul_one(q.v.z@);
    lemma_fmul_zero(q.w@);
    lemma_fmul_zero(q.v.x@);
    lemma_fmul_zero(q.v.y@);
    lemma_fmul_zero(q.v.z@);
}

/// The exact core of normalisation idempotence: a quaternion whose squared
/// norm is exactly one is returned unchanged both by exact normalisation
/// (division by the norm) and by the fast Newton step.
pub proof fn lemma_quat_normalise_unit(q: Quat)
    requires
        q.norm_sq_spec() == ONE_RAW as int,
    ensures
        q.div_scaled_spec(crate::maths::fixed::fsqrt(q.norm_sq_spec())) == q,
        q.scaled_spec(fmul((ONE_RAW as int) / 2, fsub(3 * (ONE_RAW as int), q.norm_sq_spec())))
            == q,
{
    crate::maths::fixed::lemma_fsqrt_one();
    crate::maths::fixed::lemma_fdiv_one(q.v.x@);
    crate::maths::fixed::lemma_fdiv_one(q.v.y@);
    crate::maths::fixed::lemma_fdiv_one(q.v.z@);
    crate::maths::fixed::lemma_fdiv_one(q.w@);
    assert(fmul((ONE_RAW as int) / 2, fsub(3 * (ONE_RAW as int), ONE_RAW as int))
        == ONE_RAW as int) by (nonlinear_arith);
    lemma_fmul_one(q.v.x@);
    lemma_fmul_one(q.v.y@);
    lemma_fmul_one(q.v.z@);
    lemma_fmul_one(q.w@);
}

/// Normalisation idempotence under drift: when the squared norm is within
/// the default tolerance of one, both re-normalisation paths (exact
/// division by the norm, and the fast Newton step) move every component by
/// at most that tolerance.
pub proof fn lemma_quat_normalise_within_tolerance(q: Quat)
    requires
        iabs(q.norm_sq_spec() - (ONE_RAW as int)) <= DEFAULT_EPSILON as int,
    ensures
        ({
            let r = q.div_scaled_spec(fsqrt(q.norm_sq_spec()));
            iabs(r.v.x@ - q.v.x@) <= DEFAULT_EPSILON as int
                && iabs(r.v.y@ - q.v.y@) <= DEFAULT_EPSILON as int
                && iabs(r.v.z@ - q.v.z@) <= DEFAULT_EPSILON as int
                && iabs(r.w@ - q.w@) <= DEFAULT_EPSILON as int
        }),
        ({
            let f = q.scaled_spec(
                fmul((ONE_RAW as int) / 2, fsub(3 * (ONE_RAW as int), q.norm_sq_spec())),
            );
            iabs(f.v.x@ - q.v.x@) <= DEFAULT_EPSILON as int
                && iabs(f.v.y@ - q.v.y@) <= DEFAULT_EPSILON as int
                && iabs(f.v.z@ - q.v.z@) <= DEFAULT_EPSILON as int
                && iabs(f.w@ - q.w@) <= DEFAULT_EPSILON as int
        }),
{
    let ns = q.norm_sq_spec();
    lemma_fmul_square_nonneg(q.v.x@);
    lemma_fmul_square_nonneg(q.v.y@);
    lemma_fmul_square_nonneg(q.v.z@);
    lemma_fmul_square_nonneg(q.w@);
    assert(fmul(q.v.x@, q.v.x@) <= ns && fmul(q.v.y@, q.v.y@) <= ns && fmul(q.v.z@, q.v.z@) <= ns
        && fmul(q.w@, q.w@) <= ns);
    lemma_square_bound(q.v.x@);
    lemma_square_bound(q.v.y@);
    lemma_square_bound(q.v.z@);
    lemma_square_bound(q.w@);
    lemma_fsqrt_near_one(ns);
    lemma_fdiv_near_one(q.v.x@, fsqrt(ns));
    lemma_fdiv_near_one(q.v.y@, fsqrt(ns));
    lemma_fdiv_near_one(q.v.z@, fsqrt(ns));
    lemma_fdiv_near_one(q.w@, fsqrt(ns));
    lemma_newton_factor_near_one(ns);
    let factor = fmul((ONE_RAW as int) / 2, fsub(3 * (ONE_RAW as int), ns));
    lemma_fmul_near_one(q.v.x@, factor);
    lemma_fmul_near_one(q.v.y@, factor);
    lemma_fmul_near_one(q.v.z@, factor);
    lemma_fmul_near_one(q.w@, factor);
}

} // verus!
