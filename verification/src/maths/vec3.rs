//! A 3D vector: a displacement in space.

use crate::maths::fixed::Fixed;
use crate::maths::fixed::ONE_RAW;
use crate::maths::fixed::fadd;
use crate::maths::fixed::fdiv;
use crate::maths::fixed::fmul;
use crate::maths::fixed::fneg;
use crate::maths::fixed::fsqrt;
use crate::maths::fixed::fsub;
use crate::maths::fixed::fx;
use crate::maths::fixed::lemma_fmul_square_nonneg;
use crate::maths::mat4::Mat4;
use crate::maths::quat::Quat;
use crate::maths::unit::Normed;
use crate::maths::unit::Unit;
use crate::maths::fixed::lemma_fmul_one;
use crate::maths::fixed::lemma_fdiv_one;
use crate::maths::fixed::lemma_fsqrt_one;
use crate::maths::fixed::DEFAULT_EPSILON;
use crate::maths::fixed::iabs;
use crate::maths::fixed::lemma_fdiv_near_one;
use crate::maths::fixed::lemma_fmul_near_one;
use crate::maths::fixed::lemma_fsqrt_near_one;
use crate::maths::fixed::lemma_newton_factor_near_one;
use crate::maths::fixed::lemma_square_bound;
use vstd::prelude::*;

verus! {

#[derive(Clone, Copy, Debug, PartialEq, Eq, Structural)]
pub struct Vec3 {
    pub x: Fixed,
    pub y: Fixed,
    pub z: Fixed,
}

/// Component-wise sum.
pub open spec fn add3_spec(a: Vec3, b: Vec3) -> Vec3 {
    Vec3 { x: fx(fadd(a.x@, b.x@)), y: fx(fadd(a.y@, b.y@)), z: fx(fadd(a.z@, b.z@)) }
}

/// Component-wise difference.
pub open spec fn sub3_spec(a: Vec3, b: Vec3) -> Vec3 {
    Vec3 { x: fx(fsub(a.x@, b.x@)), y: fx(fsub(a.y@, b.y@)), z: fx(fsub(a.z@, b.z@)) }
}

/// Component-wise negation.
pub open spec fn neg3_spec(a: Vec3) -> Vec3 {
    Vec3 { x: fx(fneg(a.x@)), y: fx(fneg(a.y@)), z: fx(fneg(a.z@)) }
}

/// The dot product, as a raw scalar value.
pub open spec fn dot3_spec(a: Vec3, b: Vec3) -> int {
    fadd(fadd(fmul(a.x@, b.x@), fmul(a.y@, b.y@)), fmul(a.z@, b.z@))
}

/// The right-handed cross product:
/// `(y1 z2 - z1 y2, z1 x2 - x1 z2, x1 y2 - y1 x2)`.
pub open spec fn cross3_spec(a: Vec3, b: Vec3) -> Vec3 {
    Vec3 {
        x: fx(fsub(fmul(a.y@, b.z@), fmul(a.z@, b.y@))),
        y: fx(fsub(fmul(a.z@, b.x@), fmul(a.x@, b.z@))),
        z: fx(fsub(fmul(a.x@, b.y@), fmul(a.y@, b.x@))),
    }
}

/// Rotation by a quaternion, through the optimised form of the sandwich
/// product `q * (0, v) * inverse(q)`:
/// `v + 2 w (q.v x v) + 2 (q.v x (q.v x v))`.
pub open spec fn rotate3_spec(v: Vec3, q: Quat) -> Vec3 {
    let c1 = cross3_spec(q.v, v);
    let t1 = c1.scaled_spec(fmul(2 * (ONE_RAW as int), q.w@));
    let t2 = cross3_spec(q.v, c1).scaled_spec(2 * (ONE_RAW as int));
    add3_spec(add3_spec(v, t1), t2)
}

/// Application of a 4x4 matrix to the vector as a position (implicit
/// `w = 1`): the translation column takes effect.
pub open spec fn transform3_spec(v: Vec3, m: Mat4) -> Vec3 {
    Vec3 {
        x: fx(fadd(fadd(fadd(fmul(v.x@, m.m00@), fmul(v.y@, m.m10@)), fmul(v.z@, m.m20@)), m.m30@)),
        y: fx(fadd(fadd(fadd(fmul(v.x@, m.m01@), fmul(v.y@, m.m11@)), fmul(v.z@, m.m21@)), m.m31@)),
        z: fx(fadd(fadd(fadd(fmul(v.x@, m.m02@), fmul(v.y@, m.m12@)), fmul(v.z@, m.m22@)), m.m32@)),
    }
}

/// Linear interpolation from `start` to `end` at `t`, then normalisation.
pub open spec fn lerp3_spec(start: Vec3, end: Vec3, t: int) -> Vec3 {
    let mid = add3_spec(
        start.scaled_spec(fsub(ONE_RAW as int, t)),
        end.scaled_spec(t),
    );
    mid.div_scaled_spec(fsqrt(mid.norm_sq_spec()))
}

impl Vec3 {
    pub fn new(x: Fixed, y: Fixed, z: Fixed) -> (r: Vec3)
        ensures
            r == (Vec3 { x, y, z }),
    {
        Vec3 { x, y, z }
    }

    pub fn splat(value: Fixed) -> (r: Vec3)
        ensures
            r == (Vec3 { x: value, y: value, z: value }),
    {
        Vec3 { x: value, y: value, z: value }
    }

    pub fn zero() -> (r: Vec3)
        ensures
            r.x@ == 0 && r.y@ == 0 && r.z@ == 0,
    {
        Vec3::splat(Fixed::zero())
    }

    pub fn positive_one() -> (r: Vec3)
        ensures
            r.x@ == ONE_RAW as int && r.y@ == ONE_RAW as int && r.z@ == ONE_RAW as int,
    {
        Vec3::splat(Fixed::one())
    }

    pub fn negative_one() -> (r: Vec3)
        ensures
            r.x@ == -(ONE_RAW as int) && r.y@ == -(ONE_RAW as int) && r.z@ == -(ONE_RAW as int),
    {
        Vec3::splat(Fixed::one().neg())
    }

    pub fn unit_x() -> (r: Vec3)
        ensures
            r.x@ == ONE_RAW as int && r.y@ == 0 && r.z@ == 0,
    {
        Vec3 { x: Fixed::one(), y: Fixed::zero(), z: Fixed::zero() }
    }

    pub fn unit_y() -> (r: Vec3)
        ensures
            r.x@ == 0 && r.y@ == ONE_RAW as int && r.z@ == 0,
    {
        Vec3 { x: Fixed::zero(), y: Fixed::one(), z: Fixed::zero() }
    }

    pub fn unit_z() -> (r: Vec3)
        ensures
            r.x@ == 0 && r.y@ == 0 && r.z@ == ONE_RAW as int,
    {
        Vec3 { x: Fixed::zero(), y: Fixed::zero(), z: Fixed::one() }
    }

    pub fn positive_infinity() -> (r: Vec3)
        ensures
            r.x@ == i32::MAX as int && r.y@ == i32::MAX as int && r.z@ == i32::MAX as int,
    {
        Vec3::splat(Fixed::infinity())
    }

    pub fn negative_infinity() -> (r: Vec3)
        ensures
            r.x@ == i32::MIN as int && r.y@ == i32::MIN as int && r.z@ == i32::MIN as int,
    {
        Vec3::splat(Fixed::neg_infinity())
    }

    pub fn add(self, rhs: Vec3) -> (r: Vec3)
        ensures
            r == add3_spec(self, rhs),
    {
        Vec3 { x: self.x.add(rhs.x), y: self.y.add(rhs.y), z: self.z.add(rhs.z) }
    }

    pub fn sub(self, rhs: Vec3) -> (r: Vec3)
        ensures
            r == sub3_spec(self, rhs),
    {
        Vec3 { x: self.x.sub(rhs.x), y: self.y.sub(rhs.y), z: self.z.sub(rhs.z) }
    }

    /// Scalar multiplication, broadcast over the components.
    pub fn mul(self, rhs: Fixed) -> (r: Vec3)
        ensures
            r == self.scaled_spec(rhs@),
    {
        self.mul_scalar(rhs)
    }

    /// Scalar division, broadcast over the components.
    pub fn div(self, rhs: Fixed) -> (r: Vec3)
        ensures
            r == self.div_scaled_spec(rhs@),
    {
        self.div_scalar(rhs)
    }

    pub fn neg(self) -> (r: Vec3)
        ensures
            r == neg3_spec(self),
    {
        Vec3 { x: self.x.neg(), y: self.y.neg(), z: self.z.neg() }
    }

    pub fn dot(&self, rhs: &Vec3) -> (r: Fixed)
        ensures
            r@ == dot3_spec(*self, *rhs),
    {
        self.x.mul(rhs.x).add(self.y.mul(rhs.y)).add(self.z.mul(rhs.z))
    }

    /// The component-wise reciprocal; a zero component saturates to the
    /// matching infinity analogue.
    pub fn reciprocal(&self) -> (r: Vec3)
        ensures
            r.x@ == fdiv(ONE_RAW as int, self.x@),
            r.y@ == fdiv(ONE_RAW as int, self.y@),
            r.z@ == fdiv(ONE_RAW as int, self.z@),
    {
        Vec3 { x: self.x.recip(), y: self.y.recip(), z: self.z.recip() }
    }

    /// The right-handed cross product.
    pub fn cross(&self, rhs: &Vec3) -> (r: Vec3)
        ensures
            r == cross3_spec(*self, *rhs),
    {
        Vec3 {
            x: self.y.mul(rhs.z).sub(self.z.mul(rhs.y)),
            y: self.z.mul(rhs.x).sub(self.x.mul(rhs.z)),
            z: self.x.mul(rhs.y).sub(self.y.mul(rhs.x)),
        }
    }

    /// Rotation by a quaternion, using the optimised formula; `quat` must
    /// be (close to) unit length for the result to be a pure rotation.
    pub fn rotate(&self, quat: &Quat) -> (r: Vec3)
        ensures
            r == rotate3_spec(*self, *quat),
    {
        let cross = quat.v.cross(self);
        let t1 = cross.mul_scalar(Fixed::two().mul(quat.w));
        let t2 = quat.v.cross(&cross).mul_scalar(Fixed::two());
        self.add(t1).add(t2)
    }

    pub fn rotate_by(&mut self, quat: &Quat)
        ensures
            *final(self) == rotate3_spec(*old(self), *quat),
    {
        *self = self.rotate(quat);
    }

    /// Applies a 4x4 matrix, treating the vector as a position with
    /// implicit `w = 1`.
    pub fn transform(&self, matrix: &Mat4) -> (r: Vec3)
        ensures
            r == transform3_spec(*self, *matrix),
    {
        let x = self.x.mul(matrix.m00).add(self.y.mul(matrix.m10)).add(self.z.mul(matrix.m20)).add(
            matrix.m30,
        );
        let y = self.x.mul(matrix.m01).add(self.y.mul(matrix.m11)).add(self.z.mul(matrix.m21)).add(
            matrix.m31,
        );
        let z = self.x.mul(matrix.m02).add(self.y.mul(matrix.m12)).add(self.z.mul(matrix.m22)).add(
            matrix.m32,
        );
        Vec3 { x, y, z }
    }

    pub fn transform_by(&mut self, matrix: &Mat4)
        ensures
            *final(self) == transform3_spec(*old(self), *matrix),
    {
        *self = self.transform(matrix);
    }

    /// Interpolates between two directions and re-normalises the result.
    pub fn lerp(start: &Vec3, end: &Vec3, t: Fixed) -> (r: Unit<Vec3>)
        ensures
            r@ == lerp3_spec(*start, *end, t@),
    {
        let mid = start.mul_scalar(Fixed::one().sub(t)).add(end.mul_scalar(t));
        Unit::from(mid)
    }
}

impl Normed for Vec3 {
    open spec fn norm_sq_spec(self) -> int {
        dot3_spec(self, self)
    }

    open spec fn scaled_spec(self, s: int) -> Vec3 {
        Vec3 { x: fx(fmul(self.x@, s)), y: fx(fmul(self.y@, s)), z: fx(fmul(self.z@, s)) }
    }

    open spec fn div_scaled_spec(self, s: int) -> Vec3 {
        Vec3 { x: fx(fdiv(self.x@, s)), y: fx(fdiv(self.y@, s)), z: fx(fdiv(self.z@, s)) }
    }

    proof fn lemma_norm_sq_nonneg(self) {
        lemma_fmul_square_nonneg(self.x@);
        lemma_fmul_square_nonneg(self.y@);
        lemma_fmul_square_nonneg(self.z@);
    }

    fn norm_squared(&self) -> (r: Fixed) {
        self.dot(self)
    }

    fn norm(&self) -> (r: Fixed) {
        proof {
            self.lemma_norm_sq_nonneg();
        }
        self.norm_squared().sqrt()
    }

    fn mul_scalar(&self, s: Fixed) -> (r: Vec3) {
        Vec3 { x: self.x.mul(s), y: self.y.mul(s), z: self.z.mul(s) }
    }

    fn div_scalar(&self, s: Fixed) -> (r: Vec3) {
        Vec3 { x: self.x.div(s), y: self.y.div(s), z: self.z.div(s) }
    }
}

/// The exact core of normalisation idempotence: a vector whose squared
/// norm is exactly one is returned unchanged both by exact normalisation
/// (division by the norm) and by the fast Newton step.
pub proof fn lemma_vec3_normalise_unit(v: Vec3)
    requires
        v.norm_sq_spec() == ONE_RAW as int,
    ensures
        v.div_scaled_spec(fsqrt(v.norm_sq_spec())) == v,
        v.scaled_spec(fmul((ONE_RAW as int) / 2, fsub(3 * (ONE_RAW as int), v.norm_sq_spec())))
            == v,
{
    lemma_fsqrt_one();
    lemma_fdiv_one(v.x@);
    lemma_fdiv_one(v.y@);
    lemma_fdiv_one(v.z@);
    assert(fmul((ONE_RAW as int) / 2, fsub(3 * (ONE_RAW as int), ONE_RAW as int))
        == ONE_RAW as int) by (nonlinear_arith);
    lemma_fmul_one(v.x@);
    lemma_fmul_one(v.y@);
    lemma_fmul_one(v.z@);
}

/// Normalisation idempotence under drift: when the squared norm is within
/// the default tolerance of one, both re-normalisation paths (exact
/// division by the norm, and the fast Newton step) move every component by
/// at most that tolerance.
pub proof fn lemma_vec3_normalise_within_tolerance(v: Vec3)
    requires
        iabs(v.norm_sq_spec() - (ONE_RAW as int)) <= DEFAULT_EPSILON as int,
    ensures
        ({
            let r = v.div_scaled_spec(fsqrt(v.norm_sq_spec()));
            iabs(r.x@ - v.x@) <= DEFAULT_EPSILON as int
                && iabs(r.y@ - v.y@) <= DEFAULT_EPSILON as int
                && iabs(r.z@ - v.z@) <= DEFAULT_EPSILON as int
        }),
        ({
            let f = v.scaled_spec(
                fmul((ONE_RAW as int) / 2, fsub(3 * (ONE_RAW as int), v.norm_sq_spec())),
            );
            iabs(f.x@ - v.x@) <= DEFAULT_EPSILON as int
                && iabs(f.y@ - v.y@) <= DEFAULT_EPSILON as int
                && iabs(f.z@ - v.z@) <= DEFAULT_EPSILON as int
        }),
{
    let ns = v.norm_sq_spec();
    lemma_fmul_square_nonneg(v.x@);
    lemma_fmul_square_nonneg(v.y@);
    lemma_fmul_square_nonneg(v.z@);
    assert(fmul(v.x@, v.x@) <= ns && fmul(v.y@, v.y@) <= ns && fmul(v.z@, v.z@) <= ns);
    lemma_square_bound(v.x@);
    lemma_square_bound(v.y@);
    lemma_square_bound(v.z@);
    lemma_fsqrt_near_one(ns);
    lemma_fdiv_near_one(v.x@, fsqrt(ns));
    lemma_fdiv_near_one(v.y@, fsqrt(ns));
    lemma_fdiv_near_one(v.z@, fsqrt(ns));
    lemma_newton_factor_near_one(ns);
    let factor = fmul((ONE_RAW as int) / 2, fsub(3 * (ONE_RAW as int), ns));
    lemma_fmul_near_one(v.x@, factor);
    lemma_fmul_near_one(v.y@, factor);
    lemma_fmul_near_one(v.z@, factor);
}

} // verus!
