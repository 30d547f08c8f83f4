//! A 2D vector: a displacement in the plane.

use crate::maths::angle::Angle;
use crate::maths::angle::cos_spec;
use crate::maths::angle::sin_spec;
use crate::maths::fixed::Fixed;
use crate::maths::fixed::ONE_RAW;
use crate::maths::fixed::fadd;
use crate::maths::fixed::fdiv;
use crate::maths::fixed::fmul;
use crate::maths::fixed::fneg;
use crate::maths::fixed::fsub;
use crate::maths::fixed::fx;
use crate::maths::fixed::lemma_fmul_square_nonneg;
use crate::maths::fixed::fsqrt;
use crate::maths::mat4::Mat4;
use crate::maths::unit::Normed;
use crate::maths::unit::Unit;
use crate::maths::fixed::lemma_fmul_one;
use crate::maths::fixed::lemma_fdiv_one;
use crate::maths::fixed::lemma_fsqrt_one;
use crate::maths::fixed::DEFAULT_EPSILON;
use crate::maths::fixed::iabs;
use crate::maths::fixed::lemma_fdiv_near_one;
use crate::maths::fixed::lemma_fmul_near_one;
use crate::maths::fixed::lemma_fsqrt_near_one;
use crate::maths::fixed::lemma_newton_factor_near_one;
use crate::maths::fixed::lemma_square_bound;
use vstd::prelude::*;

verus! {

#[derive(Clone, Copy, Debug, PartialEq, Eq, Structural)]
pub struct Vec2 {
    pub x: Fixed,
    pub y: Fixed,
}

/// Component-wise sum.
pub open spec fn add2_spec(a: Vec2, b: Vec2) -> Vec2 {
    Vec2 { x: fx(fadd(a.x@, b.x@)), y: fx(fadd(a.y@, b.y@)) }
}

/// Component-wise difference.
pub open spec fn sub2_spec(a: Vec2, b: Vec2) -> Vec2 {
    Vec2 { x: fx(fsub(a.x@, b.x@)), y: fx(fsub(a.y@, b.y@)) }
}

/// Component-wise negation.
pub open spec fn neg2_spec(a: Vec2) -> Vec2 {
    Vec2 { x: fx(fneg(a.x@)), y: fx(fneg(a.y@)) }
}

/// The dot product, as a raw scalar value.
pub open spec fn dot2_spec(a: Vec2, b: Vec2) -> int {
    fadd(fmul(a.x@, b.x@), fmul(a.y@, b.y@))
}

/// Rotation by an angle whose sine and cosine are `s` and `c`.
pub open spec fn rotate2_spec(v: Vec2, a: int) -> Vec2 {
    let s = sin_spec(a);
    let c = cos_spec(a);
    Vec2 {
        x: fx(fsub(fmul(v.x@, c), fmul(v.y@, s))),
        y: fx(fadd(fmul(v.x@, s), fmul(v.y@, c))),
    }
}

/// Application of a 4x4 matrix to the vector as a position in the plane
/// (implicit `z = 0`, `w = 1`): the translation column takes effect.
pub open spec fn transform2_spec(v: Vec2, m: Mat4) -> Vec2 {
    Vec2 {
        x: fx(fadd(fadd(fmul(v.x@, m.m00@), fmul(v.y@, m.m10@)), m.m30@)),
        y: fx(fadd(fadd(fmul(v.x@, m.m01@), fmul(v.y@, m.m11@)), m.m31@)),
    }
}

/// Linear interpolation from `start` to `end` at `t`, then normalisation.
pub open spec fn lerp2_spec(start: Vec2, end: Vec2, t: int) -> Vec2 {
    let mid = add2_spec(
        start.scaled_spec(fsub(ONE_RAW as int, t)),
        end.scaled_spec(t),
    );
    mid.div_scaled_spec(fsqrt(mid.norm_sq_spec()))
}

impl Vec2 {
    pub fn new(x: Fixed, y: Fixed) -> (r: Vec2)
        ensures
            r == (Vec2 { x, y }),
    {
        Vec2 { x, y }
    }

    pub fn splat(value: Fixed) -> (r: Vec2)
        ensures
            r == (Vec2 { x: value, y: value }),
    {
        Vec2 { x: value, y: value }
    }

    pub fn zero() -> (r: Vec2)
        ensures
            r.x@ == 0 && r.y@ == 0,
    {
        Vec2::splat(Fixed::zero())
    }

    pub fn positive_one() -> (r: Vec2)
        ensures
            r.x@ == ONE_RAW as int && r.y@ == ONE_RAW as int,
    {
        Vec2::splat(Fixed::one())
    }

    pub fn negative_one() -> (r: Vec2)
        ensures
            r.x@ == -(ONE_RAW as int) && r.y@ == -(ONE_RAW as int),
    {
        Vec2::splat(Fixed::one().neg())
    }

    pub fn unit_x() -> (r: Vec2)
        ensures
            r.x@ == ONE_RAW as int && r.y@ == 0,
    {
        Vec2 { x: Fixed::one(), y: Fixed::zero() }
    }

    pub fn unit_y() -> (r: Vec2)
        ensures
            r.x@ == 0 && r.y@ == ONE_RAW as int,
    {
        Vec2 { x: Fixed::zero(), y: Fixed::one() }
    }

    pub fn positive_infinity() -> (r: Vec2)
        ensures
            r.x@ == i32::MAX as int && r.y@ == i32::MAX as int,
    {
        Vec2::splat(Fixed::infinity())
    }

    pub fn negative_infinity() -> (r: Vec2)
        ensures
            r.x@ == i32::MIN as int && r.y@ == i32::MIN as int,
    {
        Vec2::splat(Fixed::neg_infinity())
    }

    pub fn add(self, rhs: Vec2) -> (r: Vec2)
        ensures
            r == add2_spec(self, rhs),
    {
        Vec2 { x: self.x.add(rhs.x), y: self.y.add(rhs.y) }
    }

    pub fn sub(self, rhs: Vec2) -> (r: Vec2)
        ensures
            r == sub2_spec(self, rhs),
    {
        Vec2 { x: self.x.sub(rhs.x), y: self.y.sub(rhs.y) }
    }

    /// Scalar multiplication, broadcast over the components.
    pub fn mul(self, rhs: Fixed) -> (r: Vec2)
        ensures
            r == self.scaled_spec(rhs@),
    {
        self.mul_scalar(rhs)
    }

    /// Scalar division, broadcast over the components.
    pub fn div(self, rhs: Fixed) -> (r: Vec2)
        ensures
            r == self.div_scaled_spec(rhs@),
    {
        self.div_scalar(rhs)
    }

    pub fn neg(self) -> (r: Vec2)
        ensures
            r == neg2_spec(self),
    {
        Vec2 { x: self.x.neg(), y: self.y.neg() }
    }

    pub fn dot(&self, rhs: &Vec2) -> (r: Fixed)
        ensures
            r@ == dot2_spec(*self, *rhs),
    {
        self.x.mul(rhs.x).add(self.y.mul(rhs.y))
    }

    /// The component-wise reciprocal; a zero component saturates to the
    /// matching infinity analogue.
    pub fn reciprocal(&self) -> (r: Vec2)
        ensures
            r.x@ == fdiv(ONE_RAW as int, self.x@),
            r.y@ == fdiv(ONE_RAW as int, self.y@),
    {
        Vec2 { x: self.x.recip(), y: self.y.recip() }
    }

    /// The perpendicular on the left: `(-y, x)`.
    pub fn left_perpendicular(&self) -> (r: Vec2)
        ensures
            r == (Vec2 { x: fx(fneg(self.y@)), y: self.x }),
    {
        Vec2 { x: self.y.neg(), y: self.x }
    }

    pub fn left_perpendicular_dot(&self, rhs: &Vec2) -> (r: Fixed)
        ensures
            r@ == dot2_spec(Vec2 { x: fx(fneg(self.y@)), y: self.x }, *rhs),
    {
        self.left_perpendicular().dot(rhs)
    }

    /// The perpendicular on the right: `(y, -x)`.
    pub fn right_perpendicular(&self) -> (r: Vec2)
        ensures
            r == (Vec2 { x: self.y, y: fx(fneg(self.x@)) }),
    {
        Vec2 { x: self.y, y: self.x.neg() }
    }

    pub fn right_perpendicular_dot(&self, rhs: &Vec2) -> (r: Fixed)
        ensures
            r@ == dot2_spec(Vec2 { x: self.y, y: fx(fneg(self.x@)) }, *rhs),
    {
        self.right_perpendicular().dot(rhs)
    }

    /// Rotation by `angle` through the standard 2D rotation matrix.
    pub fn rotate(&self, angle: Angle) -> (r: Vec2)
        requires
            angle.wf(),
        ensures
            r == rotate2_spec(*self, angle@),
    {
        let (sin, cos) = angle.sin_cos();
        Vec2 {
            x: self.x.mul(cos).sub(self.y.mul(sin)),
            y: self.x.mul(sin).add(self.y.mul(cos)),
        }
    }

    pub fn rotate_by(&mut self, angle: Angle)
        requires
            angle.wf(),
        ensures
            *final(self) == rotate2_spec(*old(self), angle@),
    {
        *self = self.rotate(angle);
    }

    /// Applies a 4x4 matrix, treating the vector as a position with
    /// implicit `z = 0` and `w = 1`.
    pub fn transform(&self, matrix: &Mat4) -> (r: Vec2)
        ensures
            r == transform2_spec(*self, *matrix),
    {
        let x = self.x.mul(matrix.m00).add(self.y.mul(matrix.m10)).add(matrix.m30);
        let y = self.x.mul(matrix.m01).add(self.y.mul(matrix.m11)).add(matrix.m31);
        Vec2 { x, y }
    }

    pub fn transform_by(&mut self, matrix: &Mat4)
        ensures
            *final(self) == transform2_spec(*old(self), *matrix),
    {
        *self = self.transform(matrix);
    }

    /// Interpolates between two directions and re-normalises the result.
    pub fn lerp(start: &Vec2, end: &Vec2, t: Fixed) -> (r: Unit<Vec2>)
        ensures
            r@ == lerp2_spec(*start, *end, t@),
    {
        let mid = start.mul_scalar(Fixed::one().sub(t)).add(end.mul_scalar(t));
        Unit::from(mid)
    }
}

impl Normed for Vec2 {
    open spec fn norm_sq_spec(self) -> int {
        dot2_spec(self, self)
    }

    open spec fn scaled_spec(self, s: int) -> Vec2 {
        Vec2 { x: fx(fmul(self.x@, s)), y: fx(fmul(self.y@, s)) }
    }

    open spec fn div_scaled_spec(self, s: int) -> Vec2 {
        Vec2 { x: fx(fdiv(self.x@, s)), y: fx(fdiv(self.y@, s)) }
    }

    proof fn lemma_norm_sq_nonneg(self) {
        lemma_fmul_square_nonneg(self.x@);
        lemma_fmul_square_nonneg(self.y@);
    }

    fn norm_squared(&self) -> (r: Fixed) {
        self.dot(self)
    }

    fn norm(&self) -> (r: Fixed) {
        proof {
            self.lemma_norm_sq_nonneg();
        }
        self.norm_squared().sqrt()
    }

    fn mul_scalar(&self, s: Fixed) -> (r: Vec2) {
        Vec2 { x: self.x.mul(s), y: self.y.mul(s) }
    }

    fn div_scalar(&self, s: Fixed) -> (r: Vec2) {
        Vec2 { x: self.x.div(s), y: self.y.div(s) }
    }
}

/// The exact core of normalisation idempotence: a vector whose squared
/// norm is exactly one is returned unchanged both by exact normalisation
/// (division by the norm) and by the fast Newton step.
pub proof fn lemma_vec2_normalise_unit(v: Vec2)
    requires
        v.norm_sq_spec() == ONE_RAW as int,
    ensures
        v.div_scaled_spec(fsqrt(v.norm_sq_spec())) == v,
        v.scaled_spec(fmul((ONE_RAW as int) / 2, fsub(3 * (ONE_RAW as int), v.norm_sq_spec())))
            == v,
{
    lemma_fsqrt_one();
    lemma_fdiv_one(v.x@);
    lemma_fdiv_one(v.y@);
    assert(fmul((ONE_RAW as int) / 2, fsub(3 * (ONE_RAW as int), ONE_RAW as int))
        == ONE_RAW as int) by (nonlinear_arith);
    lemma_fmul_one(v.x@);
    lemma_fmul_one(v.y@);
}

/// Normalisation idempotence under drift: when the squared norm is within
/// the default tolerance of one, both re-normalisation paths (exact
/// division by the norm, and the fast Newton step) move every component by
/// at most that tolerance.
pub proof fn lemma_vec2_normalise_within_tolerance(v: Vec2)
    requires
        iabs(v.norm_sq_spec() - (ONE_RAW as int)) <= DEFAULT_EPSILON as int,
    ensures
        ({
            let r = v.div_scaled_spec(fsqrt(v.norm_sq_spec()));
            iabs(r.x@ - v.x@) <= DEFAULT_EPSILON as int
                && iabs(r.y@ - v.y@) <= DEFAULT_EPSILON as int
        }),
        ({
            let f = v.scaled_spec(
                fmul((ONE_RAW as int) / 2, fsub(3 * (ONE_RAW as int), v.norm_sq_spec())),
            );
            iabs(f.x@ - v.x@) <= DEFAULT_EPSILON as int
                && iabs(f.y@ - v.y@) <= DEFAULT_EPSILON as int
        }),
{
    let ns = v.norm_sq_spec();
    lemma_fmul_square_nonneg(v.x@);
    lemma_fmul_square_nonneg(v.y@);
    assert(fmul(v.x@, v.x@) <= ns && fmul(v.y@, v.y@) <= ns);
    lemma_square_bound(v.x@);
    lemma_square_bound(v.y@);
    lemma_fsqrt_near_one(ns);
    lemma_fdiv_near_one(v.x@, fsqrt(ns));
    lemma_fdiv_near_one(v.y@, fsqrt(ns));
    lemma_newton_factor_near_one(ns);
    let factor = fmul((ONE_RAW as int) / 2, fsub(3 * (ONE_RAW as int), ns));
    lemma_fmul_near_one(v.x@, factor);
    lemma_fmul_near_one(v.y@, factor);
}

} // verus!
