//! A wrapped-radian angle.
//!
//! The stored value is a fixed-point radian count that every factory and
//! every arithmetic operation reduces into `[0, 2*pi)`, so callers can rely
//! on the wrap-around: a full extra turn never changes an angle.  Sine and
//! cosine are computed from a degree-7 odd polynomial after quadrant
//! reduction; the polynomial is exact in the contract and accurate to a few
//! raw units, well inside the default fuzzy tolerance.

use crate::maths::fixed::Fixed;
use crate::maths::fixed::ONE_RAW;
use crate::maths::fixed::fadd;
use crate::maths::fixed::fmul;
use crate::maths::fixed::fsub;
use crate::maths::fixed::lemma_i32_product_bound;
use crate::maths::fixed::quot;
use crate::maths::fixed::quot_i64;
use vstd::arithmetic::div_mod::lemma_div_is_ordered;
use vstd::arithmetic::div_mod::lemma_hoist_over_denominator;
use vstd::arithmetic::div_mod::lemma_div_pos_is_pos;
use vstd::arithmetic::div_mod::lemma_fundamental_div_mod;
use vstd::arithmetic::div_mod::lemma_fundamental_div_mod_converse_div;
use vstd::arithmetic::div_mod::lemma_fundamental_div_mod_converse_mod;
use vstd::arithmetic::div_mod::lemma_mod_add_multiples_vanish;
use vstd::prelude::*;

verus! {

/// One full turn (2*pi) in raw units.
pub const TAU_RAW: i32 = 411775;

/// Half a turn (pi) in raw units.
pub const PI_RAW: i32 = 205887;

/// A quarter turn (pi / 2) in raw units.
pub const HALF_PI_RAW: i32 = 102944;

/// Three quarter turns (3 * pi / 2) in raw units.
pub const THREE_HALF_PI_RAW: i32 = 308831;

/// Raw units in 360 degrees.
pub const DEG_DIV: i32 = 360 * 65536;

/// Reduction of a raw radian count into `[0, 2*pi)`.
pub open spec fn wrap_spec(v: int) -> int {
    v % (TAU_RAW as int)
}

/// The degree-7 odd polynomial for the sine on roughly `[-pi/2, pi/2]`:
/// `x - x^3/6 + x^5/120 - x^7/5040`, evaluated in fixed point.
pub open spec fn sin_poly_spec(x: int) -> int {
    let x2 = fmul(x, x);
    let x3 = fmul(x2, x);
    let x5 = fmul(x3, x2);
    let x7 = fmul(x5, x2);
    fsub(fadd(fsub(x, quot(x3, 6)), quot(x5, 120)), quot(x7, 5040))
}

/// The sine of a wrapped angle, by quadrant reduction onto the polynomial.
pub open spec fn sin_spec(a: int) -> int {
    if a < HALF_PI_RAW as int {
        sin_poly_spec(a)
    } else if a < THREE_HALF_PI_RAW as int {
        sin_poly_spec(PI_RAW as int - a)
    } else {
        sin_poly_spec(a - TAU_RAW as int)
    }
}

/// The cosine of a wrapped angle: the sine a quarter turn later.
pub open spec fn cos_spec(a: int) -> int {
    sin_spec(wrap_spec(a + HALF_PI_RAW as int))
}

/// Degrees to wrapped raw radians, rounding the quotient down.
pub open spec fn degrees_spec(x: int) -> int {
    wrap_spec((x * (TAU_RAW as int)) / (DEG_DIV as int))
}

/// A wrapped-radian angle, always reduced into `[0, 2*pi)`.
#[derive(Clone, Copy, Debug, PartialEq, Eq, Structural)]
pub struct Angle {
    raw: i32,
}

impl View for Angle {
    type V = int;

    closed spec fn view(&self) -> int {
        self.raw as int
    }
}

/// Euclidean remainder of a wide value by one turn.
fn wrap_i64(v: i64) -> (r: i32)
    requires
        -0x4000000000000000 <= v <= 0x4000000000000000,
    ensures
        r as int == wrap_spec(v as int),
        0 <= r < TAU_RAW,
{
    let t: u64 = TAU_RAW as u64;
    if v >= 0 {
        let m: u64 = (v as u64) % t;
        m as i32
    } else {
        let a: u64 = (-v) as u64;
        let p: u64 = a % t;
        proof {
            lemma_fundamental_div_mod(a as int, t as int);
            let q = a as int / t as int;
            if p == 0 {
                lemma_fundamental_div_mod_converse_mod(v as int, t as int, -q, 0);
            } else {
                lemma_fundamental_div_mod_converse_mod(
                    v as int,
                    t as int,
                    -q - 1,
                    t as int - p as int,
                );
            }
        }
        if p == 0 {
            0
        } else {
            (t - p) as i32
        }
    }
}

/// Division of a wide value by a positive divisor, rounding down.
fn floor_div_i64(n: i64, d: i64) -> (r: i64)
    requires
        0 < d,
        -0x4000000000000000 <= n <= 0x4000000000000000,
        d <= 0x4000000000000000,
    ensures
        r as int == n as int / d as int,
{
    if n >= 0 {
        ((n as u64) / (d as u64)) as i64
    } else {
        let a: u64 = (-n) as u64;
        let q: u64 = (a + (d as u64) - 1) / (d as u64);
        proof {
            lemma_fundamental_div_mod(a as int + d as int - 1, d as int);
            let dd = d as int;
            let qq = (a as int + dd - 1) / dd;
            let r0 = (a as int + dd - 1) % dd;
            assert(n as int == (-qq) * dd + (dd - 1 - r0)) by (nonlinear_arith)
                requires
                    a as int + dd - 1 == dd * qq + r0,
                    n as int == -(a as int),
            ;
            lemma_fundamental_div_mod_converse_div(n as int, dd, -qq, dd - 1 - r0);
        }
        -(q as i64)
    }
}

impl Angle {
    /// The angle is in its reduced range.
    pub open spec fn wf(self) -> bool {
        0 <= self@ < TAU_RAW as int
    }

    pub fn zero() -> (r: Angle)
        ensures
            r@ == 0,
            r.wf(),
    {
        Angle { raw: 0 }
    }

    pub fn half_pi() -> (r: Angle)
        ensures
            r@ == HALF_PI_RAW as int,
            r.wf(),
    {
        Angle { raw: HALF_PI_RAW }
    }

    pub fn pi() -> (r: Angle)
        ensures
            r@ == PI_RAW as int,
            r.wf(),
    {
        Angle { raw: PI_RAW }
    }

    /// Three quarters of a turn: pi + pi/2.
    pub fn three_pi() -> (r: Angle)
        ensures
            r@ == THREE_HALF_PI_RAW as int,
            r.wf(),
    {
        Angle { raw: THREE_HALF_PI_RAW }
    }

    /// The wrapped angle measuring `degrees` in degrees.
    pub fn degrees(degrees: Fixed) -> (r: Angle)
        ensures
            r@ == degrees_spec(degrees@),
            r.wf(),
    {
        proof {
            assert(-0x4000000000000000 <= (degrees@) * (TAU_RAW as int) <= 0x4000000000000000)
                by (nonlinear_arith)
                requires
                    -0x80000000 <= degrees@ <= 0x7fffffff,
            ;
        }
        let n: i64 = (degrees.raw as i64) * (TAU_RAW as i64);
        let q: i64 = floor_div_i64(n, DEG_DIV as i64);
        proof {
            lemma_div_is_ordered(-0x4000000000000000, n as int, DEG_DIV as int);
            lemma_div_is_ordered(n as int, 0x4000000000000000, DEG_DIV as int);
        }
        Angle { raw: wrap_i64(q) }
    }

    /// The wrapped angle measuring `radians` in radians.
    pub fn radians(radians: Fixed) -> (r: Angle)
        ensures
            r@ == wrap_spec(radians@),
            r.wf(),
    {
        Angle { raw: wrap_i64(radians.raw as i64) }
    }

    /// The angle expressed in degrees.
    pub fn into_degress(self) -> (r: Fixed)
        requires
            self.wf(),
        ensures
            r@ == (self@ * (DEG_DIV as int)) / (TAU_RAW as int),
    {
        let n: i64 = (self.raw as i64) * (DEG_DIV as i64);
        proof {
            lemma_i32_product_bound(self.raw as int, DEG_DIV as int);
            lemma_div_pos_is_pos(n as int, TAU_RAW as int);
            lemma_div_is_ordered(n as int, 411774 * (DEG_DIV as int), TAU_RAW as int);
        }
        let q: i64 = floor_div_i64(n, TAU_RAW as i64);
        Fixed::from_raw(q as i32)
    }

    /// The raw wrapped radian value.
    pub fn into_radians(self) -> (r: Fixed)
        ensures
            r@ == self@,
    {
        Fixed::from_raw(self.raw)
    }

    pub fn add(self, rhs: Angle) -> (r: Angle)
        ensures
            r@ == wrap_spec(self@ + rhs@),
            r.wf(),
    {
        Angle { raw: wrap_i64(self.raw as i64 + rhs.raw as i64) }
    }

    pub fn sub(self, rhs: Angle) -> (r: Angle)
        ensures
            r@ == wrap_spec(self@ - rhs@),
            r.wf(),
    {
        Angle { raw: wrap_i64(self.raw as i64 - rhs.raw as i64) }
    }

    /// Adds in place, wrapping.
    pub fn add_assign(&mut self, rhs: Angle)
        ensures
            final(self)@ == wrap_spec(old(self)@ + rhs@),
            final(self).wf(),
    {
        *self = self.add(rhs);
    }

    /// Subtracts in place, wrapping.
    pub fn sub_assign(&mut self, rhs: Angle)
        ensures
            final(self)@ == wrap_spec(old(self)@ - rhs@),
            final(self).wf(),
    {
        *self = self.sub(rhs);
    }

    /// Scales the angle by a scalar factor, then wraps.
    pub fn mul(self, rhs: Fixed) -> (r: Angle)
        ensures
            r@ == wrap_spec(quot(self@ * rhs@, ONE_RAW as int)),
            r.wf(),
    {
        proof {
            lemma_i32_product_bound(self.raw as int, rhs.raw as int);
        }
        let p: i64 = (self.raw as i64) * (rhs.raw as i64);
        let q: i64 = quot_i64(p, ONE_RAW as i64);
        proof {
            lemma_quot_bound(p as int, ONE_RAW as int);
        }
        Angle { raw: wrap_i64(q) }
    }

    /// Divides the angle by a scalar factor, then wraps.  The divisor must
    /// not be zero: a saturated quotient stands usefully for an infinity on
    /// the scalar, but wrapped into one turn it would be an arbitrary angle,
    /// so the degenerate case is excluded instead of given a made-up value.
    pub fn div(self, rhs: Fixed) -> (r: Angle)
        requires
            rhs@ != 0,
        ensures
            r@ == wrap_spec(quot(self@ * (ONE_RAW as int), rhs@)),
            r.wf(),
    {
        proof {
            lemma_i32_product_bound(self.raw as int, ONE_RAW as int);
        }
        let p: i64 = (self.raw as i64) * (ONE_RAW as i64);
        let q: i64 = quot_i64(p, rhs.raw as i64);
        proof {
            lemma_quot_bound(p as int, rhs@);
        }
        Angle { raw: wrap_i64(q) }
    }

    /// Scales in place, wrapping.
    pub fn mul_assign(&mut self, rhs: Fixed)
        ensures
            final(self)@ == wrap_spec(quot(old(self)@ * rhs@, ONE_RAW as int)),
            final(self).wf(),
    {
        *self = self.mul(rhs);
    }

    /// Divides in place, wrapping; the divisor must not be zero, as for
    /// `div`.
    pub fn div_assign(&mut self, rhs: Fixed)
        requires
            rhs@ != 0,
        ensures
            final(self)@ == wrap_spec(quot(old(self)@ * (ONE_RAW as int), rhs@)),
            final(self).wf(),
    {
        *self = self.div(rhs);
    }

    /// The sine and cosine of the angle, in that order.
    pub fn sin_cos(&self) -> (r: (Fixed, Fixed))
        requires
            self.wf(),
        ensures
            r.0@ == sin_spec(self@),
            r.1@ == cos_spec(self@),
    {
        let s: Fixed = sin_reduced(self.raw);
        let shifted: i32 = self.raw + HALF_PI_RAW;
        let c_arg: i32 = if shifted >= TAU_RAW {
            shifted - TAU_RAW
        } else {
            shifted
        };
        proof {
            if shifted >= TAU_RAW {
                lemma_fundamental_div_mod_converse_mod(
                    shifted as int,
                    TAU_RAW as int,
                    1,
                    shifted as int - TAU_RAW as int,
                );
            } else {
                lemma_fundamental_div_mod_converse_mod(shifted as int, TAU_RAW as int, 0, shifted as int);
            }
        }
        let c: Fixed = sin_reduced(c_arg);
        (s, c)
    }
}

/// The magnitude of a truncated quotient never exceeds the dividend's.
proof fn lemma_quot_bound(n: int, d: int)
    requires
        d != 0,
        -0x4000000000000000 <= n <= 0x4000000000000000,
    ensures
        -0x4000000000000000 <= quot(n, d) <= 0x4000000000000000,
{
    vstd::arithmetic::div_mod::lemma_div_nonincreasing(crate::maths::fixed::iabs(n), crate::maths::fixed::iabs(d));
    lemma_div_pos_is_pos(crate::maths::fixed::iabs(n), crate::maths::fixed::iabs(d));
}

/// The sine polynomial on a quadrant-reduced argument.
fn sin_poly(x: i32) -> (r: Fixed)
    requires
        -(HALF_PI_RAW as int) <= x as int <= HALF_PI_RAW as int,
    ensures
        r@ == sin_poly_spec(x as int),
{
    let f = Fixed { raw: x };
    let x2 = f.mul(f);
    let x3 = x2.mul(f);
    let x5 = x3.mul(x2);
    let x7 = x5.mul(x2);
    f.sub(x3.divn(6)).add(x5.divn(120)).sub(x7.divn(5040))
}

/// The sine of a wrapped raw angle.
fn sin_reduced(a: i32) -> (r: Fixed)
    requires
        0 <= a < TAU_RAW,
    ensures
        r@ == sin_spec(a as int),
{
    if a < HALF_PI_RAW {
        sin_poly(a)
    } else if a < THREE_HALF_PI_RAW {
        sin_poly(PI_RAW - a)
    } else {
        sin_poly(a - TAU_RAW)
    }
}

/// Adding a full turn of 360 degrees never changes the angle built by
/// `Angle::degrees`.
pub proof fn lemma_degrees_full_turn(x: int)
    ensures
        degrees_spec(x + DEG_DIV as int) == degrees_spec(x),
{
    let t = TAU_RAW as int;
    let d = DEG_DIV as int;
    assert((x + d) * t == x * t + t * d) by (nonlinear_arith);
    lemma_hoist_over_denominator(x * t, t, d as nat);
    lemma_mod_add_multiples_vanish((x * t) / d, t);
}

} // verus!
