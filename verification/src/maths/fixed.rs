//! The scalar type of the library: a signed binary fixed-point number with
//! 16 fractional bits, stored in an `i32`.
//!
//! Arithmetic saturates at the ends of the `i32` range, so the largest and
//! smallest representable values play the role that the infinities play for
//! floating-point numbers: overflowing work, and division by zero, pin the
//! result to `Fixed::infinity()` or `Fixed::neg_infinity()` instead of
//! failing.  Every operation is total and carries an exact contract.

use vstd::arithmetic::div_mod::lemma_div_pos_is_pos;
use vstd::arithmetic::div_mod::lemma_fundamental_div_mod;
use vstd::arithmetic::div_mod::lemma_mod_bound;
use vstd::arithmetic::div_mod::lemma_div_multiples_vanish;
use vstd::arithmetic::div_mod::lemma_div_nonincreasing;
use vstd::prelude::*;

verus! {

/// Raw units in 1.0: the scalar keeps 16 fractional bits.
pub const ONE_RAW: i32 = 65536;

/// The default tolerance of the fuzzy comparisons, in raw units of 2^-16
/// (about 2 * 10^-3): wide enough to absorb the truncation drift of a few
/// chained operations and the error of the sine polynomial.
pub const DEFAULT_EPSILON: i32 = 128;

/// A fixed-point scalar: `raw` counts units of 2^-16.
#[derive(Clone, Copy, Debug, PartialEq, Eq, Structural)]
pub struct Fixed {
    pub raw: i32,
}

impl View for Fixed {
    type V = int;

    open spec fn view(&self) -> int {
        self.raw as int
    }
}

/// The magnitude of a mathematical integer.
pub open spec fn iabs(v: int) -> int {
    if v < 0 {
        -v
    } else {
        v
    }
}

/// Saturation to the representable range of the raw `i32`.
pub open spec fn sat(v: int) -> int {
    if v > i32::MAX as int {
        i32::MAX as int
    } else if v < i32::MIN as int {
        i32::MIN as int
    } else {
        v
    }
}

/// Integer division truncated toward zero (the divisor must not be zero).
pub open spec fn quot(n: int, d: int) -> int {
    if (n < 0) == (d < 0) {
        iabs(n) / iabs(d)
    } else {
        -(iabs(n) / iabs(d))
    }
}

/// A raw value packed back into a scalar; meaningful for in-range `v`.
pub open spec fn fx(v: int) -> Fixed {
    Fixed { raw: v as i32 }
}

/// Saturating addition on raw values.
pub open spec fn fadd(a: int, b: int) -> int {
    sat(a + b)
}

/// Saturating subtraction on raw values.
pub open spec fn fsub(a: int, b: int) -> int {
    sat(a - b)
}

/// Saturating negation on raw values.
pub open spec fn fneg(a: int) -> int {
    sat(-a)
}

/// Saturating absolute value on raw values.
pub open spec fn fabs(a: int) -> int {
    sat(iabs(a))
}

/// Fixed-point product: the exact product rescaled by 2^-16, truncated
/// toward zero, then saturated.
pub open spec fn fmul(a: int, b: int) -> int {
    sat(quot(a * b, ONE_RAW as int))
}

/// Fixed-point quotient.  Division by zero saturates by the sign of the
/// dividend, mirroring the way floating-point division yields an infinity.
pub open spec fn fdiv(a: int, b: int) -> int {
    if b == 0 {
        if a >= 0 {
            i32::MAX as int
        } else {
            i32::MIN as int
        }
    } else {
        sat(quot(a * (ONE_RAW as int), b))
    }
}

/// `r` is the integer square root of the raw value `v` rescaled so that the
/// result is again a Q16 scalar.
pub open spec fn is_sqrt_of(r: int, v: int) -> bool {
    &&& r >= 0
    &&& r * r <= v * (ONE_RAW as int)
    &&& v * (ONE_RAW as int) < (r + 1) * (r + 1)
}

/// The fixed-point square root of a non-negative raw value.
pub open spec fn fsqrt(v: int) -> int {
    choose|r: int| is_sqrt_of(r, v)
}

/// Clamps an `i64` into the `i32` range.
pub(crate) fn clamp_i64(v: i64) -> (r: i32)
    ensures
        r as int == sat(v as int),
{
    if v > i32::MAX as i64 {
        i32::MAX
    } else if v < i32::MIN as i64 {
        i32::MIN
    } else {
        v as i32
    }
}

/// Division of `i64` values truncated toward zero, computed on magnitudes.
pub(crate) fn quot_i64(n: i64, d: i64) -> (r: i64)
    requires
        d != 0,
        n > i64::MIN,
        d > i64::MIN,
    ensures
        r as int == quot(n as int, d as int),
{
    let nn: u64 = if n < 0 {
        (-n) as u64
    } else {
        n as u64
    };
    let dd: u64 = if d < 0 {
        (-d) as u64
    } else {
        d as u64
    };
    proof {
        assert(nn as int == iabs(n as int));
        assert(dd as int == iabs(d as int));
        lemma_div_nonincreasing(nn as int, dd as int);
        lemma_div_pos_is_pos(nn as int, dd as int);
    }
    let q: u64 = nn / dd;
    if (n < 0) != (d < 0) {
        -(q as i64)
    } else {
        q as i64
    }
}

/// The product of two `i32`-ranged values stays well inside the `i64` range.
pub(crate) proof fn lemma_i32_product_bound(a: int, b: int)
    requires
        i32::MIN <= a <= i32::MAX,
        i32::MIN <= b <= i32::MAX,
    ensures
        -0x4000000000000000 <= a * b <= 0x4000000000000000,
{
    assert(-0x4000000000000000 <= a * b <= 0x4000000000000000) by (nonlinear_arith)
        requires
            -0x80000000 <= a <= 0x7fffffff,
            -0x80000000 <= b <= 0x7fffffff,
    ;
}

proof fn lemma_sqrt_unique(a: int, b: int, v: int)
    requires
        is_sqrt_of(a, v),
        is_sqrt_of(b, v),
    ensures
        a == b,
{
    if a < b {
        assert((a + 1) * (a + 1) <= b * b) by (nonlinear_arith)
            requires
                0 <= a + 1 <= b,
        ;
    }
    if b < a {
        assert((b + 1) * (b + 1) <= a * a) by (nonlinear_arith)
            requires
                0 <= b + 1 <= a,
        ;
    }
}

impl Fixed {
    /// Wraps a raw count of 2^-16 units.
    pub fn from_raw(raw: i32) -> (r: Fixed)
        ensures
            r@ == raw as int,
    {
        Fixed { raw }
    }

    /// The raw count of 2^-16 units.
    pub fn raw(self) -> (r: i32)
        ensures
            r as int == self@,
    {
        self.raw
    }

    /// The scalar closest to the integer `i`.
    pub fn from_int(i: i32) -> (r: Fixed)
        ensures
            r@ == sat(i * (ONE_RAW as int)),
    {
        proof {
            lemma_i32_product_bound(i as int, ONE_RAW as int);
        }
        Fixed { raw: clamp_i64((i as i64) * (ONE_RAW as i64)) }
    }

    pub fn zero() -> (r: Fixed)
        ensures
            r@ == 0,
    {
        Fixed { raw: 0 }
    }

    pub fn one() -> (r: Fixed)
        ensures
            r@ == ONE_RAW as int,
    {
        Fixed { raw: ONE_RAW }
    }

    pub fn half() -> (r: Fixed)
        ensures
            r@ == (ONE_RAW as int) / 2,
    {
        Fixed { raw: 32768 }
    }

    pub fn two() -> (r: Fixed)
        ensures
            r@ == 2 * (ONE_RAW as int),
    {
        Fixed { raw: 131072 }
    }

    pub fn three() -> (r: Fixed)
        ensures
            r@ == 3 * (ONE_RAW as int),
    {
        Fixed { raw: 196608 }
    }

    /// The largest scalar: the saturation analogue of +infinity.
    pub fn infinity() -> (r: Fixed)
        ensures
            r@ == i32::MAX as int,
    {
        Fixed { raw: i32::MAX }
    }

    /// The smallest scalar: the saturation analogue of -infinity.
    pub fn neg_infinity() -> (r: Fixed)
        ensures
            r@ == i32::MIN as int,
    {
        Fixed { raw: i32::MIN }
    }

    pub fn add(self, rhs: Fixed) -> (r: Fixed)
        ensures
            r@ == fadd(self@, rhs@),
    {
        Fixed { raw: clamp_i64(self.raw as i64 + rhs.raw as i64) }
    }

    pub fn sub(self, rhs: Fixed) -> (r: Fixed)
        ensures
            r@ == fsub(self@, rhs@),
    {
        Fixed { raw: clamp_i64(self.raw as i64 - rhs.raw as i64) }
    }

    pub fn neg(self) -> (r: Fixed)
        ensures
            r@ == fneg(self@),
    {
        Fixed { raw: clamp_i64(-(self.raw as i64)) }
    }

    pub fn abs(self) -> (r: Fixed)
        ensures
            r@ == fabs(self@),
    {
        let w: i64 = self.raw as i64;
        Fixed { raw: clamp_i64(if w < 0 { -w } else { w }) }
    }

    pub fn mul(self, rhs: Fixed) -> (r: Fixed)
        ensures
            r@ == fmul(self@, rhs@),
    {
        proof {
            lemma_i32_product_bound(self.raw as int, rhs.raw as int);
        }
        let p: i64 = (self.raw as i64) * (rhs.raw as i64);
        Fixed { raw: clamp_i64(quot_i64(p, ONE_RAW as i64)) }
    }

    pub fn div(self, rhs: Fixed) -> (r: Fixed)
        ensures
            r@ == fdiv(self@, rhs@),
    {
        if rhs.raw == 0 {
            if self.raw >= 0 {
                Fixed { raw: i32::MAX }
            } else {
                Fixed { raw: i32::MIN }
            }
        } else {
            proof {
                lemma_i32_product_bound(self.raw as int, ONE_RAW as int);
            }
            let n: i64 = (self.raw as i64) * (ONE_RAW as i64);
            Fixed { raw: clamp_i64(quot_i64(n, rhs.raw as i64)) }
        }
    }

    /// The reciprocal: `1 / self`, with `recip(0) == infinity`.
    pub fn recip(self) -> (r: Fixed)
        ensures
            r@ == fdiv(ONE_RAW as int, self@),
    {
        Fixed { raw: ONE_RAW }.div(self)
    }

    /// Division of the raw value by a small positive integer (not another
    /// scalar); used for polynomial coefficients.
    pub(crate) fn divn(self, d: i32) -> (r: Fixed)
        requires
            d > 0,
        ensures
            r@ == quot(self@, d as int),
    {
        proof {
            lemma_div_nonincreasing(iabs(self@), d as int);
            lemma_div_pos_is_pos(iabs(self@), d as int);
        }
        Fixed { raw: clamp_i64(quot_i64(self.raw as i64, d as i64)) }
    }

    /// The fixed-point square root of a non-negative scalar.
    pub fn sqrt(self) -> (r: Fixed)
        requires
            self@ >= 0,
        ensures
            r@ == fsqrt(self@),
            is_sqrt_of(r@, self@),
    {
        let x: u64 = (self.raw as u64) * (ONE_RAW as u64);
        let mut lo: u64 = 0;
        let mut hi: u64 = 16777216;
        proof {
            assert(x < 16777216u64 * 16777216u64) by (nonlinear_arith)
                requires
                    x <= 0x7fffffffu64 * 65536u64,
            ;
        }
        while lo + 1 < hi
            invariant
                (lo as int) * (lo as int) <= x as int,
                (x as int) < (hi as int) * (hi as int),
                lo < hi <= 16777216,
            decreases hi - lo,
        {
            let mid: u64 = lo + (hi - lo) / 2;
            proof {
                assert(mid * mid <= 16777216u64 * 16777216u64) by (nonlinear_arith)
                    requires
                        mid <= 16777216u64,
                ;
            }
            if mid * mid <= x {
                lo = mid;
            } else {
                hi = mid;
            }
        }
        proof {
            assert(is_sqrt_of(lo as int, self@));
            assert(exists|r: int| is_sqrt_of(r, self@));
            lemma_sqrt_unique(lo as int, fsqrt(self@), self@);
        }
        Fixed { raw: lo as i32 }
    }
}

/// The square of any scalar is non-negative.
pub proof fn lemma_fmul_square_nonneg(a: int)
    ensures
        fmul(a, a) >= 0,
{
    assert(a * a >= 0) by (nonlinear_arith);
    lemma_div_pos_is_pos(iabs(a * a), ONE_RAW as int);
}

/// Multiplying by one is the identity on every representable scalar.
pub proof fn lemma_fmul_one(x: int)
    requires
        i32::MIN <= x <= i32::MAX,
    ensures
        fmul(x, ONE_RAW as int) == x,
        fmul(ONE_RAW as int, x) == x,
{
    assert(iabs(x * 65536) == iabs(x) * 65536) by (nonlinear_arith);
    assert(iabs(65536 * x) == iabs(x) * 65536) by (nonlinear_arith);
    lemma_div_multiples_vanish(iabs(x), 65536);
    assert(65536 * iabs(x) == iabs(x) * 65536) by (nonlinear_arith);
}

/// Dividing by one is the identity on every representable scalar.
pub proof fn lemma_fdiv_one(x: int)
    requires
        i32::MIN <= x <= i32::MAX,
    ensures
        fdiv(x, ONE_RAW as int) == x,
{
    assert(iabs(x * 65536) == iabs(x) * 65536) by (nonlinear_arith);
    lemma_div_multiples_vanish(iabs(x), 65536);
    assert(65536 * iabs(x) == iabs(x) * 65536) by (nonlinear_arith);
}

/// The square root of one is one.
pub proof fn lemma_fsqrt_one()
    ensures
        fsqrt(ONE_RAW as int) == ONE_RAW as int,
{
    assert(is_sqrt_of(65536, 65536)) by (nonlinear_arith);
    lemma_sqrt_unique(65536, fsqrt(ONE_RAW as int), ONE_RAW as int);
}


/// `r` is the integer square root of the plain integer `n`.
spec fn is_int_sqrt(r: int, n: int) -> bool {
    &&& 0 <= r
    &&& r * r <= n
    &&& n < (r + 1) * (r + 1)
}

/// Every non-negative integer has an integer square root.
proof fn lemma_int_sqrt_exists(n: int)
    requires
        n >= 0,
    ensures
        exists|r: int| #[trigger] is_int_sqrt(r, n),
    decreases n,
{
    if n == 0 {
        assert(is_int_sqrt(0, 0));
    } else {
        lemma_int_sqrt_exists(n - 1);
        let r = choose|r: int| #[trigger] is_int_sqrt(r, n - 1);
        if (r + 1) * (r + 1) <= n {
            assert(n < (r + 2) * (r + 2)) by (nonlinear_arith)
                requires
                    0 <= r,
                    n <= (r + 1) * (r + 1),
            ;
            assert(is_int_sqrt(r + 1, n));
        } else {
            assert(is_int_sqrt(r, n));
        }
    }
}

/// The square root of a value within the default tolerance of one lies in
/// a band around one no wider than the tolerance.
pub proof fn lemma_fsqrt_near_one(v: int)
    requires
        iabs(v - (ONE_RAW as int)) <= DEFAULT_EPSILON as int,
    ensures
        65471 <= fsqrt(v) <= 65599,
{
    lemma_int_sqrt_exists(v * (ONE_RAW as int));
    let w = choose|r: int| #[trigger] is_int_sqrt(r, v * (ONE_RAW as int));
    assert(is_sqrt_of(w, v));
    assert(exists|r: int| is_sqrt_of(r, v));
    let n = fsqrt(v);
    assert(is_sqrt_of(n, v));
    assert(n <= 65599) by (nonlinear_arith)
        requires
            n * n <= v * 65536,
            v <= 65664,
            n >= 0,
    ;
    assert(n >= 65471) by (nonlinear_arith)
        requires
            v * 65536 < (n + 1) * (n + 1),
            v >= 65408,
            n >= 0,
    ;
}

/// Dividing a bounded value by a divisor from the band around one moves it
/// by at most the default tolerance.
pub proof fn lemma_fdiv_near_one(x: int, n: int)
    requires
        65471 <= n <= 65599,
        iabs(x) <= 65600,
    ensures
        iabs(fdiv(x, n) - x) <= DEFAULT_EPSILON as int,
{
    let ia = iabs(x);
    let a = ia * (ONE_RAW as int);
    lemma_fundamental_div_mod(a, n);
    lemma_mod_bound(a, n);
    lemma_div_pos_is_pos(a, n);
    let q = a / n;
    assert(ia - 128 <= q <= ia + 128) by (nonlinear_arith)
        requires
            a == n * q + a % n,
            0 <= a % n < n,
            a == ia * 65536,
            65471 <= n <= 65599,
            0 <= ia <= 65600,
    ;
    if x >= 0 {
        assert(iabs(x * 65536) == a);
        assert(quot(x * 65536, n) == q);
    } else {
        assert(iabs(x * 65536) == a);
        assert(quot(x * 65536, n) == -q);
    }
}

/// Scaling a bounded value by a factor from the band around one moves it
/// by at most the default tolerance.
pub proof fn lemma_fmul_near_one(x: int, f: int)
    requires
        65471 <= f <= 65600,
        iabs(x) <= 65600,
    ensures
        iabs(fmul(x, f) - x) <= DEFAULT_EPSILON as int,
{
    let ia = iabs(x);
    let a = ia * f;
    assert(a >= 0) by (nonlinear_arith)
        requires
            a == ia * f,
            ia >= 0,
            f > 0,
    ;
    lemma_fundamental_div_mod(a, 65536);
    lemma_mod_bound(a, 65536);
    lemma_div_pos_is_pos(a, 65536);
    let q = a / 65536;
    assert(ia - 128 <= q <= ia + 128) by (nonlinear_arith)
        requires
            a == 65536 * q + a % 65536,
            0 <= a % 65536 < 65536,
            a == ia * f,
            65471 <= f <= 65600,
            0 <= ia <= 65600,
    ;
    if x >= 0 {
        assert(x * f == a) by (nonlinear_arith)
            requires
                a == ia * f,
                ia == x,
        ;
        assert(quot(x * f, 65536) == q);
    } else {
        assert(x * f == -a) by (nonlinear_arith)
            requires
                a == ia * f,
                ia == -x,
        ;
        assert(iabs(x * f) == a);
        assert(quot(x * f, 65536) == -q);
    }
}

/// The Newton step factor `0.5 * (3 - ns)` computed from a squared norm
/// within the default tolerance of one lies in the band around one.
pub proof fn lemma_newton_factor_near_one(ns: int)
    requires
        iabs(ns - (ONE_RAW as int)) <= DEFAULT_EPSILON as int,
    ensures
        65471 <= fmul((ONE_RAW as int) / 2, fsub(3 * (ONE_RAW as int), ns)) <= 65600,
{
    let d = fsub(3 * (ONE_RAW as int), ns);
    assert(130944 <= d <= 131200);
    lemma_fundamental_div_mod(32768 * d, 65536);
    lemma_mod_bound(32768 * d, 65536);
    lemma_div_pos_is_pos(32768 * d, 65536);
    let q = (32768 * d) / 65536;
    assert(65472 <= q <= 65600) by (nonlinear_arith)
        requires
            32768 * d == 65536 * q + (32768 * d) % 65536,
            0 <= (32768 * d) % 65536 < 65536,
            130944 <= d <= 131200,
    ;
    assert(quot(32768 * d, 65536) == q);
}

/// A scalar whose computed square is at most one-plus-tolerance has a
/// magnitude at most 65600 raw units.
pub proof fn lemma_square_bound(c: int)
    requires
        fmul(c, c) <= 65664,
    ensures
        iabs(c) <= 65600,
{
    assert(c * c >= 0) by (nonlinear_arith);
    lemma_fundamental_div_mod(c * c, 65536);
    lemma_mod_bound(c * c, 65536);
    lemma_div_pos_is_pos(c * c, 65536);
    let q = (c * c) / 65536;
    assert(quot(c * c, 65536) == q);
    assert(q <= 65664);
    if c >= 0 {
        assert(c <= 65600) by (nonlinear_arith)
            requires
                c * c == 65536 * q + (c * c) % 65536,
                0 <= (c * c) % 65536 < 65536,
                q <= 65664,
                c >= 0,
        ;
    } else {
        assert(-c <= 65600) by (nonlinear_arith)
            requires
                c * c == 65536 * q + (c * c) % 65536,
                0 <= (c * c) % 65536 < 65536,
                q <= 65664,
                c < 0,
        ;
    }
}

/// Multiplying by zero yields zero.
pub proof fn lemma_fmul_zero(x: int)
    ensures
        fmul(x, 0) == 0,
        fmul(0, x) == 0,
{
    assert(x * 0 == 0) by (nonlinear_arith);
    assert(0 * x == 0) by (nonlinear_arith);
    assert(iabs(0int) / 65536int == 0int);
}

} // verus!
