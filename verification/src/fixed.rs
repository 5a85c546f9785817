//! A self-contained, exactly specified scalar and vector backend for the
//! algebra: signed 48.16 fixed-point numbers and 2D/3D vectors of them.
//!
//! A `Fixed` holds `raw / 65536` as its value. All arithmetic is saturating
//! into the symmetric range `[-i64::MAX, i64::MAX]` of raw values, and
//! multiplication and division round toward negative infinity; both choices
//! are part of the specification, stated by the `spec` functions here.
//! Saturation keeps every operation total, and the symmetric range keeps
//! negation and absolute value exact everywhere.

use vstd::prelude::*;

use vstd::arithmetic::div_mod::{
    lemma_basic_div, lemma_div_denominator, lemma_div_is_ordered, lemma_div_multiples_vanish,
    lemma_div_nonincreasing, lemma_div_of0, lemma_div_pos_is_pos, lemma_fundamental_div_mod,
    lemma_fundamental_div_mod_converse_div, lemma_mod_division_less_than_divisor,
    lemma_multiply_divide_lt,
};
use vstd::arithmetic::power2::{
    lemma2_to64, lemma2_to64_rest, lemma_pow2_adds, lemma_pow2_pos, lemma_pow2_strictly_increases,
    lemma_pow2_unfold, pow2,
};
use crate::ops::poly_smooth_min_spec;
use crate::mathtypes::{
    Arith, Clamp, Dim2D, Dim3D, Exp2, Lerp, Log2, MaxMin, One, PointFive, Rotation, Vec, Vec2,
    Vec3, Zero, clamp_spec, lerp_spec,
};
use crate::primitives::Axis;
use crate::SDF;

verus! {

/// The number of raw units per one: `Fixed` has 16 fractional bits.
pub const SCALE: i64 = 65536;

/// The largest raw value; the smallest is its negation, so that the range of
/// raw values is symmetric.
pub const MAX_RAW: i64 = i64::MAX;

/// Saturation into the symmetric raw range `[-MAX_RAW, MAX_RAW]`.
pub open spec fn sat(x: int) -> int {
    if x > MAX_RAW as int {
        MAX_RAW as int
    } else if x < -(MAX_RAW as int) {
        -(MAX_RAW as int)
    } else {
        x
    }
}

/// Division rounding toward negative infinity, with division by zero defined
/// as zero.
pub open spec fn fdiv(a: int, b: int) -> int {
    if b == 0 {
        0
    } else if b > 0 {
        a / b
    } else {
        (-a) / (-b)
    }
}

/// A signed 48.16 fixed-point number: its value is `raw / 65536`.
#[derive(Clone, Copy, Debug, PartialEq, Eq, Structural)]
pub struct Fixed {
    pub raw: i64,
}

/// Saturate a wide intermediate result into the symmetric raw range.
fn sat_i128(x: i128) -> (r: i64)
    ensures
        r as int == sat(x as int),
{
    if x > (i64::MAX as i128) {
        i64::MAX
    } else if x < -(i64::MAX as i128) {
        -i64::MAX
    } else {
        x as i64
    }
}

/// Floor division on wide intermediates, computed through unsigned
/// magnitudes.
fn floor_div_i128(a: i128, b: i128) -> (q: i128)
    requires
        b != 0,
        b > i128::MIN,
        -0x40000000000000000000000000000000 <= a <= 0x40000000000000000000000000000000,
    ensures
        q as int == fdiv(a as int, b as int),
{
    let neg: bool = (a < 0) != (b < 0);
    let ua: u128 = if a < 0 {
        (-a) as u128
    } else {
        a as u128
    };
    let ub: u128 = if b < 0 {
        (-b) as u128
    } else {
        b as u128
    };
    let q0: u128 = ua / ub;
    let r0: u128 = ua % ub;
    proof {
        lemma_fundamental_div_mod(ua as int, ub as int);
    }
    if !neg {
        proof {
            if a >= 0 && b < 0 {
                // a >= 0 and b < 0 together with !neg force a == 0.
                assert(a == 0);
            }
            if b < 0 {
                assert(fdiv(a as int, b as int) == (-(a as int)) / (-(b as int)));
            }
        }
        q0 as i128
    } else if r0 == 0 {
        proof {
            let m = ua as int;
            let d = ub as int;
            assert(m == d * (q0 as int) + (r0 as int));
            assert((-m) == (-(q0 as int)) * d + 0) by (nonlinear_arith)
                requires
                    m == d * (q0 as int),
            ;
            lemma_fundamental_div_mod_converse_div(-m, d, -(q0 as int), 0);
        }
        -(q0 as i128)
    } else {
        proof {
            let m = ua as int;
            let d = ub as int;
            assert(m == d * (q0 as int) + (r0 as int));
            assert(0 <= (r0 as int) < d);
            assert((-m) == (-(q0 as int) - 1) * d + (d - (r0 as int))) by (nonlinear_arith)
                requires
                    m == d * (q0 as int) + (r0 as int),
            ;
            lemma_fundamental_div_mod_converse_div(
                -m,
                d,
                -(q0 as int) - 1,
                d - (r0 as int),
            );
        }
        -((q0 + 1) as i128)
    }
}

impl Fixed {
    /// The value `raw / 65536`, saturated into the symmetric raw range.
    pub fn from_raw(raw: i64) -> (r: Fixed)
        ensures
            r.raw as int == sat(raw as int),
    {
        Fixed { raw: sat_i128(raw as i128) }
    }

    /// The fixed-point representation of the integer `i`.
    pub fn from_int(i: i64) -> (r: Fixed)
        requires
            -140737488355327 <= i <= 140737488355327,
        ensures
            r.raw == i * SCALE,
    {
        Fixed { raw: i * SCALE }
    }
}

impl Arith for Fixed {
    open spec fn spec_add(self, other: Self) -> Self {
        Fixed { raw: sat(self.raw + other.raw) as i64 }
    }

    open spec fn spec_sub(self, other: Self) -> Self {
        Fixed { raw: sat(self.raw - other.raw) as i64 }
    }

    open spec fn spec_mul(self, other: Self) -> Self {
        Fixed { raw: sat(fdiv(self.raw * other.raw, SCALE as int)) as i64 }
    }

    open spec fn spec_div(self, other: Self) -> Self {
        Fixed { raw: sat(fdiv(self.raw * (SCALE as int), other.raw as int)) as i64 }
    }

    open spec fn spec_neg(self) -> Self {
        Fixed { raw: sat(-self.raw) as i64 }
    }

    fn add(&self, other: Self) -> Self {
        Fixed { raw: sat_i128((self.raw as i128) + (other.raw as i128)) }
    }

    fn sub(&self, other: Self) -> Self {
        Fixed { raw: sat_i128((self.raw as i128) - (other.raw as i128)) }
    }

    fn mul(&self, other: Self) -> Self {
        proof {
            assert(
                -0x40000000000000000000000000000000 <= (self.raw as int) * (other.raw as int)
                    <= 0x40000000000000000000000000000000
            ) by (nonlinear_arith)
                requires
                    -0x8000000000000000 <= self.raw as int <= 0x7fffffffffffffff,
                    -0x8000000000000000 <= other.raw as int <= 0x7fffffffffffffff,
            ;
        }
        let prod: i128 = (self.raw as i128) * (other.raw as i128);
        Fixed { raw: sat_i128(floor_div_i128(prod, SCALE as i128)) }
    }

    fn div(&self, other: Self) -> Self {
        if other.raw == 0 {
            Fixed { raw: 0 }
        } else {
            proof {
                assert(
                    -0x40000000000000000000000000000000 <= (self.raw as int) * (SCALE as int)
                        <= 0x40000000000000000000000000000000
                ) by (nonlinear_arith)
                    requires
                        -0x8000000000000000 <= self.raw as int <= 0x7fffffffffffffff,
                ;
            }
            let num: i128 = (self.raw as i128) * (SCALE as i128);
            Fixed { raw: sat_i128(floor_div_i128(num, other.raw as i128)) }
        }
    }

    fn neg(&self) -> Self {
        Fixed { raw: sat_i128(-(self.raw as i128)) }
    }
}

impl MaxMin for Fixed {
    open spec fn spec_max(self, other: Self) -> Self {
        if self.raw >= other.raw {
            self
        } else {
            other
        }
    }

    open spec fn spec_min(self, other: Self) -> Self {
        if self.raw <= other.raw {
            self
        } else {
            other
        }
    }

    fn max(&self, other: Self) -> Self {
        if self.raw >= other.raw {
            *self
        } else {
            other
        }
    }

    fn min(&self, other: Self) -> Self {
        if self.raw <= other.raw {
            *self
        } else {
            other
        }
    }
}

impl Zero for Fixed {
    open spec fn spec_zero() -> Self {
        Fixed { raw: 0 }
    }

    fn zero() -> Self {
        Fixed { raw: 0 }
    }
}

impl One for Fixed {
    open spec fn spec_one() -> Self {
        Fixed { raw: SCALE }
    }

    fn one() -> Self {
        Fixed { raw: SCALE }
    }
}

impl PointFive for Fixed {
    open spec fn spec_point_five() -> Self {
        Fixed { raw: 32768 }
    }

    fn point_five() -> Self {
        Fixed { raw: 32768 }
    }
}

impl Clamp for Fixed {

}

impl Lerp for Fixed {

}

/// A power of two as an unsigned word.
fn pow2_u64(e: u64) -> (r: u64)
    requires
        e <= 63,
    ensures
        r as nat == pow2(e as nat),
{
    proof {
        lemma2_to64();
        lemma2_to64_rest();
    }
    let mut r: u64 = 1;
    let mut i: u64 = 0;
    while i < e
        invariant
            i <= e <= 63,
            r as nat == pow2(i as nat),
        decreases e - i,
    {
        proof {
            lemma_pow2_unfold((i + 1) as nat);
            if (i as nat) < 63 {
                lemma_pow2_strictly_increases(i as nat, 63);
            }
            lemma2_to64_rest();
        }
        r = r * 2;
        i = i + 1;
    }
    r
}

/// The value `2^(v / SCALE)` in fixed point: the integer part of the
/// exponent selects a power of two and the fractional part interpolates
/// linearly between neighbouring powers, which is the usual cheap exponential
/// for fixed-point arithmetic. The result saturates at the top of the range
/// and underflows to zero at the bottom.
pub open spec fn exp2_raw(v: int) -> int {
    let n = fdiv(v, SCALE as int);
    let f = v - n * (SCALE as int);
    if n >= 0 {
        sat((SCALE as int + f) * pow2(n as nat))
    } else {
        fdiv(SCALE as int + f, pow2((-n) as nat) as int)
    }
}

/// The exponential, `2^self`.
fn fixed_exp2(a: Fixed) -> (r: Fixed)
    ensures
        r.raw as int == exp2_raw(a.raw as int),
{
    let v = a.raw;
    let n_wide: i128 = floor_div_i128(v as i128, SCALE as i128);
    proof {
        lemma_fundamental_div_mod(v as int, SCALE as int);
        lemma_mod_division_less_than_divisor(v as int, SCALE as int);
        assert(-0x800000000000 <= n_wide as int <= 0x800000000000) by (nonlinear_arith)
            requires
                v as int == 65536 * (n_wide as int) + (v as int) % 65536,
                0 <= (v as int) % 65536 < 65536,
                -0x8000000000000000 <= v as int <= 0x7fffffffffffffff,
        ;
        assert(v as int - (n_wide as int) * 65536 == (v as int) % 65536) by (nonlinear_arith)
            requires
                v as int == 65536 * (n_wide as int) + (v as int) % 65536,
        ;
    }
    let f: i64 = (v as i128 - n_wide * (SCALE as i128)) as i64;
    assert(0 <= f < SCALE);
    let m: u64 = (SCALE + f) as u64;
    proof {
        lemma2_to64();
        lemma2_to64_rest();
    }
    if n_wide >= 47 {
        proof {
            let n = (n_wide as int) as nat;
            if n > 47 {
                lemma_pow2_strictly_increases(47, n);
            }
            assert(pow2(n) >= 0x800000000000);
            assert((SCALE as int + f) * pow2(n) > MAX_RAW as int) by (nonlinear_arith)
                requires
                    SCALE as int + f >= 65536,
                    pow2(n) >= 0x800000000000,
                    MAX_RAW as int == 0x7fffffffffffffff,
            ;
        }
        Fixed { raw: i64::MAX }
    } else if n_wide >= 0 {
        let p: u64 = pow2_u64(n_wide as u64);
        proof {
            let n = (n_wide as int) as nat;
            if n < 46 {
                lemma_pow2_strictly_increases(n, 46);
            }
            assert((m as int) * (p as int) <= 131071 * 0x400000000000) by (nonlinear_arith)
                requires
                    0 <= m as int <= 131071,
                    0 <= p as int <= 0x400000000000,
            ;
        }
        let prod: u128 = (m as u128) * (p as u128);
        Fixed { raw: sat_i128(prod as i128) }
    } else {
        let k: i128 = -n_wide;
        if k >= 17 {
            proof {
                let kn = (k as int) as nat;
                if kn > 17 {
                    lemma_pow2_strictly_increases(17, kn);
                }
                assert(pow2(kn) >= 131072);
                lemma_basic_div(SCALE as int + f, pow2(kn) as int);
            }
            Fixed { raw: 0 }
        } else {
            let p: u64 = pow2_u64(k as u64);
            proof {
                let kn = (k as int) as nat;
                lemma_pow2_pos(kn);
                lemma_div_pos_is_pos(m as int, p as int);
                lemma_div_nonincreasing(m as int, p as int);
            }
            Fixed { raw: (m / p) as i64 }
        }
    }
}

impl Exp2 for Fixed {
    open spec fn spec_exp2(self) -> Self {
        Fixed { raw: exp2_raw(self.raw as int) as i64 }
    }

    fn exp2(&self) -> Self {
        fixed_exp2(*self)
    }
}

/// The floor of the base-two logarithm of a positive integer.
pub open spec fn log2_floor(n: nat) -> nat
    decreases n,
{
    if n < 2 {
        0
    } else {
        1 + log2_floor(n / 2)
    }
}

/// The base-two logarithm of `raw / SCALE`, in fixed point: the integer part
/// comes from the leading bit of the raw value and the fractional part
/// interpolates linearly between neighbouring powers of two, matching the
/// exponential's interpolation. Values at or below zero have no logarithm
/// and saturate to the bottom of the range.
pub open spec fn log2_raw(v: int) -> int {
    if v <= 0 {
        -(MAX_RAW as int)
    } else {
        let e = log2_floor(v as nat);
        (e - 16) * (SCALE as int) + fdiv(v * (SCALE as int), pow2(e) as int) - SCALE as int
    }
}

/// The base-two logarithm.
fn fixed_log2(a: Fixed) -> (r: Fixed)
    ensures
        r.raw as int == log2_raw(a.raw as int),
{
    if a.raw <= 0 {
        Fixed { raw: -i64::MAX }
    } else {
        let v: u64 = a.raw as u64;
        proof {
            lemma2_to64();
        }
        let mut e: u64 = 0;
        let mut t: u64 = v;
        while t >= 2
            invariant
                1 <= v < 0x8000000000000000,
                t as nat == (v as nat) / pow2(e as nat),
                t >= 1,
                e <= 62,
            decreases t,
        {
            proof {
                lemma_pow2_pos(e as nat);
                lemma_pow2_pos((e + 1) as nat);
                assert(pow2(e as nat) * 2 == pow2((e + 1) as nat)) by {
                    lemma_pow2_adds(e as nat, 1);
                    lemma2_to64();
                }
                lemma_div_denominator(v as int, pow2(e as nat) as int, 2);
                assert((t as nat) / 2 == (v as nat) / pow2((e + 1) as nat));
                lemma_fundamental_div_mod(v as int, pow2(e as nat) as int);
                lemma_mod_division_less_than_divisor(v as int, pow2(e as nat) as int);
                assert(v as int >= pow2((e + 1) as nat)) by (nonlinear_arith)
                    requires
                        v as int == pow2(e as nat) * (t as int) + (v as int) % (pow2(
                            e as nat,
                        ) as int),
                        (v as int) % (pow2(e as nat) as int) >= 0,
                        t as int >= 2,
                        pow2(e as nat) * 2 == pow2((e + 1) as nat),
                        pow2(e as nat) > 0,
                ;
                if e + 1 >= 63 {
                    if e + 1 > 63 {
                        lemma_pow2_strictly_increases(63, (e + 1) as nat);
                    }
                    lemma2_to64_rest();
                    assert(false);
                }
                lemma_div_is_ordered(pow2((e + 1) as nat) as int, v as int, pow2(
                    (e + 1) as nat,
                ) as int);
                assert(pow2((e + 1) as nat) as int * 1 == pow2((e + 1) as nat) as int)
                    by (nonlinear_arith);
                lemma_div_multiples_vanish(1, pow2((e + 1) as nat) as int);
                assert((v as nat) / pow2((e + 1) as nat) >= 1);
            }
            t = t / 2;
            e = e + 1;
        }
        proof {
            lemma_pow2_pos(e as nat);
            lemma_fundamental_div_mod(v as int, pow2(e as nat) as int);
            lemma_mod_division_less_than_divisor(v as int, pow2(e as nat) as int);
            assert(pow2(e as nat) <= v as nat && (v as int) < pow2(e as nat) as int * 2) by (
            nonlinear_arith)
                requires
                    t as nat == (v as nat) / pow2(e as nat),
                    t == 1,
                    pow2(e as nat) > 0,
                    v as int == (pow2(e as nat) as int) * (((v as nat) / pow2(e as nat)) as int)
                        + (v as int) % (pow2(e as nat) as int),
                    0 <= (v as int) % (pow2(e as nat) as int) < pow2(e as nat) as int,
            ;
            assert(pow2(e as nat) * 2 == pow2((e + 1) as nat)) by {
                lemma_pow2_adds(e as nat, 1);
                lemma2_to64();
            }
            lemma_log2_floor_unique(v as nat, e as nat);
        }
        let p: u64 = pow2_u64(e);
        let num: u128 = (v as u128) * (SCALE as u128);
        let frac_plus: u128 = num / (p as u128);
        proof {
            let vi = v as int;
            let pi = p as int;
            assert(pi * 65536 <= vi * 65536 && vi * 65536 < pi * 131072) by (nonlinear_arith)
                requires
                    pi <= vi < 2 * pi,
                    pi > 0,
            ;
            assert(pi * 65536 == 65536 * pi) by (nonlinear_arith);
            lemma_div_multiples_vanish(65536, pi);
            lemma_div_is_ordered(pi * 65536, vi * 65536, pi);
            lemma_multiply_divide_lt(vi * 65536, pi, 131072);
            assert(num as int == vi * 65536);
            assert(65536 <= (num as int) / pi < 131072);
        }
        assert(65536 <= frac_plus < 131072);
        let raw: i64 = ((e as i64) - 16) * SCALE + ((frac_plus as i64) - SCALE);
        Fixed { raw }
    }
}

/// Any exponent whose powers of two bracket `n` is the floor of its
/// logarithm.
pub proof fn lemma_log2_floor_unique(n: nat, e: nat)
    requires
        pow2(e) <= n < pow2(e + 1),
    ensures
        e == log2_floor(n),
    decreases n,
{
    lemma2_to64();
    if e == 0 {
        assert(n == 1);
    } else {
        lemma_pow2_pos(e as nat);
        lemma_pow2_unfold(e);
        lemma_pow2_unfold(e + 1);
        assert(n >= 2) by {
            lemma_pow2_strictly_increases(0, e);
        }
        assert(pow2((e - 1) as nat) <= n / 2 < pow2(e)) by {
            lemma_fundamental_div_mod(n as int, 2);
            lemma_mod_division_less_than_divisor(n as int, 2);
        }
        lemma_log2_floor_unique(n / 2, (e - 1) as nat);
        assert(log2_floor(n) == 1 + log2_floor(n / 2));
    }
}

impl Log2 for Fixed {
    open spec fn spec_log2(self) -> Self {
        Fixed { raw: log2_raw(self.raw as int) as i64 }
    }

    fn log2(&self) -> Self {
        fixed_log2(*self)
    }
}

/// The integer square root: the largest `r` with `r * r <= n`.
pub open spec fn isqrt_spec(n: nat) -> nat
    decreases n,
{
    if n == 0 {
        0
    } else {
        let p = isqrt_spec((n - 1) as nat);
        if (p + 1) * (p + 1) <= n {
            p + 1
        } else {
            p
        }
    }
}

/// The integer square root is bracketed by the squares around it.
pub proof fn lemma_isqrt_bounds(n: nat)
    ensures
        isqrt_spec(n) * isqrt_spec(n) <= n,
        n < (isqrt_spec(n) + 1) * (isqrt_spec(n) + 1),
    decreases n,
{
    if n > 0 {
        lemma_isqrt_bounds((n - 1) as nat);
        let p = isqrt_spec((n - 1) as nat);
        assert(isqrt_spec(n) == if (p + 1) * (p + 1) <= n {
            p + 1
        } else {
            p
        });
        if (p + 1) * (p + 1) <= n {
            assert(isqrt_spec(n) == p + 1);
            assert(n < (p + 1 + 1) * (p + 1 + 1)) by (nonlinear_arith)
                requires
                    n - 1 < (p + 1) * (p + 1),
            ;
            assert(n < (isqrt_spec(n) + 1) * (isqrt_spec(n) + 1));
        } else {
            assert(isqrt_spec(n) == p);
            assert(n < (isqrt_spec(n) + 1) * (isqrt_spec(n) + 1));
        }
    } else {
        assert(isqrt_spec(0) == 0);
        assert(n < (isqrt_spec(n) + 1) * (isqrt_spec(n) + 1)) by (nonlinear_arith)
            requires
                n == 0,
                isqrt_spec(n) == 0,
        ;
    }
}

/// Any value bracketed the same way is the integer square root.
pub proof fn lemma_isqrt_unique(n: nat, r: nat)
    requires
        r * r <= n,
        n < (r + 1) * (r + 1),
    ensures
        r == isqrt_spec(n),
{
    let s = isqrt_spec(n);
    lemma_isqrt_bounds(n);
    if r < s {
        assert((r + 1) * (r + 1) <= s * s) by (nonlinear_arith)
            requires
                r + 1 <= s,
        ;
    }
    if s < r {
        assert((s + 1) * (s + 1) <= r * r) by (nonlinear_arith)
            requires
                s + 1 <= r,
        ;
    }
}

/// The integer square root, by bisection.
fn isqrt_u128(n: u128) -> (r: u128)
    ensures
        r as nat == isqrt_spec(n as nat),
        r <= 0xFFFFFFFFFFFFFFFF,
{
    let mut lo: u128 = 0;
    let mut hi: u128 = if n < 0xFFFFFFFFFFFFFFFF {
        n
    } else {
        0xFFFFFFFFFFFFFFFF
    };
    proof {
        if n < 0xFFFFFFFFFFFFFFFF {
            assert((n as int + 1) * (n as int + 1) > n as int) by (nonlinear_arith)
                requires
                    n as int >= 0,
            ;
        } else {
            assert((0xFFFFFFFFFFFFFFFF + 1) * (0xFFFFFFFFFFFFFFFF + 1) > n as int)
                by (nonlinear_arith)
                requires
                    n as int <= 0xFFFFFFFFFFFFFFFFFFFFFFFFFFFFFFFF,
            ;
        }
    }
    while lo < hi
        invariant
            lo <= hi <= 0xFFFFFFFFFFFFFFFF,
            (lo as int) * (lo as int) <= n as int,
            (hi as int + 1) * (hi as int + 1) > n as int,
        decreases hi - lo,
    {
        let mid: u128 = lo + (hi - lo + 1) / 2;
        assert(lo < mid <= hi);
        proof {
            assert((mid as int) * (mid as int) < 0xFFFFFFFFFFFFFFFFFFFFFFFFFFFFFFFF)
                by (nonlinear_arith)
                requires
                    0 <= mid as int <= 0xFFFFFFFFFFFFFFFF,
            ;
        }
        let sq: u128 = mid * mid;
        if sq <= n {
            lo = mid;
        } else {
            hi = mid - 1;
        }
    }
    proof {
        lemma_isqrt_unique(n as nat, lo as nat);
    }
    lo
}

/// The raw magnitude of a 3D vector: the integer square root of the sum of
/// the squared raw components, saturated. Because raw values scale linearly,
/// the square root of the raw sum of squares is the raw Euclidean norm.
pub open spec fn magnitude3_raw(x: int, y: int, z: int) -> int {
    sat(isqrt_spec((x * x + y * y + z * z) as nat) as int)
}

/// The raw magnitude of a 2D vector.
pub open spec fn magnitude2_raw(x: int, y: int) -> int {
    sat(isqrt_spec((x * x + y * y) as nat) as int)
}

/// The absolute value of a raw component, saturated (so the absolute value
/// of the one raw value below `-MAX_RAW` is `MAX_RAW`).
pub open spec fn abs_raw(a: int) -> int {
    sat(if a < 0 {
        -a
    } else {
        a
    })
}

/// The absolute value of a scalar.
fn fixed_abs(a: Fixed) -> (r: Fixed)
    ensures
        r.raw as int == abs_raw(a.raw as int),
{
    if a.raw < 0 {
        Fixed { raw: sat_i128(-(a.raw as i128)) }
    } else {
        a
    }
}

/// The square of a raw component, as an unsigned wide value.
fn square_u128(a: i64) -> (sq: u128)
    ensures
        sq as int == (a as int) * (a as int),
        sq <= 0x40000000000000000000000000000000,
{
    let wide: i128 = a as i128;
    let mag: u128 = if wide < 0 {
        (-wide) as u128
    } else {
        wide as u128
    };
    proof {
        assert((mag as int) * (mag as int) == (a as int) * (a as int)
            && (mag as int) * (mag as int) <= 0x40000000000000000000000000000000)
            by (nonlinear_arith)
            requires
                mag as int == a as int || mag as int == -(a as int),
                -0x8000000000000000 <= a as int <= 0x7fffffffffffffff,
                mag as int >= 0,
        ;
    }
    mag * mag
}

/// A 3D vector of fixed-point scalars.
#[derive(Clone, Copy, Debug, PartialEq, Eq, Structural)]
pub struct Fixed3 {
    pub x: Fixed,
    pub y: Fixed,
    pub z: Fixed,
}

impl MaxMin for Fixed3 {
    open spec fn spec_max(self, other: Self) -> Self {
        Fixed3 {
            x: self.x.spec_max(other.x),
            y: self.y.spec_max(other.y),
            z: self.z.spec_max(other.z),
        }
    }

    open spec fn spec_min(self, other: Self) -> Self {
        Fixed3 {
            x: self.x.spec_min(other.x),
            y: self.y.spec_min(other.y),
            z: self.z.spec_min(other.z),
        }
    }

    fn max(&self, other: Self) -> Self {
        Fixed3 { x: self.x.max(other.x), y: self.y.max(other.y), z: self.z.max(other.z) }
    }

    fn min(&self, other: Self) -> Self {
        Fixed3 { x: self.x.min(other.x), y: self.y.min(other.y), z: self.z.min(other.z) }
    }
}

impl Zero for Fixed3 {
    open spec fn spec_zero() -> Self {
        Fixed3 { x: Fixed::spec_zero(), y: Fixed::spec_zero(), z: Fixed::spec_zero() }
    }

    fn zero() -> Self {
        Fixed3 { x: Fixed::zero(), y: Fixed::zero(), z: Fixed::zero() }
    }
}

impl One for Fixed3 {
    open spec fn spec_one() -> Self {
        Fixed3 { x: Fixed::spec_one(), y: Fixed::spec_one(), z: Fixed::spec_one() }
    }

    fn one() -> Self {
        Fixed3 { x: Fixed::one(), y: Fixed::one(), z: Fixed::one() }
    }
}

impl Clamp for Fixed3 {

}

impl Vec<Fixed> for Fixed3 {
    type Dimension = Dim3D;

    type Vec2 = Fixed2;

    type Vec3 = Fixed3;

    open spec fn spec_add(self, other: Self) -> Self {
        Fixed3 {
            x: self.x.spec_add(other.x),
            y: self.y.spec_add(other.y),
            z: self.z.spec_add(other.z),
        }
    }

    open spec fn spec_sub(self, other: Self) -> Self {
        Fixed3 {
            x: self.x.spec_sub(other.x),
            y: self.y.spec_sub(other.y),
            z: self.z.spec_sub(other.z),
        }
    }

    open spec fn spec_neg(self) -> Self {
        Fixed3 { x: self.x.spec_neg(), y: self.y.spec_neg(), z: self.z.spec_neg() }
    }

    open spec fn spec_mul_scalar(self, s: Fixed) -> Self {
        Fixed3 { x: self.x.spec_mul(s), y: self.y.spec_mul(s), z: self.z.spec_mul(s) }
    }

    open spec fn spec_div_scalar(self, s: Fixed) -> Self {
        Fixed3 { x: self.x.spec_div(s), y: self.y.spec_div(s), z: self.z.spec_div(s) }
    }

    open spec fn spec_dot(self, other: Self) -> Fixed {
        self.x.spec_mul(other.x).spec_add(self.y.spec_mul(other.y)).spec_add(
            self.z.spec_mul(other.z),
        )
    }

    open spec fn spec_magnitude(self) -> Fixed {
        Fixed {
            raw: magnitude3_raw(self.x.raw as int, self.y.raw as int, self.z.raw as int) as i64,
        }
    }

    open spec fn spec_abs(self) -> Self {
        Fixed3 {
            x: Fixed { raw: abs_raw(self.x.raw as int) as i64 },
            y: Fixed { raw: abs_raw(self.y.raw as int) as i64 },
            z: Fixed { raw: abs_raw(self.z.raw as int) as i64 },
        }
    }

    open spec fn spec_normalized(self) -> Self {
        self.spec_div_scalar(self.spec_magnitude())
    }

    fn add(&self, other: Self) -> Self {
        Fixed3 { x: self.x.add(other.x), y: self.y.add(other.y), z: self.z.add(other.z) }
    }

    fn sub(&self, other: Self) -> Self {
        Fixed3 { x: self.x.sub(other.x), y: self.y.sub(other.y), z: self.z.sub(other.z) }
    }

    fn neg(&self) -> Self {
        Fixed3 { x: self.x.neg(), y: self.y.neg(), z: self.z.neg() }
    }

    fn mul_scalar(&self, s: Fixed) -> Self {
        Fixed3 { x: self.x.mul(s), y: self.y.mul(s), z: self.z.mul(s) }
    }

    fn div_scalar(&self, s: Fixed) -> Self {
        Fixed3 { x: self.x.div(s), y: self.y.div(s), z: self.z.div(s) }
    }

    fn dot(&self, other: Self) -> Fixed {
        self.x.mul(other.x).add(self.y.mul(other.y)).add(self.z.mul(other.z))
    }

    fn magnitude(&self) -> (r: Fixed) {
        let sx = square_u128(self.x.raw);
        let sy = square_u128(self.y.raw);
        let sz = square_u128(self.z.raw);
        let sum: u128 = sx + sy + sz;
        let root = isqrt_u128(sum);
        Fixed { raw: sat_i128(root as i128) }
    }

    fn abs(&self) -> Self {
        Fixed3 { x: fixed_abs(self.x), y: fixed_abs(self.y), z: fixed_abs(self.z) }
    }

    fn normalized(&self) -> Self {
        let m = self.magnitude();
        self.div_scalar(m)
    }
}

impl Vec3<Fixed> for Fixed3 {
    open spec fn spec_new(x: Fixed, y: Fixed, z: Fixed) -> Self {
        Fixed3 { x, y, z }
    }

    open spec fn spec_x(self) -> Fixed {
        self.x
    }

    open spec fn spec_y(self) -> Fixed {
        self.y
    }

    open spec fn spec_z(self) -> Fixed {
        self.z
    }

    fn new(x: Fixed, y: Fixed, z: Fixed) -> Self {
        Fixed3 { x, y, z }
    }

    fn x(&self) -> Fixed {
        self.x
    }

    fn y(&self) -> Fixed {
        self.y
    }

    fn z(&self) -> Fixed {
        self.z
    }
}

/// A 2D vector of fixed-point scalars.
#[derive(Clone, Copy, Debug, PartialEq, Eq, Structural)]
pub struct Fixed2 {
    pub x: Fixed,
    pub y: Fixed,
}

impl MaxMin for Fixed2 {
    open spec fn spec_max(self, other: Self) -> Self {
        Fixed2 { x: self.x.spec_max(other.x), y: self.y.spec_max(other.y) }
    }

    open spec fn spec_min(self, other: Self) -> Self {
        Fixed2 { x: self.x.spec_min(other.x), y: self.y.spec_min(other.y) }
    }

    fn max(&self, other: Self) -> Self {
        Fixed2 { x: self.x.max(other.x), y: self.y.max(other.y) }
    }

    fn min(&self, other: Self) -> Self {
        Fixed2 { x: self.x.min(other.x), y: self.y.min(other.y) }
    }
}

impl Zero for Fixed2 {
    open spec fn spec_zero() -> Self {
        Fixed2 { x: Fixed::spec_zero(), y: Fixed::spec_zero() }
    }

    fn zero() -> Self {
        Fixed2 { x: Fixed::zero(), y: Fixed::zero() }
    }
}

impl One for Fixed2 {
    open spec fn spec_one() -> Self {
        Fixed2 { x: Fixed::spec_one(), y: Fixed::spec_one() }
    }

    fn one() -> Self {
        Fixed2 { x: Fixed::one(), y: Fixed::one() }
    }
}

impl Clamp for Fixed2 {

}

impl Vec<Fixed> for Fixed2 {
    type Dimension = Dim2D;

    type Vec2 = Fixed2;

    type Vec3 = Fixed3;

    open spec fn spec_add(self, other: Self) -> Self {
        Fixed2 { x: self.x.spec_add(other.x), y: self.y.spec_add(other.y) }
    }

    open spec fn spec_sub(self, other: Self) -> Self {
        Fixed2 { x: self.x.spec_sub(other.x), y: self.y.spec_sub(other.y) }
    }

    open spec fn spec_neg(self) -> Self {
        Fixed2 { x: self.x.spec_neg(), y: self.y.spec_neg() }
    }

    open spec fn spec_mul_scalar(self, s: Fixed) -> Self {
        Fixed2 { x: self.x.spec_mul(s), y: self.y.spec_mul(s) }
    }

    open spec fn spec_div_scalar(self, s: Fixed) -> Self {
        Fixed2 { x: self.x.spec_div(s), y: self.y.spec_div(s) }
    }

    open spec fn spec_dot(self, other: Self) -> Fixed {
        self.x.spec_mul(other.x).spec_add(self.y.spec_mul(other.y))
    }

    open spec fn spec_magnitude(self) -> Fixed {
        Fixed { raw: magnitude2_raw(self.x.raw as int, self.y.raw as int) as i64 }
    }

    open spec fn spec_abs(self) -> Self {
        Fixed2 {
            x: Fixed { raw: abs_raw(self.x.raw as int) as i64 },
            y: Fixed { raw: abs_raw(self.y.raw as int) as i64 },
        }
    }

    open spec fn spec_normalized(self) -> Self {
        self.spec_div_scalar(self.spec_magnitude())
    }

    fn add(&self, other: Self) -> Self {
        Fixed2 { x: self.x.add(other.x), y: self.y.add(other.y) }
    }

    fn sub(&self, other: Self) -> Self {
        Fixed2 { x: self.x.sub(other.x), y: self.y.sub(other.y) }
    }

    fn neg(&self) -> Self {
        Fixed2 { x: self.x.neg(), y: self.y.neg() }
    }

    fn mul_scalar(&self, s: Fixed) -> Self {
        Fixed2 { x: self.x.mul(s), y: self.y.mul(s) }
    }

    fn div_scalar(&self, s: Fixed) -> Self {
        Fixed2 { x: self.x.div(s), y: self.y.div(s) }
    }

    fn dot(&self, other: Self) -> Fixed {
        self.x.mul(other.x).add(self.y.mul(other.y))
    }

    fn magnitude(&self) -> (r: Fixed) {
        let sx = square_u128(self.x.raw);
        let sy = square_u128(self.y.raw);
        let sum: u128 = sx + sy;
        let root = isqrt_u128(sum);
        Fixed { raw: sat_i128(root as i128) }
    }

    fn abs(&self) -> Self {
        Fixed2 { x: fixed_abs(self.x), y: fixed_abs(self.y) }
    }

    fn normalized(&self) -> Self {
        let m = self.magnitude();
        self.div_scalar(m)
    }
}

impl Vec2<Fixed> for Fixed2 {
    open spec fn spec_new(x: Fixed, y: Fixed) -> Self {
        Fixed2 { x, y }
    }

    open spec fn spec_x(self) -> Fixed {
        self.x
    }

    open spec fn spec_y(self) -> Fixed {
        self.y
    }

    fn new(x: Fixed, y: Fixed) -> Self {
        Fixed2 { x, y }
    }

    fn x(&self) -> Fixed {
        self.x
    }

    fn y(&self) -> Fixed {
        self.y
    }
}

/// An exact rotation for fixed-point vectors: a quarter turn (a forward
/// rotation of ninety degrees) about one coordinate axis.
///
/// As the [`Rotation`] contract demands, `rotate_vec` applies the *inverse*
/// turn, mapping a sample point into the rotated field's local frame. A
/// quarter turn only permutes and negates components, so it is exact in
/// fixed point.
#[derive(Clone, Copy, Debug, PartialEq, Eq, Structural)]
pub struct QuarterTurn {
    pub axis: Axis,
}

impl QuarterTurn {
    pub fn new(axis: Axis) -> (r: Self)
        ensures
            r.axis == axis,
    {
        QuarterTurn { axis }
    }
}

impl Rotation<Fixed3> for QuarterTurn {
    open spec fn spec_rotate_vec(self, v: Fixed3) -> Fixed3 {
        match self.axis {
            Axis::X => Fixed3 { x: v.x, y: v.z, z: v.y.spec_neg() },
            Axis::Y => Fixed3 { x: v.z.spec_neg(), y: v.y, z: v.x },
            Axis::Z => Fixed3 { x: v.y, y: v.x.spec_neg(), z: v.z },
        }
    }

    fn rotate_vec(&self, v: Fixed3) -> Fixed3 {
        match self.axis {
            Axis::X => Fixed3 { x: v.x, y: v.z, z: v.y.neg() },
            Axis::Y => Fixed3 { x: v.z.neg(), y: v.y, z: v.x },
            Axis::Z => Fixed3 { x: v.y, y: v.x.neg(), z: v.z },
        }
    }
}

/// The default sampling epsilon for normal estimation, about a thousandth.
pub const DEFAULT_EPS_RAW: i64 = 66;

impl<V: Vec<Fixed>> Default for crate::util::CentralDifferenceEstimator<
    Fixed,
    V,
    <V as Vec<Fixed>>::Dimension,
> {
    fn default() -> (r: Self)
        ensures
            r.eps.raw == DEFAULT_EPS_RAW,
    {
        crate::util::CentralDifferenceEstimator::new(Fixed { raw: DEFAULT_EPS_RAW })
    }
}

impl<V: Vec<Fixed>> Default for crate::util::TetrahedralEstimator<Fixed, V> {
    fn default() -> (r: Self)
        ensures
            r.eps.raw == DEFAULT_EPS_RAW,
    {
        crate::util::TetrahedralEstimator::new(Fixed { raw: DEFAULT_EPS_RAW })
    }
}

/// Negating a vector leaves its absolute value unchanged.
pub proof fn lemma_fixed3_abs_neg(p: Fixed3)
    ensures
        p.spec_neg().spec_abs() == p.spec_abs(),
{
}

/// Negating a 2D vector leaves its absolute value unchanged.
pub proof fn lemma_fixed2_abs_neg(p: Fixed2)
    ensures
        p.spec_neg().spec_abs() == p.spec_abs(),
{
}

/// Rounding down distributes subadditively over a sum: the floors of two
/// parts never exceed the floor of the whole.
proof fn lemma_fdiv_superadd(p: int, q: int, d: int)
    requires
        d > 0,
    ensures
        fdiv(p, d) + fdiv(q, d) <= fdiv(p + q, d),
{
    let f1 = p / d;
    let f2 = q / d;
    lemma_fundamental_div_mod(p, d);
    lemma_fundamental_div_mod(q, d);
    lemma_mod_division_less_than_divisor(p, d);
    lemma_mod_division_less_than_divisor(q, d);
    let r1 = p % d;
    let r2 = q % d;
    assert(p + q == d * (f1 + f2) + (r1 + r2)) by (nonlinear_arith)
        requires
            p == d * f1 + r1,
            q == d * f2 + r2,
    ;
    if r1 + r2 < d {
        assert(p + q == (f1 + f2) * d + (r1 + r2)) by (nonlinear_arith)
            requires
                p + q == d * (f1 + f2) + (r1 + r2),
        ;
        lemma_fundamental_div_mod_converse_div(p + q, d, f1 + f2, r1 + r2);
    } else {
        assert(p + q == (f1 + f2 + 1) * d + (r1 + r2 - d)) by (nonlinear_arith)
            requires
                p + q == d * (f1 + f2) + (r1 + r2),
        ;
        lemma_fundamental_div_mod_converse_div(p + q, d, f1 + f2 + 1, r1 + r2 - d);
    }
}

/// The polynomial smooth minimum never exceeds the larger of its inputs, for
/// any positive smoothing radius. (Inputs are within the symmetric value
/// range of the type, as every constructor and operation keeps them.)
pub proof fn lemma_poly_smooth_min_le_max(k: Fixed, a: Fixed, b: Fixed)
    requires
        k.raw > 0,
        -(MAX_RAW as int) <= a.raw,
        -(MAX_RAW as int) <= b.raw,
    ensures
        poly_smooth_min_spec(k, a, b).raw <= a.spec_max(b).raw,
{
    let s = SCALE as int;
    let m = a.spec_max(b).raw as int;
    let t = Fixed::spec_point_five().spec_add(
        Fixed::spec_point_five().spec_mul(b.spec_sub(a)).spec_div(k),
    );
    let h = clamp_spec(t, Fixed::spec_zero(), Fixed::spec_one());
    let hr = h.raw as int;
    assert(0 <= hr <= s);
    let g = Fixed::spec_one().spec_sub(h);
    let gr = g.raw as int;
    assert(gr == s - hr);
    let m1 = b.spec_mul(g);
    let m2 = a.spec_mul(h);
    let f1 = fdiv(b.raw as int * gr, s);
    let f2 = fdiv(a.raw as int * hr, s);
    let cap1 = fdiv(m * gr, s);
    let cap2 = fdiv(m * hr, s);
    assert(b.raw as int * gr <= m * gr) by (nonlinear_arith)
        requires
            b.raw as int <= m,
            0 <= gr,
    ;
    assert(a.raw as int * hr <= m * hr) by (nonlinear_arith)
        requires
            a.raw as int <= m,
            0 <= hr,
    ;
    lemma_div_is_ordered(b.raw as int * gr, m * gr, s);
    lemma_div_is_ordered(a.raw as int * hr, m * hr, s);
    lemma_fdiv_superadd(m * gr, m * hr, s);
    assert(m * gr + m * hr == s * m) by (nonlinear_arith)
        requires
            gr + hr == s,
    ;
    lemma_div_multiples_vanish(m, s);
    assert(cap1 + cap2 <= m);
    // Each cap lies between 0 and m, so it is inside the saturation range.
    if m >= 0 {
        assert(0 <= m * gr <= m * s && 0 <= m * hr <= m * s) by (nonlinear_arith)
            requires
                m >= 0,
                0 <= gr <= s,
                0 <= hr <= s,
        ;
        lemma_div_pos_is_pos(m * gr, s);
        lemma_div_pos_is_pos(m * hr, s);
        lemma_div_is_ordered(m * gr, m * s, s);
        lemma_div_is_ordered(m * hr, m * s, s);
        assert(fdiv(m * s, s) == m) by {
            assert(m * s == s * m) by (nonlinear_arith);
            lemma_div_multiples_vanish(m, s);
        }
    } else {
        assert(m * s <= m * gr <= 0 && m * s <= m * hr <= 0) by (nonlinear_arith)
            requires
                m < 0,
                0 <= gr <= s,
                0 <= hr <= s,
        ;
        lemma_div_is_ordered(m * s, m * gr, s);
        lemma_div_is_ordered(m * s, m * hr, s);
        lemma_div_is_ordered(m * gr, 0, s);
        lemma_div_is_ordered(m * hr, 0, s);
        assert(fdiv(m * s, s) == m) by {
            assert(m * s == s * m) by (nonlinear_arith);
            lemma_div_multiples_vanish(m, s);
        }
    }
    assert(-(MAX_RAW as int) <= cap1 <= MAX_RAW as int);
    assert(-(MAX_RAW as int) <= cap2 <= MAX_RAW as int);
    assert(m1.raw as int == sat(f1) && sat(f1) <= cap1);
    assert(m2.raw as int == sat(f2) && sat(f2) <= cap2);
    let lerped = lerp_spec(b, a, h);
    assert(lerped.raw as int == sat(m1.raw as int + m2.raw as int));
    assert(lerped.raw as int <= m);
    let c1 = k.spec_mul(h);
    lemma_div_pos_is_pos(k.raw as int * hr, s);
    assert(k.raw as int * hr >= 0) by (nonlinear_arith)
        requires
            k.raw as int > 0,
            hr >= 0,
    ;
    assert(c1.raw as int >= 0);
    let c2 = c1.spec_mul(g);
    lemma_div_pos_is_pos(c1.raw as int * gr, s);
    assert(c1.raw as int * gr >= 0) by (nonlinear_arith)
        requires
            c1.raw as int >= 0,
            gr >= 0,
    ;
    assert(c2.raw as int >= 0);
    assert(poly_smooth_min_spec(k, a, b).raw as int == sat(
        lerped.raw as int - c2.raw as int,
    ));
}

/// Away from the blending band, the polynomial smooth minimum is exactly the
/// hard minimum: whenever the two inputs differ by more than the smoothing
/// radius, the blend weight clamps to an endpoint and every rounding step
/// becomes exact. As the radius shrinks toward zero, this covers every pair
/// of distinct inputs: the smooth minimum converges to the hard one.
pub proof fn lemma_poly_smooth_min_converges(k: Fixed, a: Fixed, b: Fixed)
    requires
        0 < k.raw < MAX_RAW,
        -(MAX_RAW as int) <= a.raw,
        -(MAX_RAW as int) <= b.raw,
        a.raw - b.raw > k.raw || b.raw - a.raw > k.raw,
    ensures
        poly_smooth_min_spec(k, a, b) == a.spec_min(b),
{
    let s = SCALE as int;
    let kr = k.raw as int;
    let diff = b.spec_sub(a);
    let dr = diff.raw as int;
    let u = Fixed::spec_point_five().spec_mul(diff);
    let ur = u.raw as int;
    let v = u.spec_div(k);
    let vr = v.raw as int;
    let t = Fixed::spec_point_five().spec_add(v);
    let tr = t.raw as int;
    let h = clamp_spec(t, Fixed::spec_zero(), Fixed::spec_one());
    let hr = h.raw as int;
    if b.raw - a.raw > k.raw {
        // The second field is farther: the weight clamps to one and the
        // result is exactly `a`.
        assert(dr >= kr + 1);
        let c = (kr + 1) / 2;
        assert(0 <= c <= MAX_RAW as int) by {
            lemma_div_pos_is_pos(kr + 1, 2);
            lemma_div_is_ordered(kr + 1, MAX_RAW as int, 2);
            lemma_div_is_ordered(MAX_RAW as int, 2 * (MAX_RAW as int), 2);
            lemma_div_multiples_vanish(MAX_RAW as int, 2);
        }
        lemma_fundamental_div_mod(kr + 1, 2);
        lemma_mod_division_less_than_divisor(kr + 1, 2);
        assert(kr <= 2 * c <= kr + 1);
        assert(32768 * dr >= s * c) by (nonlinear_arith)
            requires
                dr >= kr + 1,
                2 * c <= kr + 1,
                s == 65536,
                c >= 0,
        ;
        lemma_div_multiples_vanish(c, s);
        lemma_div_is_ordered(s * c, 32768 * dr, s);
        assert(fdiv(32768 * dr, s) >= c);
        assert(ur >= c);
        assert(ur * s >= kr * 32768) by (nonlinear_arith)
            requires
                ur >= c,
                c >= 0,
                2 * c >= kr,
                s == 65536,
        ;
        lemma_div_multiples_vanish(32768, kr);
        lemma_div_is_ordered(kr * 32768, ur * s, kr);
        assert(fdiv(ur * s, kr) >= 32768);
        assert(vr >= 32768);
        assert(tr >= 65536);
        assert(hr == s);
        let g = Fixed::spec_one().spec_sub(h);
        assert(g.raw == 0);
        assert(b.raw as int * 0 == 0) by (nonlinear_arith);
        lemma_div_of0(s);
        assert(lerp_spec(b, a, h).raw as int == sat(
            sat(fdiv(b.raw as int * 0, s)) + sat(fdiv(a.raw as int * s, s)),
        ));
        assert(a.raw as int * s == s * (a.raw as int)) by (nonlinear_arith);
        lemma_div_multiples_vanish(a.raw as int, s);
        assert(lerp_spec(b, a, h).raw as int == a.raw as int);
        let c1 = k.spec_mul(h);
        assert(kr * s == s * kr) by (nonlinear_arith);
        lemma_div_multiples_vanish(kr, s);
        assert(c1.raw as int == kr);
        let c2 = c1.spec_mul(g);
        assert(kr * 0 == 0) by (nonlinear_arith);
        assert(c2.raw as int == 0);
        assert(poly_smooth_min_spec(k, a, b).raw as int == sat(a.raw as int));
        assert(poly_smooth_min_spec(k, a, b) == a);
        assert(a.spec_min(b) == a);
    } else {
        // The first field is farther: the weight clamps to zero and the
        // result is exactly `b`.
        assert(b.raw - a.raw < -(kr));
        assert(dr <= -(kr + 1));
        let c = (kr + 2) / 2;
        assert(0 <= c <= MAX_RAW as int) by {
            lemma_div_pos_is_pos(kr + 2, 2);
            lemma_div_is_ordered(kr + 2, MAX_RAW as int + 1, 2);
            lemma_fundamental_div_mod(MAX_RAW as int + 1, 2);
            lemma_mod_division_less_than_divisor(MAX_RAW as int + 1, 2);
        }
        lemma_fundamental_div_mod(kr + 2, 2);
        lemma_mod_division_less_than_divisor(kr + 2, 2);
        assert(kr + 1 <= 2 * c <= kr + 2);
        let rem = 2 * c - (kr + 1);
        assert(0 <= rem <= 1);
        assert(-32768 * (kr + 1) == (-c) * s + 32768 * rem) by (nonlinear_arith)
            requires
                rem == 2 * c - (kr + 1),
                s == 65536,
        ;
        assert(0 <= 32768 * rem < s) by (nonlinear_arith)
            requires
                0 <= rem <= 1,
                s == 65536,
        ;
        lemma_fundamental_div_mod_converse_div(-32768 * (kr + 1), s, -c, 32768 * rem);
        assert(fdiv(-32768 * (kr + 1), s) == -c);
        assert(32768 * dr <= -32768 * (kr + 1)) by (nonlinear_arith)
            requires
                dr <= -(kr + 1),
        ;
        lemma_div_is_ordered(32768 * dr, -32768 * (kr + 1), s);
        assert(fdiv(32768 * dr, s) <= -c);
        assert(ur <= -c);
        assert(ur * s <= kr * (-32768)) by (nonlinear_arith)
            requires
                ur <= -c,
                2 * c >= kr + 1,
                s == 65536,
                kr > 0,
        ;
        lemma_div_multiples_vanish(-32768, kr);
        lemma_div_is_ordered(ur * s, kr * (-32768), kr);
        assert(fdiv(ur * s, kr) <= -32768);
        assert(vr <= -32768);
        assert(tr <= 0);
        assert(hr == 0);
        let g = Fixed::spec_one().spec_sub(h);
        assert(g.raw == SCALE);
        assert(b.raw as int * s == s * (b.raw as int)) by (nonlinear_arith);
        lemma_div_multiples_vanish(b.raw as int, s);
        assert(a.raw as int * 0 == 0) by (nonlinear_arith);
        lemma_div_of0(s);
        assert(lerp_spec(b, a, h).raw as int == b.raw as int);
        let c1 = k.spec_mul(h);
        assert(kr * 0 == 0) by (nonlinear_arith);
        assert(c1.raw as int == 0);
        let c2 = c1.spec_mul(g);
        assert(c1.raw as int * s == 0) by (nonlinear_arith)
            requires
                c1.raw as int == 0,
        ;
        assert(c2.raw as int == 0);
        assert(poly_smooth_min_spec(k, a, b).raw as int == sat(b.raw as int));
        assert(poly_smooth_min_spec(k, a, b) == b);
        assert(a.spec_min(b) == b);
    }
}

/// Adding and then subtracting the same vector is the identity, whenever no
/// component sum saturates.
pub proof fn lemma_fixed3_add_sub_cancel(p: Fixed3, t: Fixed3)
    requires
        -(MAX_RAW as int) <= p.x.raw + t.x.raw <= MAX_RAW as int,
        -(MAX_RAW as int) <= p.y.raw + t.y.raw <= MAX_RAW as int,
        -(MAX_RAW as int) <= p.z.raw + t.z.raw <= MAX_RAW as int,
        -(MAX_RAW as int) <= p.x.raw,
        -(MAX_RAW as int) <= p.y.raw,
        -(MAX_RAW as int) <= p.z.raw,
    ensures
        p.spec_add(t).spec_sub(t) == p,
{
}

/// The translation round trip over fixed-point vectors: sampling a
/// translated field at a point moved forward by the offset gives the wrapped
/// field's distance, whenever no component sum saturates.
pub proof fn lemma_translate_round_trip_fixed3<S: crate::SDF<Fixed, Fixed3>>(
    t: crate::mods::Translate<Fixed3, S>,
    p: Fixed3,
)
    requires
        -(MAX_RAW as int) <= p.x.raw + t.translation.x.raw <= MAX_RAW as int,
        -(MAX_RAW as int) <= p.y.raw + t.translation.y.raw <= MAX_RAW as int,
        -(MAX_RAW as int) <= p.z.raw + t.translation.z.raw <= MAX_RAW as int,
        -(MAX_RAW as int) <= p.x.raw,
        -(MAX_RAW as int) <= p.y.raw,
        -(MAX_RAW as int) <= p.z.raw,
    ensures
        t.spec_dist(p.spec_add(t.translation)) == t.sdf.spec_dist(p),
{
    lemma_fixed3_add_sub_cancel(p, t.translation);
    crate::mods::lemma_translate_round_trip(t, p);
}

/// Multi-axis elongation over fixed-point vectors is symmetric about the
/// origin, with no side condition: saturating negation and absolute value
/// commute everywhere.
pub proof fn lemma_elongate_multi_symmetric_fixed3<S: crate::SDF<Fixed, Fixed3>>(
    e: crate::mods::ElongateMulti<Fixed3, S, Dim3D>,
    p: Fixed3,
)
    ensures
        e.spec_dist(p.spec_neg()) == e.spec_dist(p),
{
    lemma_fixed3_abs_neg(p);
    crate::mods::lemma_elongate_multi_symmetric3::<Fixed, Fixed3, S>(e, p);
}

/// Multi-axis elongation over two-dimensional fixed-point vectors is
/// symmetric about the origin, with no side condition.
pub proof fn lemma_elongate_multi_symmetric_fixed2<S: crate::SDF<Fixed, Fixed2>>(
    e: crate::mods::ElongateMulti<Fixed2, S, Dim2D>,
    p: Fixed2,
)
    ensures
        e.spec_dist(p.spec_neg()) == e.spec_dist(p),
{
    lemma_fixed2_abs_neg(p);
    crate::mods::lemma_elongate_multi_symmetric2::<Fixed, Fixed2, S>(e, p);
}

} // verus!
