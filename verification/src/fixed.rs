//! Fixed-point scalar arithmetic.
//!
//! A scalar is an `i128` holding the real value times [`SCALE`]. Products and
//! quotients are rescaled with truncation toward zero, the same rounding for
//! either sign, so that negating an operand exactly negates a product.

use vstd::prelude::*;
use vstd::arithmetic::div_mod::{
    lemma_div_is_ordered, lemma_div_pos_is_pos, lemma_fundamental_div_mod,
    lemma_mod_division_less_than_divisor, lemma_remainder_lower,
};

verus! {

/// One unit: a stored scalar `x` denotes the real number `x / SCALE`.
pub const SCALE: i128 = 1_000_000;

/// Largest magnitude accepted by [`fmul`] and [`fdiv`]: the square fits `i128`.
pub const FX_LIMIT: i128 = 2_000_000_000_000_000_000;

/// Largest magnitude [`fmul`] can return: `FX_LIMIT * FX_LIMIT / SCALE`.
pub const FMUL_BOUND: i128 = 4_000_000_000_000_000_000_000_000_000_000;

/// Largest magnitude [`fdiv`] can return: `FX_LIMIT * SCALE`.
pub const FDIV_BOUND: i128 = 2_000_000_000_000_000_000_000_000;

/// Magnitude of an integer.
pub open spec fn absi(x: int) -> int {
    if x >= 0 {
        x
    } else {
        -x
    }
}

/// Division rounded toward zero, the rounding used by every fixed-point
/// operation (spec `/` alone rounds toward minus infinity on a negative
/// dividend).
pub open spec fn tdiv(a: int, d: int) -> int
    recommends
        d > 0,
{
    if a >= 0 {
        a / d
    } else {
        -((-a) / d)
    }
}

/// The fixed-point product: the exact product, rescaled with truncation.
pub open spec fn fmul_val(a: int, b: int) -> int {
    tdiv(a * b, SCALE as int)
}

/// The fixed-point quotient: the dividend raised by one scale, then divided
/// with truncation.
pub open spec fn fdiv_val(a: int, b: int) -> int {
    tdiv(a * (SCALE as int), b)
}

/// `s` is the integer square root of `n` rounded down.
pub open spec fn is_sqrt_floor(n: int, s: int) -> bool {
    0 <= s && s * s <= n && n < (s + 1) * (s + 1)
}

/// The integer square root of `n` rounded down (meaningful for `n >= 0`).
pub open spec fn sqrt_floor(n: int) -> int {
    choose|s: int| is_sqrt_floor(n, s)
}

/// Truncated division keeps the dividend's sign, and its magnitude is the
/// floor of the magnitudes' quotient.
pub proof fn lemma_tdiv_props(a: int, d: int)
    requires
        d > 0,
    ensures
        absi(tdiv(a, d)) == absi(a) / d,
        a >= 0 ==> tdiv(a, d) >= 0,
        a <= 0 ==> tdiv(a, d) <= 0,
        absi(d * tdiv(a, d) - a) <= d - 1,
        d * absi(tdiv(a, d)) <= absi(a),
{
    if a >= 0 {
        lemma_fundamental_div_mod(a, d);
        lemma_mod_division_less_than_divisor(a, d);
        lemma_remainder_lower(a, d);
        lemma_div_pos_is_pos(a, d);
    } else {
        let m = -a;
        lemma_fundamental_div_mod(m, d);
        lemma_mod_division_less_than_divisor(m, d);
        lemma_remainder_lower(m, d);
        lemma_div_pos_is_pos(m, d);
        vstd::arithmetic::mul::lemma_mul_unary_negation(d, m / d);
    }
}

/// A magnitude bound on the dividend gives a magnitude bound on the
/// truncated quotient.
pub proof fn lemma_tdiv_mag_le(a: int, d: int, c: int)
    requires
        d > 0,
        absi(a) <= c,
    ensures
        absi(tdiv(a, d)) <= c / d,
{
    lemma_tdiv_props(a, d);
    lemma_div_is_ordered(absi(a), c, d);
}

/// Dividing `x * SCALE` by `s` with truncation loses less than one unit of
/// `s`: the quotient's magnitude, scaled back by `s`, brackets
/// `absi(x) * SCALE` from below within `s - 1`.
pub proof fn lemma_tdiv_sandwich(x: int, s: int)
    requires
        s >= 1,
    ensures
        s * absi(tdiv(x * (SCALE as int), s)) <= absi(x) * (SCALE as int),
        absi(x) * (SCALE as int) <= s * absi(tdiv(x * (SCALE as int), s)) + s - 1,
{
    lemma_tdiv_props(x * (SCALE as int), s);
    assert(absi(x * (SCALE as int)) == absi(x) * (SCALE as int));
    let t = tdiv(x * (SCALE as int), s);
    if x * (SCALE as int) >= 0 {
        assert(s * absi(t) == s * t);
    } else {
        vstd::arithmetic::mul::lemma_mul_unary_negation(s, t);
        assert(s * absi(t) == -(s * t));
    }
}

/// Truncated division is odd in its dividend: rounding toward zero treats
/// the two signs alike.
pub proof fn lemma_tdiv_neg(a: int, d: int)
    requires
        d > 0,
    ensures
        tdiv(-a, d) == -tdiv(a, d),
{
    if a == 0 {
        vstd::arithmetic::div_mod::lemma_div_of0(d);
    }
}

/// Negating either factor negates the fixed-point product.
pub proof fn lemma_fmul_val_neg_right(a: int, b: int)
    ensures
        fmul_val(a, -b) == -fmul_val(a, b),
{
    vstd::arithmetic::mul::lemma_mul_unary_negation(a, b);
    lemma_tdiv_neg(a * b, SCALE as int);
}

/// The fixed-point product is commutative.
pub proof fn lemma_fmul_val_comm(a: int, b: int)
    ensures
        fmul_val(a, b) == fmul_val(b, a),
{
    vstd::arithmetic::mul::lemma_mul_is_commutative(a, b);
}

/// A product of bounded factors is bounded by the product of the bounds.
pub proof fn lemma_abs_mul_le(x: int, y: int, p: int, q: int)
    by (nonlinear_arith)
    requires
        0 <= p,
        0 <= q,
        absi(x) <= p,
        absi(y) <= q,
    ensures
        absi(x * y) <= p * q,
{
}

/// Rescaling by `fmul_val` loses less than one scale unit: the fixed-point
/// product, raised back by one scale, is within `SCALE - 1` of the exact
/// product.
pub proof fn lemma_fmul_val_err(a: int, b: int)
    ensures
        absi((SCALE as int) * fmul_val(a, b) - a * b) <= SCALE as int - 1,
{
    lemma_tdiv_props(a * b, SCALE as int);
}

/// Squares of close numbers are close: if `u` is within `d` of `v`, the
/// squares differ by at most `d * (2 * c + d)` for any magnitude bound `c`
/// on `v`.
pub proof fn lemma_sq_close(u: int, v: int, d: int, c: int)
    by (nonlinear_arith)
    requires
        0 <= d,
        0 <= c,
        absi(u - v) <= d,
        absi(v) <= c,
    ensures
        absi(u * u - v * v) <= d * (2 * c + d),
{
}

/// Every nonnegative integer has an integer square root, so `sqrt_floor`
/// satisfies its defining property.
pub proof fn lemma_sqrt_floor_exists(n: int)
    requires
        0 <= n,
    ensures
        is_sqrt_floor(n, sqrt_floor(n)),
    decreases n,
{
    if n == 0 {
        assert(is_sqrt_floor(0, 0));
    } else {
        lemma_sqrt_floor_exists(n - 1);
        let s = sqrt_floor(n - 1);
        if n < (s + 1) * (s + 1) {
            assert(is_sqrt_floor(n, s));
        } else {
            assert(n == (s + 1) * (s + 1));
            assert((s + 1) * (s + 1) < (s + 2) * (s + 2)) by (nonlinear_arith)
                requires
                    s >= 0,
            ;
            assert(is_sqrt_floor(n, s + 1));
        }
    }
    assert(exists|x: int| is_sqrt_floor(n, x));
}

/// The integer square root is unique.
pub proof fn lemma_sqrt_floor_unique(n: int, s: int)
    requires
        is_sqrt_floor(n, s),
    ensures
        sqrt_floor(n) == s,
{
    let t = sqrt_floor(n);
    assert(is_sqrt_floor(n, t)) by {
        assert(exists|x: int| is_sqrt_floor(n, x)) by {
            assert(is_sqrt_floor(n, s));
        }
    }
    assert(t == s) by (nonlinear_arith)
        requires
            0 <= t,
            t * t <= n,
            n < (t + 1) * (t + 1),
            0 <= s,
            s * s <= n,
            n < (s + 1) * (s + 1),
    ;
}

/// Division rounded toward zero.
pub fn div_trunc(a: i128, d: i128) -> (q: i128)
    requires
        d > 0,
        -0x8000_0000_0000_0000_0000_0000_0000_0000 < a,
    ensures
        q == tdiv(a as int, d as int),
{
    proof {
        lemma_tdiv_props(a as int, d as int);
    }
    if a >= 0 {
        let m = a as u128;
        let q = m / (d as u128);
        proof {
            lemma_div_is_ordered(q as int, m as int, 1);
            lemma_div_le_self(m as int, d as int);
        }
        q as i128
    } else {
        let m = (-a) as u128;
        let q = m / (d as u128);
        proof {
            lemma_div_le_self(m as int, d as int);
        }
        -(q as i128)
    }
}

/// For a nonnegative dividend and positive divisor, the quotient does not
/// exceed the dividend.
pub proof fn lemma_div_le_self(a: int, d: int)
    requires
        a >= 0,
        d > 0,
    ensures
        0 <= a / d <= a,
{
    lemma_div_pos_is_pos(a, d);
    lemma_fundamental_div_mod(a, d);
    lemma_mod_division_less_than_divisor(a, d);
    lemma_remainder_lower(a, d);
    assert(a / d <= a) by (nonlinear_arith)
        requires
            d > 0,
            a >= 0,
            a / d >= 0,
            d * (a / d) <= a,
    ;
}

/// The fixed-point product.
pub fn fmul(a: i128, b: i128) -> (r: i128)
    requires
        -FX_LIMIT <= a <= FX_LIMIT,
        -FX_LIMIT <= b <= FX_LIMIT,
    ensures
        r == fmul_val(a as int, b as int),
        -FMUL_BOUND <= r <= FMUL_BOUND,
{
    proof {
        assert(absi(a as int * b as int) <= FX_LIMIT as int * FX_LIMIT as int)
            by (nonlinear_arith)
            requires
                -FX_LIMIT <= a <= FX_LIMIT,
                -FX_LIMIT <= b <= FX_LIMIT,
        ;
    }
    let p = a * b;
    proof {
        lemma_tdiv_mag_le(p as int, SCALE as int, FX_LIMIT as int * FX_LIMIT as int);
    }
    div_trunc(p, SCALE)
}

/// The fixed-point quotient (positive divisor).
pub fn fdiv(a: i128, b: i128) -> (r: i128)
    requires
        b > 0,
        -FX_LIMIT <= a <= FX_LIMIT,
    ensures
        r == fdiv_val(a as int, b as int),
        -FDIV_BOUND <= r <= FDIV_BOUND,
{
    let p = a * SCALE;
    proof {
        lemma_tdiv_mag_le(p as int, b as int, FX_LIMIT as int * SCALE as int);
        lemma_div_le_self(FX_LIMIT as int * SCALE as int, b as int);
    }
    div_trunc(p, b)
}

/// The integer square root, rounded down, by bisection.
pub fn isqrt(n: u128) -> (s: u128)
    ensures
        is_sqrt_floor(n as int, s as int),
        sqrt_floor(n as int) == s as int,
{
    let mut lo: u128 = 0;
    let mut hi: u128 = 18_446_744_073_709_551_616;
    while lo + 1 < hi
        invariant
            lo < hi,
            hi <= 18_446_744_073_709_551_616,
            lo * lo <= n,
            n < hi * hi,
        decreases hi - lo,
    {
        let mid = lo + (hi - lo) / 2;
        proof {
            assert((mid as int) * (mid as int) < 0x1_0000_0000_0000_0000_0000_0000_0000_0000int)
                by (nonlinear_arith)
                requires
                    0 <= mid < 18_446_744_073_709_551_616,
            ;
        }
        let sq = mid * mid;
        if sq <= n {
            lo = mid;
        } else {
            hi = mid;
        }
    }
    proof {
        lemma_sqrt_floor_unique(n as int, lo as int);
    }
    lo
}

} // verus!
