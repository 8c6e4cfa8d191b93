//! Fixed-point scalar arithmetic: every quantity is an integer count of
//! ticks, with `SCALE` ticks to the unit. Multiplication and division
//! truncate toward zero, and each operation's contract states its result
//! exactly over the mathematical integers.

use vstd::prelude::*;
use vstd::arithmetic::div_mod::lemma_div_is_ordered;
use vstd::arithmetic::div_mod::lemma_div_basics_5;
use vstd::arithmetic::div_mod::lemma_div_pos_is_pos;

verus! {

/// Number of fixed-point ticks in one unit.
pub const SCALE: i64 = 1000;

/// Largest magnitude, in ticks, accepted for positions, velocities, probe
/// distances and tuning coefficients handed to a step: a thousand units.
pub const INPUT_LIMIT: i64 = 1000000;

/// Largest magnitude, in ticks, accepted for a direction-vector component:
/// two units, twice what a normalized axis can carry.
pub const AXIS_LIMIT: i64 = 2000;

/// Largest magnitude, in ticks, accepted for a sine or cosine: one unit
/// plus rounding slack.
pub const TRIG_LIMIT: i64 = 1001;

/// Truncating (round-toward-zero) division, defined for a positive divisor.
pub open spec fn div_trunc(a: int, b: int) -> int
    recommends
        b > 0,
{
    if a >= 0 {
        a / b
    } else {
        -((-a) / b)
    }
}

/// Fixed-point product: `a * b` rescaled back to ticks.
pub open spec fn fmul(a: int, b: int) -> int {
    div_trunc(a * b, SCALE as int)
}

/// Fixed-point quotient: `a / b` rescaled to ticks, for a positive `b`.
pub open spec fn fdiv(a: int, b: int) -> int
    recommends
        b > 0,
{
    div_trunc(a * (SCALE as int), b)
}

/// The value is representable as an `i64`.
pub open spec fn fits_i64(v: int) -> bool {
    i64::MIN <= v <= i64::MAX
}

/// The value's magnitude is representable as an `i128`.
pub open spec fn fits_i128(v: int) -> bool {
    -(i128::MAX as int) <= v <= i128::MAX as int
}

/// Magnitude of the truncating quotient never exceeds the magnitude bound of
/// the dividend divided by the divisor.
pub proof fn lemma_div_trunc_mag(p: int, cap: int, d: int)
    requires
        d > 0,
        -cap <= p <= cap,
        0 <= cap,
    ensures
        -(cap / d) <= div_trunc(p, d) <= cap / d,
        -cap <= div_trunc(p, d) <= cap,
{
    lemma_div_pos_is_pos(cap, d);
    lemma_div_basics_5(cap, d);
    if p >= 0 {
        lemma_div_is_ordered(p, cap, d);
        lemma_div_pos_is_pos(p, d);
    } else {
        lemma_div_is_ordered(-p, cap, d);
        lemma_div_pos_is_pos(-p, d);
    }
}

/// Magnitude bound for a fixed-point product from magnitude bounds of the
/// factors.
pub proof fn lemma_fmul_bound(a: int, b: int, cap_a: int, cap_b: int)
    requires
        0 <= cap_a,
        0 <= cap_b,
        -cap_a <= a <= cap_a,
        -cap_b <= b <= cap_b,
    ensures
        -(cap_a * cap_b) <= a * b <= cap_a * cap_b,
        -((cap_a * cap_b) / (SCALE as int)) <= fmul(a, b) <= (cap_a * cap_b) / (SCALE as int),
{
    assert(-(cap_a * cap_b) <= a * b <= cap_a * cap_b) by (nonlinear_arith)
        requires
            0 <= cap_a,
            0 <= cap_b,
            -cap_a <= a <= cap_a,
            -cap_b <= b <= cap_b,
    ;
    lemma_div_trunc_mag(a * b, cap_a * cap_b, SCALE as int);
}

/// Magnitude bound for a fixed-point quotient by a divisor of at least one.
pub proof fn lemma_fdiv_bound(a: int, b: int, cap_a: int)
    requires
        0 <= cap_a,
        -cap_a <= a <= cap_a,
        b >= 1,
    ensures
        -(cap_a * (SCALE as int)) <= fdiv(a, b) <= cap_a * (SCALE as int),
{
    assert(-(cap_a * (SCALE as int)) <= a * (SCALE as int) <= cap_a * (SCALE as int))
        by (nonlinear_arith)
        requires
            0 <= cap_a,
            -cap_a <= a <= cap_a,
    ;
    lemma_div_trunc_mag(a * (SCALE as int), cap_a * (SCALE as int), b);
}

/// A fixed-point product of factors with equal signs is nonnegative.
pub proof fn lemma_fmul_nonneg(a: int, b: int)
    requires
        a >= 0 && b >= 0 || a <= 0 && b <= 0,
    ensures
        fmul(a, b) >= 0,
{
    assert(a * b >= 0) by (nonlinear_arith)
        requires
            a >= 0 && b >= 0 || a <= 0 && b <= 0,
    ;
    lemma_div_pos_is_pos(a * b, SCALE as int);
}

/// The fixed-point product is odd in its first factor.
pub proof fn lemma_fmul_neg_left(a: int, b: int)
    ensures
        fmul(-a, b) == -fmul(a, b),
{
    assert((-a) * b == -(a * b)) by (nonlinear_arith);
}

/// Multiplying by zero gives zero.
pub proof fn lemma_fmul_zero(b: int)
    ensures
        fmul(0, b) == 0,
        fmul(b, 0) == 0,
{
    assert(0 * b == 0) by (nonlinear_arith);
    assert(b * 0 == 0) by (nonlinear_arith);
    lemma_div_pos_is_pos(0, SCALE as int);
    lemma_div_basics_5(0, SCALE as int);
}

/// Fixed-point multiplication on 64-bit scalars.
pub fn fp_mul(a: i64, b: i64) -> (r: i64)
    requires
        fits_i64(fmul(a as int, b as int)),
    ensures
        r == fmul(a as int, b as int),
{
    let p: i128 = (a as i128) * (b as i128);
    let q: i128 = if p >= 0 {
        p / (SCALE as i128)
    } else {
        -((-p) / (SCALE as i128))
    };
    q as i64
}

/// Wide fixed-point multiplication, for intermediate values of a step.
pub fn wmul(a: i128, b: i128) -> (r: i128)
    requires
        a != i128::MIN,
        b != i128::MIN,
        fits_i128(a * b),
    ensures
        r == fmul(a as int, b as int),
{
    let neg: bool = (a < 0) != (b < 0);
    let am: u128 = if a >= 0 {
        a as u128
    } else {
        (-a) as u128
    };
    let bm: u128 = if b >= 0 {
        b as u128
    } else {
        (-b) as u128
    };
    let ghost ab: int = (a as int) * (b as int);
    proof {
        assert((am as int) * (bm as int) == if ab >= 0 {
            ab
        } else {
            -ab
        }) by (nonlinear_arith)
            requires
                ab == (a as int) * (b as int),
                am as int == if a >= 0 {
                    a as int
                } else {
                    -(a as int)
                },
                bm as int == if b >= 0 {
                    b as int
                } else {
                    -(b as int)
                },
        ;
        assert((am as int) * (bm as int) <= u128::MAX);
    }
    let p: u128 = am * bm;
    let q: u128 = p / (SCALE as u128);
    proof {
        lemma_div_pos_is_pos(p as int, SCALE as int);
        lemma_div_basics_5(p as int, SCALE as int);
        assert(q as int == (p as int) / (SCALE as int));
        assert(q <= p);
    }
    if neg {
        proof {
            assert(ab <= 0) by (nonlinear_arith)
                requires
                    ab == (a as int) * (b as int),
                    (a < 0) != (b < 0),
            ;
            if ab == 0 {
                assert(p == 0);
                assert(q == 0);
            } else {
                assert(p == -ab);
                assert(q as int == (-ab) / (SCALE as int));
            }
        }
        -(q as i128)
    } else {
        proof {
            assert(ab >= 0) by (nonlinear_arith)
                requires
                    ab == (a as int) * (b as int),
                    (a < 0) == (b < 0),
            ;
            assert(p == ab);
        }
        q as i128
    }
}

/// Wide truncating division by a positive divisor.
pub fn wdiv(a: i128, b: i128) -> (r: i128)
    requires
        a != i128::MIN,
        b > 0,
    ensures
        r == div_trunc(a as int, b as int),
{
    let am: u128 = if a >= 0 {
        a as u128
    } else {
        (-a) as u128
    };
    let q: u128 = am / (b as u128);
    proof {
        lemma_div_pos_is_pos(am as int, b as int);
        lemma_div_basics_5(am as int, b as int);
        assert(q as int == (am as int) / (b as int));
        assert(q <= am);
    }
    if a >= 0 {
        q as i128
    } else {
        -(q as i128)
    }
}

/// Wide fixed-point quotient by a positive divisor.
pub fn wfdiv(a: i128, b: i128) -> (r: i128)
    requires
        b > 0,
        fits_i128((a as int) * (SCALE as int)),
    ensures
        r == fdiv(a as int, b as int),
{
    let p: i128 = a * (SCALE as i128);
    wdiv(p, b)
}

/// Narrowing of a wide intermediate back to a 64-bit scalar.
pub fn narrow(a: i128) -> (r: i64)
    requires
        fits_i64(a as int),
    ensures
        r == a,
{
    a as i64
}

/// The unique nonnegative integer square root, rounded down.
pub open spec fn sqrt_floor(n: int) -> int
    recommends
        n >= 0,
{
    choose|r: int| 0 <= r && #[trigger] (r * r) <= n && n < (r + 1) * (r + 1)
}

/// Two floor square roots of the same value are equal.
pub proof fn lemma_sqrt_floor_unique(n: int, r1: int, r2: int)
    requires
        0 <= r1,
        r1 * r1 <= n < (r1 + 1) * (r1 + 1),
        0 <= r2,
        r2 * r2 <= n < (r2 + 1) * (r2 + 1),
    ensures
        r1 == r2,
{
    if r1 < r2 {
        assert((r1 + 1) * (r1 + 1) <= r2 * r2) by (nonlinear_arith)
            requires
                0 <= r1,
                r1 < r2,
        ;
    }
    if r2 < r1 {
        assert((r2 + 1) * (r2 + 1) <= r1 * r1) by (nonlinear_arith)
            requires
                0 <= r2,
                r2 < r1,
        ;
    }
}

/// Integer square root, rounded down.
pub fn isqrt(n: u128) -> (r: u128)
    ensures
        r * r <= n < (r + 1) * (r + 1),
        r == sqrt_floor(n as int),
{
    let mut lo: u128 = 0;
    let mut hi: u128 = 0x10000000000000000u128;
    proof {
        assert((hi as int) * (hi as int) > n as int) by (nonlinear_arith)
            requires
                hi as int == 0x10000000000000000,
                n as int <= u128::MAX as int,
        ;
    }
    while lo + 1 < hi
        invariant
            0 <= lo < hi,
            hi <= 0x10000000000000000u128,
            (lo as int) * (lo as int) <= n as int,
            (hi as int) * (hi as int) > n as int,
        decreases hi - lo,
    {
        let mid: u128 = lo + (hi - lo) / 2;
        assert(lo < mid < hi);
        proof {
            assert((mid as int) * (mid as int) < 0x10000000000000000 * 0x10000000000000000)
                by (nonlinear_arith)
                requires
                    0 <= mid as int,
                    (mid as int) < 0x10000000000000000,
            ;
        }
        let sq: u128 = mid * mid;
        if sq <= n {
            lo = mid;
        } else {
            hi = mid;
        }
    }
    proof {
        assert(hi == lo + 1);
        let w = lo as int;
        assert(0 <= w && w * w <= n as int && (n as int) < (w + 1) * (w + 1));
        assert(exists|r: int|
            0 <= r && #[trigger] (r * r) <= n as int && (n as int) < (r + 1) * (r + 1));
        let c = sqrt_floor(n as int);
        lemma_sqrt_floor_unique(n as int, w, c);
    }
    lo
}

} // verus!
