//! Exact behaviour of the fixed-point scalar and vector primitives.

use suspension::fixed::{fp_mul, isqrt, wdiv, wfdiv, wmul};
use suspension::vec3::{wlen3, Wide3};

#[test]
fn fp_mul_rescales_exactly() {
    // 1.5 * 1.5 = 2.25
    assert_eq!(fp_mul(1500, 1500), 2250);
    // 15 * 15 = 225
    assert_eq!(fp_mul(15000, 15000), 225000);
    assert_eq!(fp_mul(0, 123456), 0);
}

#[test]
fn fp_mul_truncates_toward_zero() {
    // 0.007 * 0.007 = 0.000049, below one tick.
    assert_eq!(fp_mul(7, 7), 0);
    assert_eq!(fp_mul(-7, 7), 0);
    assert_eq!(fp_mul(-1500, 1500), -2250);
    // -1.5 * 0.333 = -0.4995; one more digit would round away from zero.
    assert_eq!(fp_mul(-1500, 333), -499);
}

#[test]
fn wide_mul_matches_narrow() {
    assert_eq!(wmul(1500, 1500), 2250);
    assert_eq!(wmul(-1500, 1500), -2250);
    assert_eq!(wmul(2_000_000_000_000, 3_000_000), 6_000_000_000_000_000);
}

#[test]
fn wide_div_truncates_toward_zero() {
    assert_eq!(wdiv(7, 2), 3);
    assert_eq!(wdiv(-7, 2), -3);
    assert_eq!(wdiv(0, 5), 0);
}

#[test]
fn fixed_quotient() {
    // 5.0 / 2.0 = 2.5
    assert_eq!(wfdiv(5000, 2000), 2500);
    // -1.0 / 3.0 = -0.333...
    assert_eq!(wfdiv(-1000, 3000), -333);
}

#[test]
fn integer_square_root() {
    assert_eq!(isqrt(0), 0);
    assert_eq!(isqrt(1), 1);
    assert_eq!(isqrt(2), 1);
    assert_eq!(isqrt(144), 12);
    assert_eq!(isqrt(1_000_000), 1000);
    assert_eq!(isqrt(999_999), 999);
}

#[test]
fn vector_length() {
    // A 3-4-5 triangle in ticks.
    let v = Wide3 { x: 3000, y: 4000, z: 0 };
    assert_eq!(wlen3(v), 5000);
    let zero = Wide3 { x: 0, y: 0, z: 0 };
    assert_eq!(wlen3(zero), 0);
}
