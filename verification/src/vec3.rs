//! Three-component fixed-point vectors. `FixVec3` is the 64-bit value that
//! crosses the library boundary; `Wide3` is the 128-bit carrier used while a
//! step's intermediate products are formed; `Vec3i` is the mathematical view
//! both are measured against.

use vstd::prelude::*;
use crate::fixed::{
    div_trunc, fmul, fits_i64, fits_i128, sqrt_floor, lemma_fmul_bound, wmul, wdiv, isqrt, SCALE,
};

verus! {

/// A vector of three fixed-point scalars.
#[derive(Clone, Copy, PartialEq, Eq, Structural, Debug)]
pub struct FixVec3 {
    pub x: i64,
    pub y: i64,
    pub z: i64,
}

/// A vector of three wide intermediate scalars.
#[derive(Clone, Copy, PartialEq, Eq, Structural, Debug)]
pub struct Wide3 {
    pub x: i128,
    pub y: i128,
    pub z: i128,
}

/// The mathematical view of a vector: three unbounded integers.
pub ghost struct Vec3i {
    pub x: int,
    pub y: int,
    pub z: int,
}

impl FixVec3 {
    /// Mathematical view.
    pub open spec fn view_int(self) -> Vec3i {
        Vec3i { x: self.x as int, y: self.y as int, z: self.z as int }
    }

    pub fn new(x: i64, y: i64, z: i64) -> (r: FixVec3)
        ensures
            r.x == x && r.y == y && r.z == z,
    {
        FixVec3 { x, y, z }
    }

    pub fn zero() -> (r: FixVec3)
        ensures
            r.view_int() == zero3(),
    {
        FixVec3 { x: 0, y: 0, z: 0 }
    }
}

impl Wide3 {
    /// Mathematical view.
    pub open spec fn view_int(self) -> Vec3i {
        Vec3i { x: self.x as int, y: self.y as int, z: self.z as int }
    }
}

/// The zero vector.
pub open spec fn zero3() -> Vec3i {
    Vec3i { x: 0, y: 0, z: 0 }
}

/// Componentwise sum.
pub open spec fn add3(a: Vec3i, b: Vec3i) -> Vec3i {
    Vec3i { x: a.x + b.x, y: a.y + b.y, z: a.z + b.z }
}

/// Componentwise difference.
pub open spec fn sub3(a: Vec3i, b: Vec3i) -> Vec3i {
    Vec3i { x: a.x - b.x, y: a.y - b.y, z: a.z - b.z }
}

/// Componentwise negation.
pub open spec fn neg3(a: Vec3i) -> Vec3i {
    Vec3i { x: -a.x, y: -a.y, z: -a.z }
}

/// Vector scaled by a fixed-point scalar.
pub open spec fn scale3(a: Vec3i, s: int) -> Vec3i {
    Vec3i { x: fmul(a.x, s), y: fmul(a.y, s), z: fmul(a.z, s) }
}

/// Fixed-point dot product.
pub open spec fn dot3(a: Vec3i, b: Vec3i) -> int {
    fmul(a.x, b.x) + fmul(a.y, b.y) + fmul(a.z, b.z)
}

/// Fixed-point cross product.
pub open spec fn cross3(a: Vec3i, b: Vec3i) -> Vec3i {
    Vec3i {
        x: fmul(a.y, b.z) - fmul(a.z, b.y),
        y: fmul(a.z, b.x) - fmul(a.x, b.z),
        z: fmul(a.x, b.y) - fmul(a.y, b.x),
    }
}

/// Sum of squared components; carries twice the fixed-point scale.
pub open spec fn norm_sq3(a: Vec3i) -> int {
    a.x * a.x + a.y * a.y + a.z * a.z
}

/// Euclidean length, rounded down: squared ticks fall back to ticks under
/// the square root, so no rescale is needed.
pub open spec fn len3(a: Vec3i) -> int {
    sqrt_floor(norm_sq3(a))
}

/// All components within the closed magnitude bound.
pub open spec fn in_range3(a: Vec3i, cap: int) -> bool {
    -cap <= a.x <= cap && -cap <= a.y <= cap && -cap <= a.z <= cap
}

/// Componentwise truncating division by a positive count.
pub open spec fn div3(a: Vec3i, n: int) -> Vec3i
    recommends
        n > 0,
{
    Vec3i { x: div_trunc(a.x, n), y: div_trunc(a.y, n), z: div_trunc(a.z, n) }
}

/// All components representable as `i64`.
pub open spec fn fits3_i64(a: Vec3i) -> bool {
    fits_i64(a.x) && fits_i64(a.y) && fits_i64(a.z)
}

/// Magnitude bounds for a scaled vector and for the products formed on the
/// way to it.
pub proof fn lemma_scale3_bound(a: Vec3i, s: int, cap_a: int, cap_s: int)
    requires
        0 <= cap_a,
        0 <= cap_s,
        in_range3(a, cap_a),
        -cap_s <= s <= cap_s,
    ensures
        -(cap_a * cap_s) <= a.x * s <= cap_a * cap_s,
        -(cap_a * cap_s) <= a.y * s <= cap_a * cap_s,
        -(cap_a * cap_s) <= a.z * s <= cap_a * cap_s,
        in_range3(scale3(a, s), (cap_a * cap_s) / (SCALE as int)),
{
    lemma_fmul_bound(a.x, s, cap_a, cap_s);
    lemma_fmul_bound(a.y, s, cap_a, cap_s);
    lemma_fmul_bound(a.z, s, cap_a, cap_s);
}

/// Magnitude bounds for a dot product and for the products formed on the
/// way to it.
pub proof fn lemma_dot3_bound(a: Vec3i, b: Vec3i, cap_a: int, cap_b: int)
    requires
        0 <= cap_a,
        0 <= cap_b,
        in_range3(a, cap_a),
        in_range3(b, cap_b),
    ensures
        -(cap_a * cap_b) <= a.x * b.x <= cap_a * cap_b,
        -(cap_a * cap_b) <= a.y * b.y <= cap_a * cap_b,
        -(cap_a * cap_b) <= a.z * b.z <= cap_a * cap_b,
        -(2 * ((cap_a * cap_b) / (SCALE as int))) <= fmul(a.x, b.x) + fmul(a.y, b.y) <= 2 * ((cap_a
            * cap_b) / (SCALE as int)),
        -(3 * ((cap_a * cap_b) / (SCALE as int))) <= dot3(a, b) <= 3 * ((cap_a * cap_b) / (
        SCALE as int)),
{
    lemma_fmul_bound(a.x, b.x, cap_a, cap_b);
    lemma_fmul_bound(a.y, b.y, cap_a, cap_b);
    lemma_fmul_bound(a.z, b.z, cap_a, cap_b);
}

/// Magnitude bounds for a cross product and for the products formed on the
/// way to it.
pub proof fn lemma_cross3_bound(a: Vec3i, b: Vec3i, cap_a: int, cap_b: int)
    requires
        0 <= cap_a,
        0 <= cap_b,
        in_range3(a, cap_a),
        in_range3(b, cap_b),
    ensures
        -(cap_a * cap_b) <= a.y * b.z <= cap_a * cap_b,
        -(cap_a * cap_b) <= a.z * b.y <= cap_a * cap_b,
        -(cap_a * cap_b) <= a.z * b.x <= cap_a * cap_b,
        -(cap_a * cap_b) <= a.x * b.z <= cap_a * cap_b,
        -(cap_a * cap_b) <= a.x * b.y <= cap_a * cap_b,
        -(cap_a * cap_b) <= a.y * b.x <= cap_a * cap_b,
        in_range3(cross3(a, b), 2 * ((cap_a * cap_b) / (SCALE as int))),
{
    lemma_fmul_bound(a.y, b.z, cap_a, cap_b);
    lemma_fmul_bound(a.z, b.y, cap_a, cap_b);
    lemma_fmul_bound(a.z, b.x, cap_a, cap_b);
    lemma_fmul_bound(a.x, b.z, cap_a, cap_b);
    lemma_fmul_bound(a.x, b.y, cap_a, cap_b);
    lemma_fmul_bound(a.y, b.x, cap_a, cap_b);
}

/// Widening of a 64-bit vector.
pub fn wide3_of(v: FixVec3) -> (r: Wide3)
    ensures
        r.view_int() == v.view_int(),
{
    Wide3 { x: v.x as i128, y: v.y as i128, z: v.z as i128 }
}

/// Narrowing back to a 64-bit vector.
pub fn narrow3(v: Wide3) -> (r: FixVec3)
    requires
        fits_i64(v.x as int),
        fits_i64(v.y as int),
        fits_i64(v.z as int),
    ensures
        r.view_int() == v.view_int(),
{
    FixVec3 { x: v.x as i64, y: v.y as i64, z: v.z as i64 }
}

/// Wide componentwise sum.
pub fn wadd3(a: Wide3, b: Wide3) -> (r: Wide3)
    requires
        fits_i128(a.x + b.x),
        fits_i128(a.y + b.y),
        fits_i128(a.z + b.z),
    ensures
        r.view_int() == add3(a.view_int(), b.view_int()),
{
    Wide3 { x: a.x + b.x, y: a.y + b.y, z: a.z + b.z }
}

/// Wide componentwise difference.
pub fn wsub3(a: Wide3, b: Wide3) -> (r: Wide3)
    requires
        fits_i128(a.x - b.x),
        fits_i128(a.y - b.y),
        fits_i128(a.z - b.z),
    ensures
        r.view_int() == sub3(a.view_int(), b.view_int()),
{
    Wide3 { x: a.x - b.x, y: a.y - b.y, z: a.z - b.z }
}

/// Wide componentwise negation.
pub fn wneg3(a: Wide3) -> (r: Wide3)
    requires
        a.x != i128::MIN,
        a.y != i128::MIN,
        a.z != i128::MIN,
    ensures
        r.view_int() == neg3(a.view_int()),
{
    Wide3 { x: -a.x, y: -a.y, z: -a.z }
}

/// Wide scaling by a fixed-point scalar.
pub fn wscale3(a: Wide3, s: i128) -> (r: Wide3)
    requires
        s != i128::MIN,
        a.x != i128::MIN && a.y != i128::MIN && a.z != i128::MIN,
        fits_i128((a.x as int) * (s as int)),
        fits_i128((a.y as int) * (s as int)),
        fits_i128((a.z as int) * (s as int)),
    ensures
        r.view_int() == scale3(a.view_int(), s as int),
{
    Wide3 { x: wmul(a.x, s), y: wmul(a.y, s), z: wmul(a.z, s) }
}

/// Wide dot product.
pub fn wdot3(a: Wide3, b: Wide3) -> (r: i128)
    requires
        a.x != i128::MIN && a.y != i128::MIN && a.z != i128::MIN,
        b.x != i128::MIN && b.y != i128::MIN && b.z != i128::MIN,
        fits_i128((a.x as int) * (b.x as int)),
        fits_i128((a.y as int) * (b.y as int)),
        fits_i128((a.z as int) * (b.z as int)),
        fits_i128(fmul(a.x as int, b.x as int) + fmul(a.y as int, b.y as int)),
        fits_i128(dot3(a.view_int(), b.view_int())),
    ensures
        r == dot3(a.view_int(), b.view_int()),
{
    let tx: i128 = wmul(a.x, b.x);
    let ty: i128 = wmul(a.y, b.y);
    let tz: i128 = wmul(a.z, b.z);
    tx + ty + tz
}

/// Wide cross product.
pub fn wcross3(a: Wide3, b: Wide3) -> (r: Wide3)
    requires
        a.x != i128::MIN && a.y != i128::MIN && a.z != i128::MIN,
        b.x != i128::MIN && b.y != i128::MIN && b.z != i128::MIN,
        fits_i128((a.y as int) * (b.z as int)),
        fits_i128((a.z as int) * (b.y as int)),
        fits_i128((a.z as int) * (b.x as int)),
        fits_i128((a.x as int) * (b.z as int)),
        fits_i128((a.x as int) * (b.y as int)),
        fits_i128((a.y as int) * (b.x as int)),
        fits_i128(cross3(a.view_int(), b.view_int()).x),
        fits_i128(cross3(a.view_int(), b.view_int()).y),
        fits_i128(cross3(a.view_int(), b.view_int()).z),
    ensures
        r.view_int() == cross3(a.view_int(), b.view_int()),
{
    Wide3 {
        x: wmul(a.y, b.z) - wmul(a.z, b.y),
        y: wmul(a.z, b.x) - wmul(a.x, b.z),
        z: wmul(a.x, b.y) - wmul(a.y, b.x),
    }
}

/// Wide componentwise truncating division by a positive count.
pub fn wdiv3(a: Wide3, n: i128) -> (r: Wide3)
    requires
        n > 0,
        a.x != i128::MIN && a.y != i128::MIN && a.z != i128::MIN,
    ensures
        r.view_int() == div3(a.view_int(), n as int),
{
    Wide3 { x: wdiv(a.x, n), y: wdiv(a.y, n), z: wdiv(a.z, n) }
}

/// Whether every component of a wide vector is representable as `i64`.
pub fn fits3_check(a: Wide3) -> (r: bool)
    ensures
        r == fits3_i64(a.view_int()),
{
    a.x >= i64::MIN as i128 && a.x <= i64::MAX as i128 && a.y >= i64::MIN as i128 && a.y
        <= i64::MAX as i128 && a.z >= i64::MIN as i128 && a.z <= i64::MAX as i128
}

/// Wide Euclidean length, rounded down to the fixed-point grid.
pub fn wlen3(a: Wide3) -> (r: i128)
    requires
        in_range3(a.view_int(), 1000000000000000000),
    ensures
        r == len3(a.view_int()),
        0 <= r <= 2000000000000000000,
        (r as int) * (r as int) <= norm_sq3(a.view_int()) < ((r as int) + 1) * ((r as int) + 1),
{
    proof {
        assert(0 <= (a.x as int) * (a.x as int) <= 1000000000000000000000000000000000000 && 0 <= (
        a.y as int) * (a.y as int) <= 1000000000000000000000000000000000000 && 0 <= (a.z as int) * (
        a.z as int) <= 1000000000000000000000000000000000000) by (nonlinear_arith)
            requires
                in_range3(a.view_int(), 1000000000000000000),
                a.view_int() == (Vec3i { x: a.x as int, y: a.y as int, z: a.z as int }),
        ;
    }
    let sq: i128 = a.x * a.x + a.y * a.y + a.z * a.z;
    let root: u128 = isqrt(sq as u128);
    proof {
        assert(root as int <= 2000000000000000000) by (nonlinear_arith)
            requires
                (root as int) * (root as int) <= sq as int,
                sq as int <= 3000000000000000000000000000000000000,
                root as int >= 0,
        ;
    }
    root as i128
}

} // verus!
