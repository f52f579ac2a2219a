//! Fixed-point scalars and the arithmetic helpers of the crate.
//!
//! All geometry is carried as `i64` values scaled by [`SCALE`]: one
//! font-height unit is `SCALE` fixed-point units. Division follows the
//! hardware rule and rounds toward zero, which [`div_trunc`] captures.

use vstd::arithmetic::div_mod::{
    lemma_div_by_multiple, lemma_div_is_ordered, lemma_div_nonincreasing, lemma_div_pos_is_pos,
};
use vstd::arithmetic::mul::{
    lemma_mul_inequality, lemma_mul_is_commutative, lemma_mul_nonnegative,
    lemma_mul_unary_negation,
};
use vstd::prelude::*;

verus! {

/// Number of fixed-point units in one font-height unit.
pub const SCALE: i64 = 65536;

/// One half in fixed-point units: the depth offset of each extruded cap.
pub const HALF_DEPTH: i64 = 32768;

/// Largest magnitude accepted for a normalized outline coordinate.
pub const COORD_LIMIT: i64 = 0x8000_0000;

/// Largest magnitude accepted for a raw outline event coordinate.
pub const RAW_LIMIT: i64 = 0x100_0000_0000;

/// Largest magnitude accepted for a linear (rotation, scale or shear)
/// entry of a caller-supplied transform.
pub const LINEAR_LIMIT: i64 = 0x100_0000;

/// Largest magnitude accepted for a translation entry of a
/// caller-supplied transform.
pub const TRANSLATION_LIMIT: i64 = 0x100_0000_0000;

/// Division rounding toward zero, as the `/` of the machine does it.
/// The specification `/` rounds toward negative infinity instead.
pub open spec fn div_trunc(x: int, d: int) -> int {
    if x >= 0 {
        x / d
    } else {
        -((-x) / d)
    }
}

/// The point reached after walking the fraction `i / n` of the way from
/// `a` to `b`, one coordinate at a time.
pub open spec fn lerp_fixed_spec(a: int, b: int, i: int, n: int) -> int {
    a - div_trunc((a - b) * i, n)
}

/// A 2D point in fixed-point coordinates.
#[derive(Clone, Copy, PartialEq, Eq, Structural, Debug)]
pub struct FixedPoint {
    pub x: i64,
    pub y: i64,
}

/// A 3D vector in fixed-point coordinates.
#[derive(Clone, Copy, PartialEq, Eq, Structural, Debug)]
pub struct FixedVec3 {
    pub x: i64,
    pub y: i64,
    pub z: i64,
}

/// Bounds of truncating division by a positive divisor: the quotient
/// keeps the sign of `x` and can not grow past it.
pub proof fn lemma_div_trunc_bounds(x: int, d: int)
    requires
        1 <= d,
    ensures
        x >= 0 ==> 0 <= div_trunc(x, d) <= x,
        x < 0 ==> x <= div_trunc(x, d) <= 0,
{
    if x >= 0 {
        lemma_div_pos_is_pos(x, d);
        lemma_div_nonincreasing(x, d);
    } else {
        lemma_div_pos_is_pos(-x, d);
        lemma_div_nonincreasing(-x, d);
    }
}

/// Ordering of truncating division over nonnegative numerators.
pub proof fn lemma_div_trunc_ordered_nonneg(x: int, y: int, d: int)
    requires
        1 <= d,
        0 <= x <= y,
    ensures
        div_trunc(x, d) <= div_trunc(y, d),
{
    lemma_div_is_ordered(x, y, d);
}

/// Ordering of truncating division over nonpositive numerators.
pub proof fn lemma_div_trunc_ordered_nonpos(x: int, y: int, d: int)
    requires
        1 <= d,
        y <= x <= 0,
    ensures
        div_trunc(y, d) <= div_trunc(x, d),
{
    lemma_div_is_ordered(-x, -y, d);
    lemma_div_pos_is_pos(-x, d);
}

/// Truncating division of an `i64` by a positive divisor.
pub fn div_fixed(x: i64, d: i64) -> (r: i64)
    requires
        1 <= d,
        i64::MIN < x,
    ensures
        r == div_trunc(x as int, d as int),
        x >= 0 ==> 0 <= r <= x,
        x < 0 ==> x <= r <= 0,
{
    proof {
        lemma_div_trunc_bounds(x as int, d as int);
    }
    if x >= 0 {
        ((x as u64) / (d as u64)) as i64
    } else {
        let m: u64 = (-x) as u64;
        -(((m / (d as u64)) as i64))
    }
}

/// The interpolated value stays between its two endpoints.
pub proof fn lemma_lerp_fixed_between(a: int, b: int, i: int, n: int)
    requires
        1 <= n,
        0 <= i <= n,
    ensures
        a <= b ==> a <= lerp_fixed_spec(a, b, i, n) <= b,
        b <= a ==> b <= lerp_fixed_spec(a, b, i, n) <= a,
{
    let d = a - b;
    if d >= 0 {
        lemma_mul_nonnegative(d, i);
        lemma_mul_inequality(i, n, d);
        lemma_mul_is_commutative(i, d);
        lemma_mul_is_commutative(n, d);
        lemma_div_trunc_bounds(d * i, n);
        lemma_div_trunc_ordered_nonneg(d * i, d * n, n);
        lemma_div_by_multiple(d, n);
    } else {
        lemma_mul_unary_negation(d, i);
        lemma_mul_unary_negation(d, n);
        lemma_mul_nonnegative(-d, i);
        lemma_mul_inequality(i, n, -d);
        lemma_mul_is_commutative(i, -d);
        lemma_mul_is_commutative(n, -d);
        lemma_div_trunc_bounds(d * i, n);
        lemma_div_trunc_ordered_nonpos(d * i, d * n, n);
        lemma_div_by_multiple(-d, n);
    }
}

/// Walks the fraction `step / steps` of the way from `a` to `b`.
pub fn lerp_fixed(a: i64, b: i64, step: u32, steps: u32) -> (r: i64)
    requires
        1 <= steps,
        step <= steps,
        -RAW_LIMIT <= a <= RAW_LIMIT,
        -RAW_LIMIT <= b <= RAW_LIMIT,
    ensures
        r == lerp_fixed_spec(a as int, b as int, step as int, steps as int),
        a <= b ==> a <= r <= b,
        b <= a ==> b <= r <= a,
{
    proof {
        lemma_lerp_fixed_between(a as int, b as int, step as int, steps as int);
    }
    let d: i64 = a - b;
    let t: i64 = mul_div_fixed(d, step as i64, steps as i64);
    a - t
}

/// Truncating division of a product that only fits in `i128`.
pub fn mul_div_fixed(a: i64, b: i64, d: i64) -> (r: i64)
    requires
        1 <= d,
        i64::MIN < div_trunc(a as int * b as int, d as int) <= i64::MAX,
    ensures
        r == div_trunc(a as int * b as int, d as int),
{
    proof {
        assert((a as int) * (b as int) <= 0x4000_0000_0000_0000_0000_0000_0000_0000
            && -0x4000_0000_0000_0000_0000_0000_0000_0000 <= (a as int) * (b as int))
            by (nonlinear_arith)
            requires
                -0x8000_0000_0000_0000 <= a as int <= 0x7FFF_FFFF_FFFF_FFFF,
                -0x8000_0000_0000_0000 <= b as int <= 0x7FFF_FFFF_FFFF_FFFF,
        ;
    }
    let p: i128 = (a as i128) * (b as i128);
    proof {
        lemma_div_trunc_bounds(p as int, d as int);
    }
    let q: i128 = if p >= 0 {
        ((p as u128) / (d as u128)) as i128
    } else {
        let m: u128 = (-p) as u128;
        -((m / (d as u128)) as i128)
    };
    q as i64
}

} // verus!
