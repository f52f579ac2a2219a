//! Fixed-point homogeneous transforms: 4x4 matrices for 3D meshes and
//! 3x3 matrices for 2D meshes, both column-major, with one fixed-point
//! unit of [`SCALE`] standing for 1.0.

use crate::fixed::{
    div_fixed, div_trunc, FixedVec3, COORD_LIMIT, LINEAR_LIMIT, SCALE, TRANSLATION_LIMIT,
};
use vstd::prelude::*;

verus! {

/// Largest translation magnitude a transform may hold once a text
/// section's accumulated advance has been folded into it.
pub const APPLY_TRANSLATION_LIMIT: i64 = 0x2000_0000_0000_0000;

/// Largest magnitude of a transformed vertex component.
pub const OUT_LIMIT: i64 = 0x4000_0000_0000_0000;

/// Largest accumulated advance of a text section.
pub const ADVANCE_ACC_LIMIT: i64 = 0x10_0000_0000_0000;

/// Whether a caller-supplied column-major 4x4 matrix is within the
/// supported entry ranges.
pub open spec fn mat4_in_range(m: Seq<i64>) -> bool {
    &&& m.len() == 16
    &&& forall|i: int|
        0 <= i < 16 && i != 12 && i != 13 && i != 14 ==> -LINEAR_LIMIT <= #[trigger] m[i]
            <= LINEAR_LIMIT
    &&& -TRANSLATION_LIMIT <= m[12] <= TRANSLATION_LIMIT
    &&& -TRANSLATION_LIMIT <= m[13] <= TRANSLATION_LIMIT
    &&& -TRANSLATION_LIMIT <= m[14] <= TRANSLATION_LIMIT
}

/// Whether a 4x4 matrix may be applied to vertices: as
/// [`mat4_in_range`], but with room for an accumulated translation.
pub open spec fn mat4_apply_ok(m: Seq<i64>) -> bool {
    &&& m.len() == 16
    &&& forall|i: int|
        0 <= i < 16 && i != 12 && i != 13 && i != 14 ==> -LINEAR_LIMIT <= #[trigger] m[i]
            <= LINEAR_LIMIT
    &&& -APPLY_TRANSLATION_LIMIT <= m[12] <= APPLY_TRANSLATION_LIMIT
    &&& -APPLY_TRANSLATION_LIMIT <= m[13] <= APPLY_TRANSLATION_LIMIT
    &&& -APPLY_TRANSLATION_LIMIT <= m[14] <= APPLY_TRANSLATION_LIMIT
}

/// Whether a caller-supplied column-major 3x3 matrix is within the
/// supported entry ranges.
pub open spec fn mat3_in_range(m: Seq<i64>) -> bool {
    &&& m.len() == 9
    &&& forall|i: int|
        0 <= i < 9 && i != 6 && i != 7 ==> -LINEAR_LIMIT <= #[trigger] m[i] <= LINEAR_LIMIT
    &&& -TRANSLATION_LIMIT <= m[6] <= TRANSLATION_LIMIT
    &&& -TRANSLATION_LIMIT <= m[7] <= TRANSLATION_LIMIT
}

/// Whether a 3x3 matrix may be applied to vertices.
pub open spec fn mat3_apply_ok(m: Seq<i64>) -> bool {
    &&& m.len() == 9
    &&& forall|i: int|
        0 <= i < 9 && i != 6 && i != 7 ==> -LINEAR_LIMIT <= #[trigger] m[i] <= LINEAR_LIMIT
    &&& -APPLY_TRANSLATION_LIMIT <= m[6] <= APPLY_TRANSLATION_LIMIT
    &&& -APPLY_TRANSLATION_LIMIT <= m[7] <= APPLY_TRANSLATION_LIMIT
}

/// Whether every component of a vertex is within the input range that
/// a transform accepts.
pub open spec fn vec3_apply_in(v: FixedVec3) -> bool {
    &&& -COORD_LIMIT <= v.x <= COORD_LIMIT
    &&& -COORD_LIMIT <= v.y <= COORD_LIMIT
    &&& -COORD_LIMIT <= v.z <= COORD_LIMIT
}

/// Whether every component of a vertex is within the output range.
pub open spec fn vec3_out_range(v: FixedVec3) -> bool {
    &&& -OUT_LIMIT <= v.x <= OUT_LIMIT
    &&& -OUT_LIMIT <= v.y <= OUT_LIMIT
    &&& -OUT_LIMIT <= v.z <= OUT_LIMIT
}

/// One output component of a 4x4 transform: the linear part scaled
/// back down by [`SCALE`], plus the translation entry.
pub open spec fn mat4_component(m: Seq<i64>, v: FixedVec3, c0: int, c1: int, c2: int, t: int) -> int {
    div_trunc(m[c0] * v.x + m[c1] * v.y + m[c2] * v.z, SCALE as int) + m[t]
}

/// A point transformed by a column-major 4x4 matrix, ignoring the
/// homogeneous row.
pub open spec fn mat4_apply_spec(m: Seq<i64>, v: FixedVec3) -> FixedVec3 {
    FixedVec3 {
        x: mat4_component(m, v, 0, 4, 8, 12) as i64,
        y: mat4_component(m, v, 1, 5, 9, 13) as i64,
        z: mat4_component(m, v, 2, 6, 10, 14) as i64,
    }
}

/// One output component of a 3x3 transform of a 2D point.
pub open spec fn mat3_component(m: Seq<i64>, x: i64, y: i64, c0: int, c1: int, t: int) -> int {
    div_trunc(m[c0] * x + m[c1] * y, SCALE as int) + m[t]
}

/// A 2D point transformed by a column-major 3x3 matrix; the depth of
/// the result is zero.
pub open spec fn mat3_apply_spec(m: Seq<i64>, v: FixedVec3) -> FixedVec3 {
    FixedVec3 {
        x: mat3_component(m, v.x, v.y, 0, 3, 6) as i64,
        y: mat3_component(m, v.x, v.y, 1, 4, 7) as i64,
        z: 0,
    }
}

/// The product of a linear matrix entry and a vertex component.
fn mul_entry(a: i64, b: i64) -> (r: i64)
    requires
        -LINEAR_LIMIT <= a <= LINEAR_LIMIT,
        -COORD_LIMIT <= b <= COORD_LIMIT,
    ensures
        r == a * b,
        -0x80_0000_0000_0000 <= r <= 0x80_0000_0000_0000,
{
    proof {
        assert(-0x80_0000_0000_0000 <= (a as int) * (b as int) <= 0x80_0000_0000_0000)
            by (nonlinear_arith)
            requires
                -LINEAR_LIMIT <= a as int <= LINEAR_LIMIT,
                -COORD_LIMIT <= b as int <= COORD_LIMIT,
        ;
    }
    a * b
}

/// Applies a column-major 4x4 transform to a point.
pub fn mat4_apply(m: &[i64; 16], v: FixedVec3) -> (r: FixedVec3)
    requires
        mat4_apply_ok(m@),
        vec3_apply_in(v),
    ensures
        r == mat4_apply_spec(m@, v),
        vec3_out_range(r),
{
    let sx: i64 = mul_entry(m[0], v.x) + mul_entry(m[4], v.y) + mul_entry(m[8], v.z);
    let sy: i64 = mul_entry(m[1], v.x) + mul_entry(m[5], v.y) + mul_entry(m[9], v.z);
    let sz: i64 = mul_entry(m[2], v.x) + mul_entry(m[6], v.y) + mul_entry(m[10], v.z);
    let x = div_fixed(sx, SCALE) + m[12];
    let y = div_fixed(sy, SCALE) + m[13];
    let z = div_fixed(sz, SCALE) + m[14];
    FixedVec3 { x, y, z }
}

/// Applies a column-major 3x3 transform to the planar part of a point,
/// leaving the result at depth zero.
pub fn mat3_apply(m: &[i64; 9], v: FixedVec3) -> (r: FixedVec3)
    requires
        mat3_apply_ok(m@),
        vec3_apply_in(v),
    ensures
        r == mat3_apply_spec(m@, v),
        vec3_out_range(r),
{
    let sx: i64 = mul_entry(m[0], v.x) + mul_entry(m[3], v.y);
    let sy: i64 = mul_entry(m[1], v.x) + mul_entry(m[4], v.y);
    let x = div_fixed(sx, SCALE) + m[6];
    let y = div_fixed(sy, SCALE) + m[7];
    FixedVec3 { x, y, z: 0 }
}

/// The identity 4x4 transform.
pub fn mat4_identity() -> (r: [i64; 16])
    ensures
        mat4_in_range(r@),
        r@[0] == SCALE && r@[5] == SCALE && r@[10] == SCALE && r@[15] == SCALE,
        r@[12] == 0 && r@[13] == 0 && r@[14] == 0,
        r@[1] == 0 && r@[2] == 0 && r@[3] == 0 && r@[4] == 0 && r@[6] == 0 && r@[7] == 0
            && r@[8] == 0 && r@[9] == 0 && r@[11] == 0,
{
    [SCALE, 0, 0, 0, 0, SCALE, 0, 0, 0, 0, SCALE, 0, 0, 0, 0, SCALE]
}

/// The identity 3x3 transform.
pub fn mat3_identity() -> (r: [i64; 9])
    ensures
        mat3_in_range(r@),
        r@[0] == SCALE && r@[4] == SCALE && r@[8] == SCALE,
        r@[6] == 0 && r@[7] == 0,
        r@[1] == 0 && r@[2] == 0 && r@[3] == 0 && r@[5] == 0,
{
    [SCALE, 0, 0, 0, SCALE, 0, 0, 0, SCALE]
}

/// The translation column of `base` composed with a translation of
/// `advance` along the x-axis: the product of the matrix with a pure
/// translation changes the translation column alone.
pub open spec fn mat4_translated_spec(base: Seq<i64>, advance: int) -> Seq<i64> {
    base.update(12, (div_trunc(base[0] * advance, SCALE as int) + base[12]) as i64).update(
        13,
        (div_trunc(base[1] * advance, SCALE as int) + base[13]) as i64,
    ).update(14, (div_trunc(base[2] * advance, SCALE as int) + base[14]) as i64)
}

/// Multiplies a linear entry by an accumulated advance and scales the
/// product back down.
fn advance_term(a: i64, advance: i64) -> (r: i64)
    requires
        -LINEAR_LIMIT <= a <= LINEAR_LIMIT,
        0 <= advance <= ADVANCE_ACC_LIMIT,
    ensures
        r == div_trunc(a as int * advance as int, SCALE as int),
        -0x1000_0000_0000_0000 <= r <= 0x1000_0000_0000_0000,
{
    proof {
        let p = (a as int) * (advance as int);
        assert(-0x1000_0000_0000_0000 * 0x1_0000 <= p <= 0x1000_0000_0000_0000 * 0x1_0000)
            by (nonlinear_arith)
            requires
                p == (a as int) * (advance as int),
                -LINEAR_LIMIT <= a as int <= LINEAR_LIMIT,
                0 <= advance as int <= ADVANCE_ACC_LIMIT,
        ;
        crate::fixed::lemma_div_trunc_bounds(p, SCALE as int);
        vstd::arithmetic::div_mod::lemma_div_by_multiple(0x1000_0000_0000_0000, SCALE as int);
        if p >= 0 {
            vstd::arithmetic::div_mod::lemma_div_is_ordered(
                p,
                0x1000_0000_0000_0000int * 0x1_0000int,
                SCALE as int,
            );
        } else {
            vstd::arithmetic::div_mod::lemma_div_is_ordered(
                -p,
                0x1000_0000_0000_0000int * 0x1_0000int,
                SCALE as int,
            );
        }
    }
    crate::fixed::mul_div_fixed(a, advance, SCALE)
}

/// Folds a translation of `advance` along the x-axis into `base`, as
/// multiplying `base` by that pure translation matrix would.
pub fn mat4_translated(base: &[i64; 16], advance: i64) -> (r: [i64; 16])
    requires
        mat4_in_range(base@),
        0 <= advance <= ADVANCE_ACC_LIMIT,
    ensures
        r@ == mat4_translated_spec(base@, advance as int),
        mat4_apply_ok(r@),
{
    let t0 = advance_term(base[0], advance) + base[12];
    let t1 = advance_term(base[1], advance) + base[13];
    let t2 = advance_term(base[2], advance) + base[14];
    let r: [i64; 16] = [
        base[0],
        base[1],
        base[2],
        base[3],
        base[4],
        base[5],
        base[6],
        base[7],
        base[8],
        base[9],
        base[10],
        base[11],
        t0,
        t1,
        t2,
        base[15],
    ];
    proof {
        assert(r@ =~= mat4_translated_spec(base@, advance as int));
    }
    r
}

/// The 3x3 analogue of [`mat4_translated_spec`].
pub open spec fn mat3_translated_spec(base: Seq<i64>, advance: int) -> Seq<i64> {
    base.update(6, (div_trunc(base[0] * advance, SCALE as int) + base[6]) as i64).update(
        7,
        (div_trunc(base[1] * advance, SCALE as int) + base[7]) as i64,
    )
}

/// Folds a translation of `advance` along the x-axis into a 3x3 base.
pub fn mat3_translated(base: &[i64; 9], advance: i64) -> (r: [i64; 9])
    requires
        mat3_in_range(base@),
        0 <= advance <= ADVANCE_ACC_LIMIT,
    ensures
        r@ == mat3_translated_spec(base@, advance as int),
        mat3_apply_ok(r@),
{
    let t0 = advance_term(base[0], advance) + base[6];
    let t1 = advance_term(base[1], advance) + base[7];
    let r: [i64; 9] = [
        base[0],
        base[1],
        base[2],
        base[3],
        base[4],
        base[5],
        t0,
        t1,
        base[8],
    ];
    proof {
        assert(r@ =~= mat3_translated_spec(base@, advance as int));
    }
    r
}

} // verus!
