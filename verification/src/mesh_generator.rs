//! The top-level mesh generator: per-glyph caching, transform
//! application, and text-section layout.

use crate::bounding_box::{zero_bbox, BoundingBox};
use crate::error::{GlyphOutlineError, MeshTextError, VertexError};
use crate::cache_type::CacheType;
use crate::fixed::{div_trunc, FixedVec3, COORD_LIMIT, HALF_DEPTH, SCALE};
use crate::font_face::FontFace;
use crate::glyph_mesh::{
    glyph_mesh, glyph_mesh_indexed, glyph_mesh_wf, indexed_glyph_mesh_wf, GlyphMesh,
    IndexedGlyphMesh,
};
use crate::indexed_mesh_text::IndexedMeshText;
use crate::mesh_text::MeshText;
use crate::quality_settings::QualitySettings;
use crate::transform::{
    mat3_apply, mat3_apply_ok, mat3_apply_spec, mat3_identity, mat3_in_range, mat3_translated,
    mat4_apply, mat4_apply_ok, mat4_apply_spec, mat4_identity, mat4_in_range, mat4_translated,
    vec3_apply_in, vec3_out_range,
};
use crate::triangle_mesh::TriangleMesh;
use std::collections::HashMap;
use vstd::prelude::*;

verus! {

broadcast use vstd::std_specs::hash::group_hash_axioms;

/// Relies on `str::chars`: it yields exactly the characters of the
/// string, in order.
#[verifier::external_body]
fn chars_of(s: &str) -> (r: Vec<char>)
    ensures
        r@ == s@,
{
    s.chars().collect()
}

/// The key under which a glyph's mesh is cached: the character's code
/// point doubled, with the low bit marking the extruded variant.
pub open spec fn cache_key_spec(glyph: char, flat: bool) -> u64 {
    if flat {
        ((glyph as u64) * 2) as u64
    } else {
        ((glyph as u64) * 2 + 1) as u64
    }
}

/// The key convention is exact: distinct characters or variants
/// never share a cache entry.
pub proof fn lemma_cache_key_injective(g1: char, f1: bool, g2: char, f2: bool)
    ensures
        cache_key_spec(g1, f1) == cache_key_spec(g2, f2) ==> g1 == g2 && f1 == f2,
{
}

/// Computes a glyph's cache key.
fn cache_key(glyph: char, flat: bool) -> (k: u64)
    ensures
        k == cache_key_spec(glyph, flat),
        (k % 2 == 0) == flat,
{
    let c = glyph as u64;
    if flat {
        c * 2
    } else {
        c * 2 + 1
    }
}

/// Every vertex of a sequence transformed by a 4x4 matrix.
pub open spec fn mapped_verts4(vs: Seq<FixedVec3>, m: Seq<i64>) -> Seq<FixedVec3> {
    vs.map_values(|v: FixedVec3| mat4_apply_spec(m, v))
}

/// Every vertex of a sequence transformed by a 3x3 matrix.
pub open spec fn mapped_verts3(vs: Seq<FixedVec3>, m: Seq<i64>) -> Seq<FixedVec3> {
    vs.map_values(|v: FixedVec3| mat3_apply_spec(m, v))
}

/// A vertex sequence written out as three values per vertex.
pub open spec fn flatten3(vs: Seq<FixedVec3>) -> Seq<i64> {
    Seq::new(
        (vs.len() * 3) as nat,
        |i: int|
            if i % 3 == 0 {
                vs[i / 3].x
            } else if i % 3 == 1 {
                vs[i / 3].y
            } else {
                vs[i / 3].z
            },
    )
}

/// A vertex sequence written out as two values per vertex, dropping
/// the depth.
pub open spec fn flatten2(vs: Seq<FixedVec3>) -> Seq<i64> {
    Seq::new(
        (vs.len() * 2) as nat,
        |i: int|
            if i % 2 == 0 {
                vs[i / 2].x
            } else {
                vs[i / 2].y
            },
    )
}

/// The concatenation law of section buffers: glyphs never share
/// vertex data, so the flat buffer of consecutive glyphs is the
/// concatenation of their flat buffers, and a section's value count
/// is the sum of its glyphs' value counts.
pub proof fn lemma_flatten3_concat(a: Seq<FixedVec3>, b: Seq<FixedVec3>)
    ensures
        flatten3(a + b) == flatten3(a) + flatten3(b),
        flatten3(a + b).len() == flatten3(a).len() + flatten3(b).len(),
{
    assert forall|i: int| 0 <= i < flatten3(a + b).len() implies flatten3(a + b)[i] == (flatten3(
        a,
    ) + flatten3(b))[i] by {
        if i < a.len() * 3 {
            assert(i / 3 < a.len()) by (nonlinear_arith)
                requires
                    0 <= i < a.len() * 3,
            ;
        } else {
            let j = i - a.len() * 3;
            assert(i / 3 == a.len() + j / 3 && i % 3 == j % 3) by (nonlinear_arith)
                requires
                    i == a.len() * 3 + j,
                    0 <= j,
            ;
            assert(j / 3 < b.len()) by (nonlinear_arith)
                requires
                    0 <= j < b.len() * 3,
            ;
        }
    }
    assert(flatten3(a + b) =~= flatten3(a) + flatten3(b));
}

/// The two-dimensional analogue of [`lemma_flatten3_concat`].
pub proof fn lemma_flatten2_concat(a: Seq<FixedVec3>, b: Seq<FixedVec3>)
    ensures
        flatten2(a + b) == flatten2(a) + flatten2(b),
        flatten2(a + b).len() == flatten2(a).len() + flatten2(b).len(),
{
    assert forall|i: int| 0 <= i < flatten2(a + b).len() implies flatten2(a + b)[i] == (flatten2(
        a,
    ) + flatten2(b))[i] by {
        if i < a.len() * 2 {
            assert(i / 2 < a.len()) by (nonlinear_arith)
                requires
                    0 <= i < a.len() * 2,
            ;
        } else {
            let j = i - a.len() * 2;
            assert(i / 2 == a.len() + j / 2 && i % 2 == j % 2) by (nonlinear_arith)
                requires
                    i == a.len() * 2 + j,
                    0 <= j,
            ;
            assert(j / 2 < b.len()) by (nonlinear_arith)
                requires
                    0 <= j < b.len() * 2,
            ;
        }
    }
    assert(flatten2(a + b) =~= flatten2(a) + flatten2(b));
}

/// The vertex count a text section accumulates: one cached entry per
/// character, in order.
pub open spec fn section_vertex_total(
    cache: Map<u64, GlyphMesh>,
    text: Seq<char>,
    flat: bool,
) -> int
    decreases text.len(),
{
    if text.len() == 0 {
        0
    } else {
        section_vertex_total(cache, text.drop_last(), flat) + cache[cache_key_spec(
            text.last(),
            flat,
        )].vertices@.len()
    }
}

/// A growing cache leaves the accumulated vertex count of a text
/// unchanged, as long as the entries the text references keep their
/// vertex buffers.
pub proof fn lemma_section_vertex_total_stable(
    c1: Map<u64, GlyphMesh>,
    c2: Map<u64, GlyphMesh>,
    text: Seq<char>,
    flat: bool,
)
    requires
        forall|j: int| 0 <= j < text.len() ==> {
            let k = cache_key_spec(#[trigger] text[j], flat);
            c1.contains_key(k) && c2.contains_key(k) && c1[k].vertices@ == c2[k].vertices@
        },
    ensures
        section_vertex_total(c1, text, flat) == section_vertex_total(c2, text, flat),
    decreases text.len(),
{
    if text.len() > 0 {
        assert(text[text.len() - 1] == text.last());
        lemma_section_vertex_total_stable(c1, c2, text.drop_last(), flat);
    }
}

/// The largest value of a nonempty sequence.
pub open spec fn seq_max_int(s: Seq<int>) -> int
    decreases s.len(),
{
    if s.len() <= 1 {
        s[0]
    } else if s.last() >= seq_max_int(s.drop_last()) {
        s.last()
    } else {
        seq_max_int(s.drop_last())
    }
}

/// The largest value bounds every element and is attained.
pub proof fn lemma_seq_max_int_bounds(s: Seq<int>)
    requires
        s.len() > 0,
    ensures
        forall|i: int| 0 <= i < s.len() ==> #[trigger] s[i] <= seq_max_int(s),
        exists|i: int| 0 <= i < s.len() && s[i] == seq_max_int(s),
    decreases s.len(),
{
    if s.len() > 1 {
        let rest = s.drop_last();
        lemma_seq_max_int_bounds(rest);
        assert(forall|i: int| 0 <= i < rest.len() ==> s[i] == #[trigger] rest[i]);
        if s.last() >= seq_max_int(rest) {
            assert(s[s.len() - 1] == seq_max_int(s));
        } else {
            let j = choose|j: int| 0 <= j < rest.len() && rest[j] == seq_max_int(rest);
            assert(s[j] == seq_max_int(s));
        }
        assert forall|i: int| 0 <= i < s.len() implies #[trigger] s[i] <= seq_max_int(s) by {
            if i < s.len() - 1 {
                assert(s[i] == rest[i]);
            }
        }
    } else {
        assert(s[0] == seq_max_int(s));
    }
}

/// A value that bounds every element and is attained is the largest.
pub proof fn lemma_seq_max_int_unique(s: Seq<int>, m: int)
    requires
        s.len() > 0,
        forall|i: int| 0 <= i < s.len() ==> #[trigger] s[i] <= m,
        exists|i: int| 0 <= i < s.len() && s[i] == m,
    ensures
        seq_max_int(s) == m,
{
    lemma_seq_max_int_bounds(s);
}

/// The index buffer a text section accumulates from the cached
/// entries: each glyph's indices moved up by the running offset,
/// which then steps past the largest index a contributing glyph
/// emitted, while a glyph without indices leaves it unchanged. The
/// result pairs the buffer with the final offset.
pub open spec fn section_index_layout(
    cache: Map<u64, IndexedGlyphMesh>,
    text: Seq<char>,
    flat: bool,
) -> (Seq<int>, int)
    decreases text.len(),
{
    if text.len() == 0 {
        (Seq::empty(), 0)
    } else {
        let rest = section_index_layout(cache, text.drop_last(), flat);
        let blk = cache[cache_key_spec(text.last(), flat)].indices@.map_values(
            |x: u32| x + rest.1,
        );
        (
            rest.0 + blk,
            if blk.len() == 0 {
                rest.1
            } else {
                seq_max_int(blk) + 1
            },
        )
    }
}

/// A growing cache leaves the accumulated index layout of a text
/// unchanged, as long as the entries the text references keep their
/// index buffers.
pub proof fn lemma_section_index_layout_stable(
    c1: Map<u64, IndexedGlyphMesh>,
    c2: Map<u64, IndexedGlyphMesh>,
    text: Seq<char>,
    flat: bool,
)
    requires
        forall|j: int| 0 <= j < text.len() ==> {
            let k = cache_key_spec(#[trigger] text[j], flat);
            c1.contains_key(k) && c2.contains_key(k) && c1[k].indices@ == c2[k].indices@
        },
    ensures
        section_index_layout(c1, text, flat) == section_index_layout(c2, text, flat),
    decreases text.len(),
{
    if text.len() > 0 {
        assert(text[text.len() - 1] == text.last());
        lemma_section_index_layout_stable(c1, c2, text.drop_last(), flat);
    }
}

/// Copies a vertex buffer.
fn copy_verts(vs: &Vec<FixedVec3>) -> (r: Vec<FixedVec3>)
    ensures
        r@ == vs@,
{
    let mut out: Vec<FixedVec3> = Vec::new();
    let mut i: usize = 0;
    while i < vs.len()
        invariant
            i <= vs@.len(),
            out@ == vs@.take(i as int),
        decreases vs@.len() - i,
    {
        out.push(vs[i]);
        i = i + 1;
    }
    proof {
        assert(out@ =~= vs@);
    }
    out
}

/// Copies an index buffer.
fn copy_indices(vs: &Vec<u32>) -> (r: Vec<u32>)
    ensures
        r@ == vs@,
{
    let mut out: Vec<u32> = Vec::new();
    let mut i: usize = 0;
    while i < vs.len()
        invariant
            i <= vs@.len(),
            out@ == vs@.take(i as int),
        decreases vs@.len() - i,
    {
        out.push(vs[i]);
        i = i + 1;
    }
    proof {
        assert(out@ =~= vs@);
    }
    out
}

/// Transforms every vertex of a buffer by a 4x4 matrix.
fn apply_mat4_to_verts(vs: &Vec<FixedVec3>, m: &[i64; 16]) -> (r: Vec<FixedVec3>)
    requires
        mat4_apply_ok(m@),
        forall|i: int| 0 <= i < vs@.len() ==> vec3_apply_in(#[trigger] vs@[i]),
    ensures
        r@ == mapped_verts4(vs@, m@),
        forall|i: int| 0 <= i < r@.len() ==> vec3_out_range(#[trigger] r@[i]),
{
    let mut out: Vec<FixedVec3> = Vec::new();
    let mut i: usize = 0;
    while i < vs.len()
        invariant
            i <= vs@.len(),
            mat4_apply_ok(m@),
            forall|j: int| 0 <= j < vs@.len() ==> vec3_apply_in(#[trigger] vs@[j]),
            out@.len() == i,
            forall|j: int| 0 <= j < i ==> #[trigger] out@[j] == mat4_apply_spec(m@, vs@[j]),
            forall|j: int| 0 <= j < i ==> vec3_out_range(#[trigger] out@[j]),
        decreases vs@.len() - i,
    {
        out.push(mat4_apply(m, vs[i]));
        i = i + 1;
    }
    proof {
        assert(out@ =~= mapped_verts4(vs@, m@));
    }
    out
}

/// Transforms every vertex of a buffer by a 3x3 matrix, flattening
/// the depth to zero.
fn apply_mat3_to_verts(vs: &Vec<FixedVec3>, m: &[i64; 9]) -> (r: Vec<FixedVec3>)
    requires
        mat3_apply_ok(m@),
        forall|i: int| 0 <= i < vs@.len() ==> vec3_apply_in(#[trigger] vs@[i]),
    ensures
        r@ == mapped_verts3(vs@, m@),
        forall|i: int| 0 <= i < r@.len() ==> vec3_out_range(#[trigger] r@[i]),
{
    let mut out: Vec<FixedVec3> = Vec::new();
    let mut i: usize = 0;
    while i < vs.len()
        invariant
            i <= vs@.len(),
            mat3_apply_ok(m@),
            forall|j: int| 0 <= j < vs@.len() ==> vec3_apply_in(#[trigger] vs@[j]),
            out@.len() == i,
            forall|j: int| 0 <= j < i ==> #[trigger] out@[j] == mat3_apply_spec(m@, vs@[j]),
            forall|j: int| 0 <= j < i ==> vec3_out_range(#[trigger] out@[j]),
        decreases vs@.len() - i,
    {
        out.push(mat3_apply(m, vs[i]));
        i = i + 1;
    }
    proof {
        assert(out@ =~= mapped_verts3(vs@, m@));
    }
    out
}

/// Writes a vertex buffer out as three values per vertex.
fn flatten_verts3(vs: &Vec<FixedVec3>) -> (r: Vec<i64>)
    ensures
        r@ == flatten3(vs@),
        r@.len() % 3 == 0,
{
    let mut out: Vec<i64> = Vec::new();
    let mut i: usize = 0;
    while i < vs.len()
        invariant
            i <= vs@.len(),
            out@.len() == i * 3,
            forall|j: int| 0 <= j < i * 3 ==> out@[j] == flatten3(vs@)[j],
        decreases vs@.len() - i,
    {
        let v = vs[i];
        out.push(v.x);
        out.push(v.y);
        out.push(v.z);
        i = i + 1;
    }
    proof {
        assert(out@ =~= flatten3(vs@));
        assert(vs@.len() * 3 % 3 == 0) by (nonlinear_arith);
    }
    out
}

/// Writes a vertex buffer out as two values per vertex.
fn flatten_verts2(vs: &Vec<FixedVec3>) -> (r: Vec<i64>)
    ensures
        r@ == flatten2(vs@),
        r@.len() % 2 == 0,
{
    let mut out: Vec<i64> = Vec::new();
    let mut i: usize = 0;
    while i < vs.len()
        invariant
            i <= vs@.len(),
            out@.len() == i * 2,
            forall|j: int| 0 <= j < i * 2 ==> out@[j] == flatten2(vs@)[j],
        decreases vs@.len() - i,
    {
        let v = vs[i];
        out.push(v.x);
        out.push(v.y);
        i = i + 1;
    }
    proof {
        assert(out@ =~= flatten2(vs@));
        assert(vs@.len() * 2 % 2 == 0) by (nonlinear_arith);
    }
    out
}

/// A vertex with its depth dropped to zero.
pub open spec fn flat_v(v: FixedVec3) -> FixedVec3 {
    FixedVec3 { x: v.x, y: v.y, z: 0 }
}

/// A bounding box with the depth of both corners dropped to zero.
pub open spec fn flat_bbox(b: BoundingBox) -> BoundingBox {
    BoundingBox { max: flat_v(b.max), min: flat_v(b.min) }
}

/// Sets the depth of both corners of a box to zero.
fn make_flat_bbox(b: &BoundingBox) -> (r: BoundingBox)
    ensures
        r == flat_bbox(*b),
{
    BoundingBox {
        max: FixedVec3 { x: b.max.x, y: b.max.y, z: 0 },
        min: FixedVec3 { x: b.min.x, y: b.min.y, z: 0 },
    }
}

/// The indices a glyph contributes to a section: its own indices,
/// each moved up by the running index offset.
pub open spec fn rebased_indices(s: Seq<u32>, offset: u32) -> Seq<u32> {
    s.map_values(|x: u32| (x + offset) as u32)
}

/// The index layout law of sections: the buffer a glyph contributes
/// is its own buffer with every index moved up by exactly the running
/// offset, and a glyph that contributes no indices contributes them
/// unchanged.
pub proof fn lemma_section_index_layout(s: Seq<u32>, offset: u32)
    requires
        forall|i: int| 0 <= i < s.len() ==> (#[trigger] s[i]) + offset <= u32::MAX,
    ensures
        rebased_indices(s, offset).len() == s.len(),
        forall|i: int| 0 <= i < s.len() ==> (#[trigger] rebased_indices(s, offset)[i]) == s[i]
            + offset,
        s.len() == 0 ==> rebased_indices(s, offset) == s,
{
    if s.len() == 0 {
        assert(rebased_indices(s, offset) =~= s);
    }
}

/// Adds the running index offset to every index a glyph contributed.
/// Fails with a vertex error when an index can not be represented,
/// leaving the buffer unchanged.
fn rebase_indices(indices: &mut Vec<u32>, offset: u32) -> (r: Result<(), MeshTextError>)
    ensures
        (r is Ok <==> forall|i: int|
            0 <= i < old(indices)@.len() ==> (#[trigger] old(indices)@[i]) + offset <= u32::MAX),
        r is Ok ==> final(indices)@ == rebased_indices(old(indices)@, offset),
        r is Ok ==> final(indices)@.len() == old(indices)@.len() && forall|i: int|
            0 <= i < old(indices)@.len() ==> (#[trigger] final(indices)@[i]) == old(indices)@[i]
                + offset,
        r is Err ==> final(indices)@ == old(indices)@ && (r matches Err(
            MeshTextError::Vertex(VertexError),
        )),
{
    let mut i: usize = 0;
    while i < indices.len()
        invariant
            i <= indices@.len(),
            indices@ == old(indices)@,
            forall|j: int| 0 <= j < i ==> (#[trigger] indices@[j]) + offset <= u32::MAX,
        decreases indices@.len() - i,
    {
        if indices[i] > u32::MAX - offset {
            return Err(MeshTextError::Vertex(VertexError));
        }
        i = i + 1;
    }
    let mut i: usize = 0;
    while i < indices.len()
        invariant
            i <= indices@.len(),
            indices@.len() == old(indices)@.len(),
            forall|j: int| 0 <= j < old(indices)@.len() ==> (#[trigger] old(indices)@[j]) + offset
                <= u32::MAX,
            forall|j: int| i <= j < indices@.len() ==> (#[trigger] indices@[j]) == old(
                indices,
            )@[j],
            forall|j: int| 0 <= j < i ==> (#[trigger] indices@[j]) == old(indices)@[j] + offset,
        decreases indices@.len() - i,
    {
        let v = indices[i];
        indices.set(i, v + offset);
        i = i + 1;
    }
    proof {
        assert(indices@ =~= rebased_indices(old(indices)@, offset));
    }
    Ok(())
}

/// The largest index of a buffer, or `None` when it is empty.
fn max_index(indices: &Vec<u32>) -> (r: Option<u32>)
    ensures
        (r is None <==> indices@.len() == 0),
        r matches Some(m) ==> (forall|i: int| 0 <= i < indices@.len() ==> #[trigger] indices@[i]
            <= m) && (exists|i: int| 0 <= i < indices@.len() && indices@[i] == m),
{
    if indices.len() == 0 {
        return None;
    }
    let mut m: u32 = indices[0];
    let mut i: usize = 1;
    while i < indices.len()
        invariant
            1 <= i <= indices@.len(),
            indices@.len() > 0,
            forall|j: int| 0 <= j < i ==> #[trigger] indices@[j] <= m,
            exists|j: int| 0 <= j < i && indices@[j] == m,
        decreases indices@.len() - i,
    {
        if indices[i] > m {
            m = indices[i];
        }
        i = i + 1;
    }
    Some(m)
}

/// The fixed-point advance of a glyph whose font-unit advance is
/// `adv_units`, normalized by the line height.
fn advance_of(adv_units: u16, h: i64) -> (r: i64)
    requires
        1 <= h,
    ensures
        r == div_trunc(adv_units as int * SCALE as int, h as int),
        0 <= r <= 0x1_0000_0000,
{
    proof {
        let p = (adv_units as int) * (SCALE as int);
        assert(0 <= p <= 0x1_0000_0000) by (nonlinear_arith)
            requires
                p == (adv_units as int) * (SCALE as int),
                0 <= (adv_units as int) < 0x1_0000,
        ;
        crate::fixed::lemma_div_trunc_bounds(p, h as int);
    }
    crate::fixed::mul_div_fixed(adv_units as i64, SCALE, h)
}

/// A raw two-values-per-vertex buffer read as vertices at depth zero;
/// a trailing odd value is dropped.
pub open spec fn pairs_to_verts_spec(vs: Seq<i64>) -> Seq<FixedVec3> {
    Seq::new((vs.len() / 2) as nat, |i: int| FixedVec3 { x: vs[2 * i], y: vs[2 * i + 1], z: 0 })
}

/// A raw three-values-per-vertex buffer read as vertices; a trailing
/// partial vertex is dropped.
pub open spec fn triples_to_verts_spec(vs: Seq<i64>) -> Seq<FixedVec3> {
    Seq::new(
        (vs.len() / 3) as nat,
        |i: int| FixedVec3 { x: vs[3 * i], y: vs[3 * i + 1], z: vs[3 * i + 2] },
    )
}

/// Reads a raw buffer as two values per vertex at depth zero.
fn pairs_to_verts(vs: &Vec<i64>) -> (r: Vec<FixedVec3>)
    ensures
        r@ == pairs_to_verts_spec(vs@),
{
    let n = vs.len() / 2;
    let mut out: Vec<FixedVec3> = Vec::new();
    let mut k: usize = 0;
    while k < n
        invariant
            n == vs@.len() as int / 2,
            vs@.len() <= usize::MAX,
            k <= n,
            out@.len() == k,
            forall|j: int| 0 <= j < k ==> out@[j] == pairs_to_verts_spec(vs@)[j],
        decreases n - k,
    {
        proof {
            vstd::arithmetic::div_mod::lemma_fundamental_div_mod(vs@.len() as int, 2);
            vstd::arithmetic::div_mod::lemma_mod_division_less_than_divisor(vs@.len() as int, 2);
        }
        out.push(FixedVec3 { x: vs[2 * k], y: vs[2 * k + 1], z: 0 });
        k = k + 1;
    }
    proof {
        assert(out@ =~= pairs_to_verts_spec(vs@));
    }
    out
}

/// Reads a raw buffer as three values per vertex.
fn triples_to_verts(vs: &Vec<i64>) -> (r: Vec<FixedVec3>)
    ensures
        r@ == triples_to_verts_spec(vs@),
{
    let n = vs.len() / 3;
    let mut out: Vec<FixedVec3> = Vec::new();
    let mut k: usize = 0;
    while k < n
        invariant
            n == vs@.len() as int / 3,
            vs@.len() <= usize::MAX,
            k <= n,
            out@.len() == k,
            forall|j: int| 0 <= j < k ==> out@[j] == triples_to_verts_spec(vs@)[j],
        decreases n - k,
    {
        proof {
            vstd::arithmetic::div_mod::lemma_fundamental_div_mod(vs@.len() as int, 3);
            vstd::arithmetic::div_mod::lemma_mod_division_less_than_divisor(vs@.len() as int, 3);
        }
        out.push(FixedVec3 { x: vs[3 * k], y: vs[3 * k + 1], z: vs[3 * k + 2] });
        k = k + 1;
    }
    proof {
        assert(out@ =~= triples_to_verts_spec(vs@));
    }
    out
}

/// A mesh generator handles rasterizing individual glyphs.
///
/// Each generator handles exactly one font: for multiple fonts,
/// create one generator per font.
pub struct MeshGenerator<T: FontFace> {
    /// Cached non-indexed glyphs. Keys are derived from the character
    /// and the flat / extruded variant.
    pub cache: HashMap<u64, GlyphMesh>,

    /// The current font face.
    pub font: T,

    /// Cached indexed glyphs, under the same key convention.
    pub indexed_cache: HashMap<u64, IndexedGlyphMesh>,

    /// Quality settings for generating the text meshes.
    pub quality: QualitySettings,

    /// Controls whether the generator will automatically cache glyphs.
    pub use_cache: bool,
}

impl<T: FontFace> MeshGenerator<T> {
    /// Well-formedness: every cached entry is well formed for its
    /// variant.
    pub open spec fn wf(&self) -> bool {
        &&& forall|k: u64| #[trigger]
            self.cache@.contains_key(k) ==> glyph_mesh_wf(self.cache@[k], k % 2 == 0)
        &&& forall|k: u64| #[trigger]
            self.indexed_cache@.contains_key(k) ==> indexed_glyph_mesh_wf(
                self.indexed_cache@[k],
                k % 2 == 0,
            )
    }

    /// Whether two generators agree on font, quality and caching mode.
    pub open spec fn same_font_config(&self, other: &Self) -> bool {
        &&& self.font == other.font
        &&& self.quality == other.quality
        &&& self.use_cache == other.use_cache
    }

    /// Creates a new generator for the given font face, with default
    /// quality settings and caching enabled.
    pub fn new(font: T) -> (r: Self)
        ensures
            r.wf(),
            r.cache@ == Map::<u64, GlyphMesh>::empty(),
            r.indexed_cache@ == Map::<u64, IndexedGlyphMesh>::empty(),
            r.font == font,
            r.quality.quad_interpolation_steps == 5,
            r.quality.cubic_interpolation_steps == 3,
            r.use_cache,
    {
        MeshGenerator {
            cache: HashMap::new(),
            font,
            indexed_cache: HashMap::new(),
            quality: QualitySettings::default(),
            use_cache: true,
        }
    }

    /// Creates a new generator with custom quality settings.
    pub fn new_with_quality(font: T, quality: QualitySettings) -> (r: Self)
        ensures
            r.wf(),
            r.cache@ == Map::<u64, GlyphMesh>::empty(),
            r.indexed_cache@ == Map::<u64, IndexedGlyphMesh>::empty(),
            r.font == font,
            r.quality == quality,
            r.use_cache,
    {
        MeshGenerator {
            cache: HashMap::new(),
            font,
            indexed_cache: HashMap::new(),
            quality,
            use_cache: true,
        }
    }

    /// Creates a new generator with custom quality settings that
    /// never persists glyphs: every request is computed afresh.
    pub fn new_without_cache(font: T, quality: QualitySettings) -> (r: Self)
        ensures
            r.wf(),
            r.cache@ == Map::<u64, GlyphMesh>::empty(),
            r.indexed_cache@ == Map::<u64, IndexedGlyphMesh>::empty(),
            r.font == font,
            r.quality == quality,
            !r.use_cache,
    {
        MeshGenerator {
            cache: HashMap::new(),
            font,
            indexed_cache: HashMap::new(),
            quality,
            use_cache: false,
        }
    }

    /// Removes all stored glyphs from the internal caches. Does
    /// nothing if this generator does not cache.
    pub fn clear_cache(&mut self)
        requires
            old(self).wf(),
        ensures
            final(self).wf(),
            final(self).same_font_config(old(self)),
            old(self).use_cache ==> final(self).cache@ == Map::<u64, GlyphMesh>::empty()
                && final(self).indexed_cache@ == Map::<u64, IndexedGlyphMesh>::empty(),
            !old(self).use_cache ==> final(self).cache@ == old(self).cache@ && final(self).indexed_cache@ == old(self).indexed_cache@,
    {
        if self.use_cache {
            self.cache.clear();
            self.indexed_cache.clear();
        }
    }

    /// Gets a reference to the currently loaded font face.
    pub fn font(&self) -> (r: &T)
        ensures
            *r == self.font,
    {
        &self.font
    }

    /// Finds the glyph id of a character, substituting the font's
    /// default glyph when the font reports none.
    fn glyph_id_of_char(&self, glyph: char) -> u16 {
        match self.font.glyph_index(glyph) {
            Some(id) => id,
            None => 0,
        }
    }

    /// Generates a glyph's mesh from the font and stores it in the
    /// cache when caching is enabled.
    fn insert_into_cache(&mut self, glyph: char, flat: bool) -> (r: Result<
        GlyphMesh,
        MeshTextError,
    >)
        requires
            old(self).wf(),
        ensures
            final(self).wf(),
            final(self).same_font_config(old(self)),
            final(self).indexed_cache@ == old(self).indexed_cache@,
            r is Err ==> final(self).cache@ == old(self).cache@,
            !old(self).use_cache ==> final(self).cache@ == old(self).cache@,
            forall|k: u64| #[trigger]
                old(self).cache@.contains_key(k) ==> final(self).cache@.contains_key(k),
            r matches Ok(m) ==> glyph_mesh_wf(m, flat),
            !flat ==> (r matches Ok(m) ==> ((m.bbox.min.z == -HALF_DEPTH && m.bbox.max.z
                == HALF_DEPTH) || (m.vertices@.len() == 0 && m.bbox == zero_bbox()))),
            old(self).use_cache && r is Ok ==> {
                let key = cache_key_spec(glyph, flat);
                let m = r->Ok_0;
                &&& final(self).cache@.contains_key(key)
                &&& final(self).cache@[key].vertices@ == m.vertices@
                &&& final(self).cache@[key].bbox == m.bbox
                &&& final(self).cache@.dom() == old(self).cache@.dom().insert(key)
                &&& forall|k: u64|
                    k != key && old(self).cache@.contains_key(k) ==> final(self).cache@.contains_key(k) && final(self).cache@[k] == old(self).cache@[k]
            },
    {
        let h16 = self.font.height();
        if h16 < 1 {
            return Err(MeshTextError::Outline(GlyphOutlineError));
        }
        let glyph_index = self.glyph_id_of_char(glyph);
        let outline = self.font.outline_glyph(glyph_index);
        let m = match glyph_mesh(outline, h16 as i64, self.quality, flat) {
            Ok(m) => m,
            Err(e) => {
                return Err(e);
            },
        };
        if self.use_cache {
            let key = cache_key(glyph, flat);
            let stored = GlyphMesh { vertices: copy_verts(&m.vertices), bbox: m.bbox };
            self.cache.insert(key, stored);
            proof {
                assert(final(self).cache@.dom() =~= old(self).cache@.dom().insert(
                    cache_key_spec(glyph, flat),
                ));
            }
        }
        Ok(m)
    }

    /// Loads a glyph's mesh from the cache, or computes it on a miss,
    /// storing it when caching is enabled. With caching disabled the
    /// mesh is always computed afresh and never persisted.
    fn load_from_cache(&mut self, glyph: char, flat: bool) -> (r: Result<GlyphMesh, MeshTextError>)
        requires
            old(self).wf(),
        ensures
            final(self).wf(),
            final(self).same_font_config(old(self)),
            final(self).indexed_cache@ == old(self).indexed_cache@,
            r is Err ==> final(self).cache@ == old(self).cache@,
            !old(self).use_cache ==> final(self).cache@ == old(self).cache@,
            forall|k: u64| #[trigger]
                old(self).cache@.contains_key(k) ==> final(self).cache@.contains_key(k),
            r matches Ok(m) ==> glyph_mesh_wf(m, flat),
            (!old(self).use_cache || !old(self).cache@.contains_key(cache_key_spec(glyph, flat)))
                && !flat ==> (r matches Ok(m) ==> ((m.bbox.min.z == -HALF_DEPTH && m.bbox.max.z
                == HALF_DEPTH) || (m.vertices@.len() == 0 && m.bbox == zero_bbox()))),
            old(self).use_cache && old(self).cache@.contains_key(cache_key_spec(glyph, flat))
                ==> {
                let key = cache_key_spec(glyph, flat);
                &&& final(self).cache@ == old(self).cache@
                &&& r matches Ok(m) && m.vertices@ == old(self).cache@[key].vertices@ && m.bbox
                    == old(self).cache@[key].bbox
            },
            old(self).use_cache && r is Ok ==> {
                let key = cache_key_spec(glyph, flat);
                let m = r->Ok_0;
                &&& final(self).cache@.contains_key(key)
                &&& final(self).cache@[key].vertices@ == m.vertices@
                &&& final(self).cache@[key].bbox == m.bbox
                &&& final(self).cache@.dom() == old(self).cache@.dom().insert(key)
                &&& forall|k: u64|
                    k != key && old(self).cache@.contains_key(k) ==> final(self).cache@.contains_key(k) && final(self).cache@[k] == old(self).cache@[k]
            },
    {
        if self.use_cache {
            let key = cache_key(glyph, flat);
            let hit = self.cache.get(&key);
            match hit {
                Some(gm) => {
                    let m = GlyphMesh { vertices: copy_verts(&gm.vertices), bbox: gm.bbox };
                    proof {
                        assert(self.cache@.dom() =~= self.cache@.dom().insert(
                            cache_key_spec(glyph, flat),
                        ));
                    }
                    return Ok(m);
                },
                None => {},
            }
        }
        self.insert_into_cache(glyph, flat)
    }

    /// Generates the mesh of a single character, optionally applying
    /// a column-major 4x4 transformation to every vertex and to the
    /// bounding box.
    pub fn generate_glyph(
        &mut self,
        glyph: char,
        flat: bool,
        transform: Option<&[i64; 16]>,
    ) -> (r: Result<MeshText, MeshTextError>)
        requires
            old(self).wf(),
            transform matches Some(t) ==> mat4_in_range(t@),
        ensures
            final(self).wf(),
            final(self).same_font_config(old(self)),
            final(self).indexed_cache@ == old(self).indexed_cache@,
            !old(self).use_cache ==> final(self).cache@ == old(self).cache@,
            forall|k: u64| #[trigger]
                old(self).cache@.contains_key(k) ==> final(self).cache@.contains_key(k),
            r matches Ok(mt) ==> mt.vertices@.len() % 9 == 0,
            flat && transform is None ==> (r matches Ok(mt) ==> mt.bbox.min.z == 0
                && mt.bbox.max.z == 0),
            (!old(self).use_cache || !old(self).cache@.contains_key(cache_key_spec(glyph, flat)))
                && !flat && transform is None ==> (r matches Ok(mt) ==> ((mt.bbox.min.z
                == -HALF_DEPTH && mt.bbox.max.z == HALF_DEPTH) || (mt.vertices@.len() == 0
                && mt.bbox == zero_bbox()))),
            old(self).use_cache && r is Ok ==> {
                let key = cache_key_spec(glyph, flat);
                let mt = r->Ok_0;
                &&& final(self).cache@.contains_key(key)
                &&& ({
                    let gm = final(self).cache@[key];
                    match transform {
                        Some(t) => mt.vertices@ == flatten3(mapped_verts4(gm.vertices@, t@))
                            && mt.bbox.min == mat4_apply_spec(t@, gm.bbox.min) && mt.bbox.max
                            == mat4_apply_spec(t@, gm.bbox.max),
                        None => mt.vertices@ == flatten3(gm.vertices@) && mt.bbox == gm.bbox,
                    }
                })
            },
            old(self).use_cache && old(self).cache@.contains_key(cache_key_spec(glyph, flat))
                ==> final(self).cache@ == old(self).cache@ && r is Ok,
    {
        let mesh = match self.load_from_cache(glyph, flat) {
            Ok(m) => m,
            Err(e) => {
                return Err(e);
            },
        };
        proof {
            let n = mesh.vertices@.len() as int;
            assert((3 * n) % 9 == 0) by (nonlinear_arith)
                requires
                    n % 3 == 0,
            ;
        }
        match transform {
            Some(t) => {
                let verts = apply_mat4_to_verts(&mesh.vertices, t);
                let mut bbox = mesh.bbox;
                bbox.transform(t);
                let buffer = flatten_verts3(&verts);
                Ok(MeshText { bbox, vertices: buffer })
            },
            None => {
                let buffer = flatten_verts3(&mesh.vertices);
                Ok(MeshText { bbox: mesh.bbox, vertices: buffer })
            },
        }
    }

    /// Generates an indexed glyph's mesh from the font and stores it
    /// in the indexed cache when caching is enabled.
    fn insert_into_cache_indexed(&mut self, glyph: char, flat: bool) -> (r: Result<
        IndexedGlyphMesh,
        MeshTextError,
    >)
        requires
            old(self).wf(),
        ensures
            final(self).wf(),
            final(self).same_font_config(old(self)),
            final(self).cache@ == old(self).cache@,
            r is Err ==> final(self).indexed_cache@ == old(self).indexed_cache@,
            !old(self).use_cache ==> final(self).indexed_cache@ == old(self).indexed_cache@,
            forall|k: u64| #[trigger]
                old(self).indexed_cache@.contains_key(k) ==> final(self).indexed_cache@.contains_key(k),
            r matches Ok(m) ==> indexed_glyph_mesh_wf(m, flat),
            !flat ==> (r matches Ok(m) ==> ((m.bbox.min.z == -HALF_DEPTH && m.bbox.max.z
                == HALF_DEPTH) || (m.vertices@.len() == 0 && m.indices@.len() == 0 && m.bbox
                == zero_bbox()))),
            old(self).use_cache && r is Ok ==> {
                let key = cache_key_spec(glyph, flat);
                let m = r->Ok_0;
                &&& final(self).indexed_cache@.contains_key(key)
                &&& final(self).indexed_cache@[key].vertices@ == m.vertices@
                &&& final(self).indexed_cache@[key].indices@ == m.indices@
                &&& final(self).indexed_cache@[key].bbox == m.bbox
                &&& final(self).indexed_cache@.dom() == old(self).indexed_cache@.dom().insert(
                    key,
                )
                &&& forall|k: u64|
                    k != key && old(self).indexed_cache@.contains_key(k) ==> final(self).indexed_cache@.contains_key(k) && final(self).indexed_cache@[k] == old(self).indexed_cache@[k]
            },
    {
        let h16 = self.font.height();
        if h16 < 1 {
            return Err(MeshTextError::Outline(GlyphOutlineError));
        }
        let glyph_index = self.glyph_id_of_char(glyph);
        let outline = self.font.outline_glyph(glyph_index);
        let m = match glyph_mesh_indexed(outline, h16 as i64, self.quality, flat) {
            Ok(m) => m,
            Err(e) => {
                return Err(e);
            },
        };
        if self.use_cache {
            let key = cache_key(glyph, flat);
            let stored = IndexedGlyphMesh {
                indices: copy_indices(&m.indices),
                vertices: copy_verts(&m.vertices),
                bbox: m.bbox,
            };
            self.indexed_cache.insert(key, stored);
            proof {
                assert(final(self).indexed_cache@.dom() =~= old(self).indexed_cache@.dom().insert(cache_key_spec(glyph, flat)));
            }
        }
        Ok(m)
    }

    /// Loads an indexed glyph's mesh from the cache, or computes it.
    fn load_from_cache_indexed(&mut self, glyph: char, flat: bool) -> (r: Result<
        IndexedGlyphMesh,
        MeshTextError,
    >)
        requires
            old(self).wf(),
        ensures
            final(self).wf(),
            final(self).same_font_config(old(self)),
            final(self).cache@ == old(self).cache@,
            r is Err ==> final(self).indexed_cache@ == old(self).indexed_cache@,
            !old(self).use_cache ==> final(self).indexed_cache@ == old(self).indexed_cache@,
            forall|k: u64| #[trigger]
                old(self).indexed_cache@.contains_key(k) ==> final(self).indexed_cache@.contains_key(k),
            r matches Ok(m) ==> indexed_glyph_mesh_wf(m, flat),
            (!old(self).use_cache || !old(self).indexed_cache@.contains_key(
                cache_key_spec(glyph, flat),
            )) && !flat ==> (r matches Ok(m) ==> ((m.bbox.min.z == -HALF_DEPTH && m.bbox.max.z
                == HALF_DEPTH) || (m.vertices@.len() == 0 && m.indices@.len() == 0 && m.bbox
                == zero_bbox()))),
            old(self).use_cache && old(self).indexed_cache@.contains_key(
                cache_key_spec(glyph, flat),
            ) ==> {
                let key = cache_key_spec(glyph, flat);
                &&& final(self).indexed_cache@ == old(self).indexed_cache@
                &&& r matches Ok(m) && m.vertices@ == old(self).indexed_cache@[key].vertices@
                    && m.indices@ == old(self).indexed_cache@[key].indices@ && m.bbox == old(self).indexed_cache@[key].bbox
            },
            old(self).use_cache && r is Ok ==> {
                let key = cache_key_spec(glyph, flat);
                let m = r->Ok_0;
                &&& final(self).indexed_cache@.contains_key(key)
                &&& final(self).indexed_cache@[key].vertices@ == m.vertices@
                &&& final(self).indexed_cache@[key].indices@ == m.indices@
                &&& final(self).indexed_cache@[key].bbox == m.bbox
                &&& final(self).indexed_cache@.dom() == old(self).indexed_cache@.dom().insert(
                    key,
                )
                &&& forall|k: u64|
                    k != key && old(self).indexed_cache@.contains_key(k) ==> final(self).indexed_cache@.contains_key(k) && final(self).indexed_cache@[k] == old(self).indexed_cache@[k]
            },
    {
        if self.use_cache {
            let key = cache_key(glyph, flat);
            let hit = self.indexed_cache.get(&key);
            match hit {
                Some(gm) => {
                    let m = IndexedGlyphMesh {
                        indices: copy_indices(&gm.indices),
                        vertices: copy_verts(&gm.vertices),
                        bbox: gm.bbox,
                    };
                    proof {
                        assert(self.indexed_cache@.dom() =~= self.indexed_cache@.dom().insert(
                            cache_key_spec(glyph, flat),
                        ));
                    }
                    return Ok(m);
                },
                None => {},
            }
        }
        self.insert_into_cache_indexed(glyph, flat)
    }

    /// Generates the two-dimensional mesh of a single character, with
    /// two values per vertex, optionally applying a column-major 3x3
    /// transformation.
    pub fn generate_glyph_2d(&mut self, glyph: char, transform: Option<&[i64; 9]>) -> (r: Result<
        MeshText,
        MeshTextError,
    >)
        requires
            old(self).wf(),
            transform matches Some(t) ==> mat3_in_range(t@),
        ensures
            final(self).wf(),
            final(self).same_font_config(old(self)),
            final(self).indexed_cache@ == old(self).indexed_cache@,
            !old(self).use_cache ==> final(self).cache@ == old(self).cache@,
            forall|k: u64| #[trigger]
                old(self).cache@.contains_key(k) ==> final(self).cache@.contains_key(k),
            r matches Ok(mt) ==> mt.vertices@.len() % 6 == 0,
            r matches Ok(mt) ==> mt.bbox.min.z == 0 && mt.bbox.max.z == 0,
            old(self).use_cache && old(self).cache@.contains_key(cache_key_spec(glyph, true))
                ==> final(self).cache@ == old(self).cache@ && r is Ok,
            old(self).use_cache && r is Ok ==> {
                let key = cache_key_spec(glyph, true);
                let mt = r->Ok_0;
                &&& final(self).cache@.contains_key(key)
                &&& ({
                    let gm = final(self).cache@[key];
                    match transform {
                        Some(t) => mt.vertices@ == flatten2(mapped_verts3(gm.vertices@, t@))
                            && mt.bbox.min == mat3_apply_spec(t@, flat_v(gm.bbox.min))
                            && mt.bbox.max == mat3_apply_spec(t@, flat_v(gm.bbox.max)),
                        None => mt.vertices@ == flatten2(gm.vertices@) && mt.bbox == flat_bbox(
                            gm.bbox,
                        ),
                    }
                })
            },
    {
        let mesh = match self.load_from_cache(glyph, true) {
            Ok(m) => m,
            Err(e) => {
                return Err(e);
            },
        };
        proof {
            let n = mesh.vertices@.len() as int;
            assert((2 * n) % 6 == 0) by (nonlinear_arith)
                requires
                    n % 3 == 0,
            ;
        }
        let bbox = make_flat_bbox(&mesh.bbox);
        match transform {
            Some(t) => {
                let verts = apply_mat3_to_verts(&mesh.vertices, t);
                let mut bbox = bbox;
                bbox.transform_2d(t);
                let buffer = flatten_verts2(&verts);
                Ok(MeshText { bbox, vertices: buffer })
            },
            None => {
                let buffer = flatten_verts2(&mesh.vertices);
                Ok(MeshText { bbox, vertices: buffer })
            },
        }
    }

    /// Generates the indexed mesh of a single character, optionally
    /// applying a column-major 4x4 transformation. Every index of the
    /// result addresses a vertex triple in the buffer.
    pub fn generate_glyph_indexed(
        &mut self,
        glyph: char,
        flat: bool,
        transform: Option<&[i64; 16]>,
    ) -> (r: Result<IndexedMeshText, MeshTextError>)
        requires
            old(self).wf(),
            transform matches Some(t) ==> mat4_in_range(t@),
        ensures
            final(self).wf(),
            final(self).same_font_config(old(self)),
            final(self).cache@ == old(self).cache@,
            !old(self).use_cache ==> final(self).indexed_cache@ == old(self).indexed_cache@,
            forall|k: u64| #[trigger]
                old(self).indexed_cache@.contains_key(k) ==> final(self).indexed_cache@.contains_key(k),
            r matches Ok(mt) ==> mt.vertices@.len() % 3 == 0 && mt.indices@.len() % 3 == 0
                && forall|i: int|
                0 <= i < mt.indices@.len() ==> 3 * (#[trigger] mt.indices@[i]) < mt.vertices@.len(),
            flat && transform is None ==> (r matches Ok(mt) ==> mt.bbox.min.z == 0
                && mt.bbox.max.z == 0),
            (!old(self).use_cache || !old(self).indexed_cache@.contains_key(
                cache_key_spec(glyph, flat),
            )) && !flat && transform is None ==> (r matches Ok(mt) ==> ((mt.bbox.min.z
                == -HALF_DEPTH && mt.bbox.max.z == HALF_DEPTH) || (mt.vertices@.len() == 0
                && mt.indices@.len() == 0 && mt.bbox == zero_bbox()))),
            old(self).use_cache && old(self).indexed_cache@.contains_key(
                cache_key_spec(glyph, flat),
            ) ==> final(self).indexed_cache@ == old(self).indexed_cache@ && r is Ok,
            old(self).use_cache && r is Ok ==> {
                let key = cache_key_spec(glyph, flat);
                let mt = r->Ok_0;
                &&& final(self).indexed_cache@.contains_key(key)
                &&& ({
                    let gm = final(self).indexed_cache@[key];
                    &&& mt.indices@ == gm.indices@
                    &&& match transform {
                        Some(t) => mt.vertices@ == flatten3(mapped_verts4(gm.vertices@, t@))
                            && mt.bbox.min == mat4_apply_spec(t@, gm.bbox.min) && mt.bbox.max
                            == mat4_apply_spec(t@, gm.bbox.max),
                        None => mt.vertices@ == flatten3(gm.vertices@) && mt.bbox == gm.bbox,
                    }
                })
            },
    {
        let mesh = match self.load_from_cache_indexed(glyph, flat) {
            Ok(m) => m,
            Err(e) => {
                return Err(e);
            },
        };
        match transform {
            Some(t) => {
                let verts = apply_mat4_to_verts(&mesh.vertices, t);
                let mut bbox = mesh.bbox;
                bbox.transform(t);
                let buffer = flatten_verts3(&verts);
                Ok(IndexedMeshText { bbox, indices: mesh.indices, vertices: buffer })
            },
            None => {
                let buffer = flatten_verts3(&mesh.vertices);
                Ok(IndexedMeshText { bbox: mesh.bbox, indices: mesh.indices, vertices: buffer })
            },
        }
    }

    /// Generates the two-dimensional indexed mesh of a single
    /// character, with two values per vertex, optionally applying a
    /// column-major 3x3 transformation.
    pub fn generate_glyph_indexed_2d(&mut self, glyph: char, transform: Option<&[i64; 9]>) -> (r:
        Result<IndexedMeshText, MeshTextError>)
        requires
            old(self).wf(),
            transform matches Some(t) ==> mat3_in_range(t@),
        ensures
            final(self).wf(),
            final(self).same_font_config(old(self)),
            final(self).cache@ == old(self).cache@,
            !old(self).use_cache ==> final(self).indexed_cache@ == old(self).indexed_cache@,
            forall|k: u64| #[trigger]
                old(self).indexed_cache@.contains_key(k) ==> final(self).indexed_cache@.contains_key(k),
            r matches Ok(mt) ==> mt.vertices@.len() % 2 == 0 && mt.indices@.len() % 3 == 0
                && forall|i: int|
                0 <= i < mt.indices@.len() ==> 2 * (#[trigger] mt.indices@[i]) < mt.vertices@.len(),
            r matches Ok(mt) ==> mt.bbox.min.z == 0 && mt.bbox.max.z == 0,
            old(self).use_cache && old(self).indexed_cache@.contains_key(
                cache_key_spec(glyph, true),
            ) ==> final(self).indexed_cache@ == old(self).indexed_cache@ && r is Ok,
            old(self).use_cache && r is Ok ==> {
                let key = cache_key_spec(glyph, true);
                let mt = r->Ok_0;
                &&& final(self).indexed_cache@.contains_key(key)
                &&& ({
                    let gm = final(self).indexed_cache@[key];
                    &&& mt.indices@ == gm.indices@
                    &&& match transform {
                        Some(t) => mt.vertices@ == flatten2(mapped_verts3(gm.vertices@, t@))
                            && mt.bbox.min == mat3_apply_spec(t@, flat_v(gm.bbox.min))
                            && mt.bbox.max == mat3_apply_spec(t@, flat_v(gm.bbox.max)),
                        None => mt.vertices@ == flatten2(gm.vertices@) && mt.bbox == flat_bbox(
                            gm.bbox,
                        ),
                    }
                })
            },
    {
        let mesh = match self.load_from_cache_indexed(glyph, true) {
            Ok(m) => m,
            Err(e) => {
                return Err(e);
            },
        };
        let bbox = make_flat_bbox(&mesh.bbox);
        match transform {
            Some(t) => {
                let verts = apply_mat3_to_verts(&mesh.vertices, t);
                let mut bbox = bbox;
                bbox.transform_2d(t);
                let buffer = flatten_verts2(&verts);
                Ok(IndexedMeshText { bbox, indices: mesh.indices, vertices: buffer })
            },
            None => {
                let buffer = flatten_verts2(&mesh.vertices);
                Ok(IndexedMeshText { bbox, indices: mesh.indices, vertices: buffer })
            },
        }
    }

    /// Loads a glyph and applies a ready 4x4 transform to its
    /// vertices and bounding box.
    fn glyph_with_transform(&mut self, glyph: char, flat: bool, t: &[i64; 16]) -> (r: Result<
        (Vec<FixedVec3>, BoundingBox),
        MeshTextError,
    >)
        requires
            old(self).wf(),
            mat4_apply_ok(t@),
        ensures
            final(self).wf(),
            final(self).same_font_config(old(self)),
            final(self).indexed_cache@ == old(self).indexed_cache@,
            !old(self).use_cache ==> final(self).cache@ == old(self).cache@,
            forall|k: u64| #[trigger]
                old(self).cache@.contains_key(k) ==> final(self).cache@.contains_key(k),
            old(self).use_cache && old(self).cache@.contains_key(cache_key_spec(glyph, flat))
                ==> final(self).cache@ == old(self).cache@ && r is Ok,
            old(self).use_cache && r is Ok ==> {
                let g = r->Ok_0;
                let key = cache_key_spec(glyph, flat);
                &&& final(self).cache@.contains_key(key)
                &&& g.0@.len() == final(self).cache@[key].vertices@.len()
                &&& forall|k: u64|
                    k != key && old(self).cache@.contains_key(k) ==> final(self).cache@.contains_key(k) && final(self).cache@[k] == old(self).cache@[k]
            },
    {
        let mesh = match self.load_from_cache(glyph, flat) {
            Ok(m) => m,
            Err(e) => {
                return Err(e);
            },
        };
        let verts = apply_mat4_to_verts(&mesh.vertices, t);
        let mut bbox = mesh.bbox;
        bbox.transform(t);
        Ok((verts, bbox))
    }

    /// Loads a flat glyph and applies a ready 3x3 transform, after
    /// flattening its bounding box.
    fn glyph_with_transform_2d(&mut self, glyph: char, t: &[i64; 9]) -> (r: Result<
        (Vec<FixedVec3>, BoundingBox),
        MeshTextError,
    >)
        requires
            old(self).wf(),
            mat3_apply_ok(t@),
        ensures
            final(self).wf(),
            final(self).same_font_config(old(self)),
            final(self).indexed_cache@ == old(self).indexed_cache@,
            !old(self).use_cache ==> final(self).cache@ == old(self).cache@,
            forall|k: u64| #[trigger]
                old(self).cache@.contains_key(k) ==> final(self).cache@.contains_key(k),
            old(self).use_cache && old(self).cache@.contains_key(cache_key_spec(glyph, true))
                ==> final(self).cache@ == old(self).cache@ && r is Ok,
            old(self).use_cache && r is Ok ==> {
                let g = r->Ok_0;
                let key = cache_key_spec(glyph, true);
                &&& final(self).cache@.contains_key(key)
                &&& g.0@.len() == final(self).cache@[key].vertices@.len()
                &&& forall|k: u64|
                    k != key && old(self).cache@.contains_key(k) ==> final(self).cache@.contains_key(k) && final(self).cache@[k] == old(self).cache@[k]
            },
    {
        let mesh = match self.load_from_cache(glyph, true) {
            Ok(m) => m,
            Err(e) => {
                return Err(e);
            },
        };
        let verts = apply_mat3_to_verts(&mesh.vertices, t);
        let mut bbox = make_flat_bbox(&mesh.bbox);
        bbox.transform_2d(t);
        Ok((verts, bbox))
    }

    /// Loads an indexed glyph and applies a ready 4x4 transform.
    /// Every returned index addresses a returned vertex.
    fn glyph_with_transform_indexed(&mut self, glyph: char, flat: bool, t: &[i64; 16]) -> (r:
        Result<(Vec<u32>, Vec<FixedVec3>, BoundingBox), MeshTextError>)
        requires
            old(self).wf(),
            mat4_apply_ok(t@),
        ensures
            final(self).wf(),
            final(self).same_font_config(old(self)),
            final(self).cache@ == old(self).cache@,
            !old(self).use_cache ==> final(self).indexed_cache@ == old(self).indexed_cache@,
            forall|k: u64| #[trigger]
                old(self).indexed_cache@.contains_key(k) ==> final(self).indexed_cache@.contains_key(k),
            old(self).use_cache && old(self).indexed_cache@.contains_key(
                cache_key_spec(glyph, flat),
            ) ==> final(self).indexed_cache@ == old(self).indexed_cache@ && r is Ok,
            old(self).use_cache && r is Ok ==> {
                let g = r->Ok_0;
                let key = cache_key_spec(glyph, flat);
                &&& final(self).indexed_cache@.contains_key(key)
                &&& g.0@ == final(self).indexed_cache@[key].indices@
                &&& forall|k: u64|
                    k != key && old(self).indexed_cache@.contains_key(k) ==> final(self).indexed_cache@.contains_key(k) && final(self).indexed_cache@[k] == old(self).indexed_cache@[k]
            },
            r matches Ok(g) ==> forall|j: int|
                0 <= j < g.0@.len() ==> (#[trigger] g.0@[j]) < g.1@.len(),
    {
        let mesh = match self.load_from_cache_indexed(glyph, flat) {
            Ok(m) => m,
            Err(e) => {
                return Err(e);
            },
        };
        let verts = apply_mat4_to_verts(&mesh.vertices, t);
        let mut bbox = mesh.bbox;
        bbox.transform(t);
        Ok((mesh.indices, verts, bbox))
    }

    /// Loads a flat indexed glyph and applies a ready 3x3 transform.
    fn glyph_with_transform_indexed_2d(&mut self, glyph: char, t: &[i64; 9]) -> (r: Result<
        (Vec<u32>, Vec<FixedVec3>, BoundingBox),
        MeshTextError,
    >)
        requires
            old(self).wf(),
            mat3_apply_ok(t@),
        ensures
            final(self).wf(),
            final(self).same_font_config(old(self)),
            final(self).cache@ == old(self).cache@,
            !old(self).use_cache ==> final(self).indexed_cache@ == old(self).indexed_cache@,
            forall|k: u64| #[trigger]
                old(self).indexed_cache@.contains_key(k) ==> final(self).indexed_cache@.contains_key(k),
            old(self).use_cache && old(self).indexed_cache@.contains_key(
                cache_key_spec(glyph, true),
            ) ==> final(self).indexed_cache@ == old(self).indexed_cache@ && r is Ok,
            old(self).use_cache && r is Ok ==> {
                let g = r->Ok_0;
                let key = cache_key_spec(glyph, true);
                &&& final(self).indexed_cache@.contains_key(key)
                &&& g.0@ == final(self).indexed_cache@[key].indices@
                &&& forall|k: u64|
                    k != key && old(self).indexed_cache@.contains_key(k) ==> final(self).indexed_cache@.contains_key(k) && final(self).indexed_cache@[k] == old(self).indexed_cache@[k]
            },
            r matches Ok(g) ==> forall|j: int|
                0 <= j < g.0@.len() ==> (#[trigger] g.0@[j]) < g.1@.len(),
    {
        let mesh = match self.load_from_cache_indexed(glyph, true) {
            Ok(m) => m,
            Err(e) => {
                return Err(e);
            },
        };
        let verts = apply_mat3_to_verts(&mesh.vertices, t);
        let mut bbox = make_flat_bbox(&mesh.bbox);
        bbox.transform_2d(t);
        Ok((mesh.indices, verts, bbox))
    }

    /// Generates the mesh of a text section: every character's glyph
    /// is laid out at the running horizontal advance, under the
    /// optional base transformation, and the bounding boxes are
    /// combined. A failing glyph aborts the whole section.
    pub fn generate_text_section(
        &mut self,
        text: &str,
        flat: bool,
        transform: Option<&[i64; 16]>,
    ) -> (r: Result<MeshText, MeshTextError>)
        requires
            old(self).wf(),
            text@.len() <= 0x10_0000,
            transform matches Some(t) ==> mat4_in_range(t@),
        ensures
            final(self).wf(),
            final(self).same_font_config(old(self)),
            final(self).indexed_cache@ == old(self).indexed_cache@,
            !old(self).use_cache ==> final(self).cache@ == old(self).cache@,
            r matches Ok(mt) ==> mt.vertices@.len() % 3 == 0,
            old(self).use_cache && r is Ok ==> forall|i: int|
                0 <= i < text@.len() ==> final(self).cache@.contains_key(
                    #[trigger] cache_key_spec(text@[i], flat),
                ),
            old(self).use_cache && r is Ok ==> r->Ok_0.vertices@.len() == 3
                * section_vertex_total(final(self).cache@, text@, flat),
            text@.len() == 0 ==> (r matches Ok(mt) && mt.vertices@.len() == 0 && mt.bbox
                == zero_bbox()),
    {
        let base: [i64; 16] = match transform {
            Some(t) => *t,
            None => mat4_identity(),
        };
        let chars = chars_of(text);
        let mut verts: Vec<FixedVec3> = Vec::new();
        let mut bbox = BoundingBox::empty();
        let mut acc: i64 = 0;
        let mut i: usize = 0;
        while i < chars.len()
            invariant
                self.wf(),
                self.same_font_config(old(self)),
                self.indexed_cache@ == old(self).indexed_cache@,
                !old(self).use_cache ==> self.cache@ == old(self).cache@,
                mat4_in_range(base@),
                i <= chars@.len(),
                chars@ == text@,
                chars@.len() <= 0x10_0000,
                0 <= acc <= (i as int) * 0x1_0000_0000,
                old(self).use_cache ==> forall|j: int|
                    0 <= j < i ==> self.cache@.contains_key(
                        #[trigger] cache_key_spec(chars@[j], flat),
                    ),
                old(self).use_cache ==> verts@.len() == section_vertex_total(
                    self.cache@,
                    chars@.take(i as int),
                    flat,
                ),
                i == 0 ==> verts@.len() == 0 && bbox == zero_bbox(),
            decreases chars@.len() - i,
        {
            let c = chars[i];
            let h16 = self.font.height();
            if h16 < 1 {
                return Err(MeshTextError::Outline(GlyphOutlineError));
            }
            let gid = self.glyph_id_of_char(c);
            let adv_units: u16 = match self.font.glyph_hor_advance(gid) {
                Some(a) => a,
                None => 0,
            };
            let tm = mat4_translated(&base, acc);
            let ghost pre_cache = self.cache@;
            let g = match self.glyph_with_transform(c, flat, &tm) {
                Ok(g) => g,
                Err(e) => {
                    return Err(e);
                },
            };
            let (mut gverts, gbbox) = g;
            let ghost glen = gverts@.len() as int;
            if i == 0 {
                bbox = gbbox;
            } else {
                bbox = bbox.combine(&gbbox);
            }
            verts.append(&mut gverts);
            proof {
                if old(self).use_cache {
                    let t = chars@.take(i as int);
                    assert(chars@.take(i as int + 1).drop_last() =~= t);
                    assert(chars@.take(i as int + 1).last() == chars@[i as int]);
                    assert forall|j: int| 0 <= j < t.len() implies {
                        let k = cache_key_spec(#[trigger] t[j], flat);
                        pre_cache.contains_key(k) && self.cache@.contains_key(k)
                            && pre_cache[k].vertices@ == self.cache@[k].vertices@
                    } by {
                        if pre_cache.contains_key(cache_key_spec(chars@[i as int], flat)) {
                        } else {
                        }
                    }
                    lemma_section_vertex_total_stable(pre_cache, self.cache@, t, flat);
                }
            }
            let adv = advance_of(adv_units, h16 as i64);
            acc = acc + adv;
            i = i + 1;
        }
        proof {
            assert(chars@.take(chars@.len() as int) =~= chars@);
        }
        let buffer = flatten_verts3(&verts);
        Ok(MeshText { bbox, vertices: buffer })
    }

    /// Generates the two-dimensional mesh of a text section, with two
    /// values per vertex.
    pub fn generate_text_section_2d(&mut self, text: &str, transform: Option<&[i64; 9]>) -> (r:
        Result<MeshText, MeshTextError>)
        requires
            old(self).wf(),
            text@.len() <= 0x10_0000,
            transform matches Some(t) ==> mat3_in_range(t@),
        ensures
            final(self).wf(),
            final(self).same_font_config(old(self)),
            final(self).indexed_cache@ == old(self).indexed_cache@,
            !old(self).use_cache ==> final(self).cache@ == old(self).cache@,
            r matches Ok(mt) ==> mt.vertices@.len() % 2 == 0,
            old(self).use_cache && r is Ok ==> forall|i: int|
                0 <= i < text@.len() ==> final(self).cache@.contains_key(
                    #[trigger] cache_key_spec(text@[i], true),
                ),
            old(self).use_cache && r is Ok ==> r->Ok_0.vertices@.len() == 2
                * section_vertex_total(final(self).cache@, text@, true),
            text@.len() == 0 ==> (r matches Ok(mt) && mt.vertices@.len() == 0 && mt.bbox
                == zero_bbox()),
    {
        let base: [i64; 9] = match transform {
            Some(t) => *t,
            None => mat3_identity(),
        };
        let chars = chars_of(text);
        let mut verts: Vec<FixedVec3> = Vec::new();
        let mut bbox = BoundingBox::empty();
        let mut acc: i64 = 0;
        let mut i: usize = 0;
        while i < chars.len()
            invariant
                self.wf(),
                self.same_font_config(old(self)),
                self.indexed_cache@ == old(self).indexed_cache@,
                !old(self).use_cache ==> self.cache@ == old(self).cache@,
                mat3_in_range(base@),
                i <= chars@.len(),
                chars@ == text@,
                chars@.len() <= 0x10_0000,
                0 <= acc <= (i as int) * 0x1_0000_0000,
                old(self).use_cache ==> forall|j: int|
                    0 <= j < i ==> self.cache@.contains_key(
                        #[trigger] cache_key_spec(chars@[j], true),
                    ),
                old(self).use_cache ==> verts@.len() == section_vertex_total(
                    self.cache@,
                    chars@.take(i as int),
                    true,
                ),
                i == 0 ==> verts@.len() == 0 && bbox == zero_bbox(),
            decreases chars@.len() - i,
        {
            let c = chars[i];
            let h16 = self.font.height();
            if h16 < 1 {
                return Err(MeshTextError::Outline(GlyphOutlineError));
            }
            let gid = self.glyph_id_of_char(c);
            let adv_units: u16 = match self.font.glyph_hor_advance(gid) {
                Some(a) => a,
                None => 0,
            };
            let tm = mat3_translated(&base, acc);
            let ghost pre_cache = self.cache@;
            let g = match self.glyph_with_transform_2d(c, &tm) {
                Ok(g) => g,
                Err(e) => {
                    return Err(e);
                },
            };
            let (mut gverts, gbbox) = g;
            if i == 0 {
                bbox = gbbox;
            } else {
                bbox = bbox.combine(&gbbox);
            }
            verts.append(&mut gverts);
            proof {
                if old(self).use_cache {
                    let t = chars@.take(i as int);
                    assert(chars@.take(i as int + 1).drop_last() =~= t);
                    assert(chars@.take(i as int + 1).last() == chars@[i as int]);
                    assert forall|j: int| 0 <= j < t.len() implies {
                        let k = cache_key_spec(#[trigger] t[j], true);
                        pre_cache.contains_key(k) && self.cache@.contains_key(k)
                            && pre_cache[k].vertices@ == self.cache@[k].vertices@
                    } by {
                        if pre_cache.contains_key(cache_key_spec(chars@[i as int], true)) {
                        } else {
                        }
                    }
                    lemma_section_vertex_total_stable(pre_cache, self.cache@, t, true);
                }
            }
            let adv = advance_of(adv_units, h16 as i64);
            acc = acc + adv;
            i = i + 1;
        }
        proof {
            assert(chars@.take(chars@.len() as int) =~= chars@);
        }
        let buffer = flatten_verts2(&verts);
        Ok(MeshText { bbox, vertices: buffer })
    }

    /// Generates the indexed mesh of a text section. Before a glyph's
    /// indices are appended they are rebased by the running offset,
    /// which then moves past the largest index the glyph contributed;
    /// a glyph without indices leaves the offset untouched. Every
    /// index of the result addresses a vertex triple.
    pub fn generate_text_section_indexed(
        &mut self,
        text: &str,
        flat: bool,
        transform: Option<&[i64; 16]>,
    ) -> (r: Result<IndexedMeshText, MeshTextError>)
        requires
            old(self).wf(),
            text@.len() <= 0x10_0000,
            transform matches Some(t) ==> mat4_in_range(t@),
        ensures
            final(self).wf(),
            final(self).same_font_config(old(self)),
            final(self).cache@ == old(self).cache@,
            !old(self).use_cache ==> final(self).indexed_cache@ == old(self).indexed_cache@,
            r matches Ok(mt) ==> mt.vertices@.len() % 3 == 0 && forall|j: int|
                0 <= j < mt.indices@.len() ==> 3 * (#[trigger] mt.indices@[j]) < mt.vertices@.len(),
            old(self).use_cache && r is Ok ==> forall|i: int|
                0 <= i < text@.len() ==> final(self).indexed_cache@.contains_key(
                    #[trigger] cache_key_spec(text@[i], flat),
                ),
            old(self).use_cache && r is Ok ==> r->Ok_0.indices@.map_values(|x: u32| x as int)
                == section_index_layout(final(self).indexed_cache@, text@, flat).0,
            text@.len() == 0 ==> (r matches Ok(mt) && mt.vertices@.len() == 0 && mt.indices@.len()
                == 0 && mt.bbox == zero_bbox()),
    {
        let base: [i64; 16] = match transform {
            Some(t) => *t,
            None => mat4_identity(),
        };
        let chars = chars_of(text);
        let mut verts: Vec<FixedVec3> = Vec::new();
        let mut indices: Vec<u32> = Vec::new();
        let mut bbox = BoundingBox::empty();
        let mut acc: i64 = 0;
        let mut offset: u32 = 0;
        proof {
            assert(chars@.take(0) =~= Seq::<char>::empty());
            assert(indices@.map_values(|x: u32| x as int) =~= Seq::<int>::empty());
        }
        let mut i: usize = 0;
        while i < chars.len()
            invariant
                self.wf(),
                self.same_font_config(old(self)),
                self.cache@ == old(self).cache@,
                !old(self).use_cache ==> self.indexed_cache@ == old(self).indexed_cache@,
                mat4_in_range(base@),
                i <= chars@.len(),
                chars@ == text@,
                chars@.len() <= 0x10_0000,
                0 <= acc <= (i as int) * 0x1_0000_0000,
                old(self).use_cache ==> forall|j: int|
                    0 <= j < i ==> self.indexed_cache@.contains_key(
                        #[trigger] cache_key_spec(chars@[j], flat),
                    ),
                old(self).use_cache ==> ({
                    let lay = section_index_layout(
                        self.indexed_cache@,
                        chars@.take(i as int),
                        flat,
                    );
                    &&& indices@.map_values(|x: u32| x as int) == lay.0
                    &&& offset as int == lay.1
                }),
                offset as int <= verts@.len(),
                forall|j: int| 0 <= j < indices@.len() ==> (#[trigger] indices@[j]) < verts@.len(),
                i == 0 ==> verts@.len() == 0 && indices@.len() == 0 && bbox == zero_bbox(),
            decreases chars@.len() - i,
        {
            let c = chars[i];
            let h16 = self.font.height();
            if h16 < 1 {
                return Err(MeshTextError::Outline(GlyphOutlineError));
            }
            let gid = self.glyph_id_of_char(c);
            let adv_units: u16 = match self.font.glyph_hor_advance(gid) {
                Some(a) => a,
                None => 0,
            };
            let tm = mat4_translated(&base, acc);
            let ghost pre_map = self.indexed_cache@;
            let ghost off0 = offset as int;
            let ghost idx0 = indices@;
            let g = match self.glyph_with_transform_indexed(c, flat, &tm) {
                Ok(g) => g,
                Err(e) => {
                    return Err(e);
                },
            };
            let (mut gidx, mut gverts, gbbox) = g;
            let ghost gidx0 = gidx@;
            match rebase_indices(&mut gidx, offset) {
                Ok(()) => {},
                Err(e) => {
                    return Err(e);
                },
            }
            let ghost gidxr = gidx@;
            let mx = max_index(&gidx);
            let new_off: u32 = match mx {
                Some(m) => {
                    if m == u32::MAX {
                        return Err(MeshTextError::Vertex(VertexError));
                    }
                    m + 1
                },
                None => offset,
            };
            if i == 0 {
                bbox = gbbox;
            } else {
                bbox = bbox.combine(&gbbox);
            }
            indices.append(&mut gidx);
            verts.append(&mut gverts);
            proof {
                if old(self).use_cache {
                    let t = chars@.take(i as int);
                    let t2 = chars@.take(i as int + 1);
                    assert(t2.drop_last() =~= t);
                    assert(t2.last() == chars@[i as int]);
                    assert forall|j: int| 0 <= j < t.len() implies {
                        let k = cache_key_spec(#[trigger] t[j], flat);
                        pre_map.contains_key(k) && self.indexed_cache@.contains_key(k)
                            && pre_map[k].indices@ == self.indexed_cache@[k].indices@
                    } by {
                        if pre_map.contains_key(cache_key_spec(chars@[i as int], flat)) {
                        } else {
                        }
                    }
                    lemma_section_index_layout_stable(pre_map, self.indexed_cache@, t, flat);
                    let lay = section_index_layout(self.indexed_cache@, t, flat);
                    let key = cache_key_spec(chars@[i as int], flat);
                    let entry = self.indexed_cache@[key];
                    let blk = entry.indices@.map_values(|x: u32| x + lay.1);
                    assert(gidxr.map_values(|x: u32| x as int) =~= blk);
                    match mx {
                        Some(m) => {
                            assert forall|j: int| 0 <= j < blk.len() implies #[trigger] blk[j]
                                <= m as int by {
                                assert(blk[j] == gidxr[j] as int);
                            }
                            let w = choose|j: int| 0 <= j < gidxr.len() && gidxr[j] == m;
                            assert(blk[w] == m as int);
                            lemma_seq_max_int_unique(blk, m as int);
                        },
                        None => {},
                    }
                    assert(indices@.map_values(|x: u32| x as int) =~= lay.0 + blk);
                }
            }
            offset = new_off;
            acc = acc + advance_of(adv_units, h16 as i64);
            i = i + 1;
        }
        proof {
            assert(chars@.take(chars@.len() as int) =~= chars@);
        }
        let buffer = flatten_verts3(&verts);
        proof {
            assert(forall|j: int|
                0 <= j < indices@.len() ==> 3 * (#[trigger] indices@[j]) < flatten3(
                    verts@,
                ).len());
        }
        Ok(IndexedMeshText { bbox, indices, vertices: buffer })
    }

    /// Generates the two-dimensional indexed mesh of a text section,
    /// with two values per vertex.
    pub fn generate_text_section_indexed_2d(
        &mut self,
        text: &str,
        transform: Option<&[i64; 9]>,
    ) -> (r: Result<IndexedMeshText, MeshTextError>)
        requires
            old(self).wf(),
            text@.len() <= 0x10_0000,
            transform matches Some(t) ==> mat3_in_range(t@),
        ensures
            final(self).wf(),
            final(self).same_font_config(old(self)),
            final(self).cache@ == old(self).cache@,
            !old(self).use_cache ==> final(self).indexed_cache@ == old(self).indexed_cache@,
            r matches Ok(mt) ==> mt.vertices@.len() % 2 == 0 && forall|j: int|
                0 <= j < mt.indices@.len() ==> 2 * (#[trigger] mt.indices@[j]) < mt.vertices@.len(),
            old(self).use_cache && r is Ok ==> forall|i: int|
                0 <= i < text@.len() ==> final(self).indexed_cache@.contains_key(
                    #[trigger] cache_key_spec(text@[i], true),
                ),
            old(self).use_cache && r is Ok ==> r->Ok_0.indices@.map_values(|x: u32| x as int)
                == section_index_layout(final(self).indexed_cache@, text@, true).0,
            text@.len() == 0 ==> (r matches Ok(mt) && mt.vertices@.len() == 0 && mt.indices@.len()
                == 0 && mt.bbox == zero_bbox()),
    {
        let base: [i64; 9] = match transform {
            Some(t) => *t,
            None => mat3_identity(),
        };
        let chars = chars_of(text);
        let mut verts: Vec<FixedVec3> = Vec::new();
        let mut indices: Vec<u32> = Vec::new();
        let mut bbox = BoundingBox::empty();
        let mut acc: i64 = 0;
        let mut offset: u32 = 0;
        proof {
            assert(chars@.take(0) =~= Seq::<char>::empty());
            assert(indices@.map_values(|x: u32| x as int) =~= Seq::<int>::empty());
        }
        let mut i: usize = 0;
        while i < chars.len()
            invariant
                self.wf(),
                self.same_font_config(old(self)),
                self.cache@ == old(self).cache@,
                !old(self).use_cache ==> self.indexed_cache@ == old(self).indexed_cache@,
                mat3_in_range(base@),
                i <= chars@.len(),
                chars@ == text@,
                chars@.len() <= 0x10_0000,
                0 <= acc <= (i as int) * 0x1_0000_0000,
                old(self).use_cache ==> forall|j: int|
                    0 <= j < i ==> self.indexed_cache@.contains_key(
                        #[trigger] cache_key_spec(chars@[j], true),
                    ),
                old(self).use_cache ==> ({
                    let lay = section_index_layout(
                        self.indexed_cache@,
                        chars@.take(i as int),
                        true,
                    );
                    &&& indices@.map_values(|x: u32| x as int) == lay.0
                    &&& offset as int == lay.1
                }),
                offset as int <= verts@.len(),
                forall|j: int| 0 <= j < indices@.len() ==> (#[trigger] indices@[j]) < verts@.len(),
                i == 0 ==> verts@.len() == 0 && indices@.len() == 0 && bbox == zero_bbox(),
            decreases chars@.len() - i,
        {
            let c = chars[i];
            let h16 = self.font.height();
            if h16 < 1 {
                return Err(MeshTextError::Outline(GlyphOutlineError));
            }
            let gid = self.glyph_id_of_char(c);
            let adv_units: u16 = match self.font.glyph_hor_advance(gid) {
                Some(a) => a,
                None => 0,
            };
            let tm = mat3_translated(&base, acc);
            let ghost pre_map = self.indexed_cache@;
            let g = match self.glyph_with_transform_indexed_2d(c, &tm) {
                Ok(g) => g,
                Err(e) => {
                    return Err(e);
                },
            };
            let (mut gidx, mut gverts, gbbox) = g;
            let ghost gidx0 = gidx@;
            match rebase_indices(&mut gidx, offset) {
                Ok(()) => {},
                Err(e) => {
                    return Err(e);
                },
            }
            let ghost gidxr = gidx@;
            let mx = max_index(&gidx);
            let new_off: u32 = match mx {
                Some(m) => {
                    if m == u32::MAX {
                        return Err(MeshTextError::Vertex(VertexError));
                    }
                    m + 1
                },
                None => offset,
            };
            if i == 0 {
                bbox = gbbox;
            } else {
                bbox = bbox.combine(&gbbox);
            }
            indices.append(&mut gidx);
            verts.append(&mut gverts);
            proof {
                if old(self).use_cache {
                    let t = chars@.take(i as int);
                    let t2 = chars@.take(i as int + 1);
                    assert(t2.drop_last() =~= t);
                    assert(t2.last() == chars@[i as int]);
                    assert forall|j: int| 0 <= j < t.len() implies {
                        let k = cache_key_spec(#[trigger] t[j], true);
                        pre_map.contains_key(k) && self.indexed_cache@.contains_key(k)
                            && pre_map[k].indices@ == self.indexed_cache@[k].indices@
                    } by {
                        if pre_map.contains_key(cache_key_spec(chars@[i as int], true)) {
                        } else {
                        }
                    }
                    lemma_section_index_layout_stable(pre_map, self.indexed_cache@, t, true);
                    let lay = section_index_layout(self.indexed_cache@, t, true);
                    let key = cache_key_spec(chars@[i as int], true);
                    let entry = self.indexed_cache@[key];
                    let blk = entry.indices@.map_values(|x: u32| x + lay.1);
                    assert(gidxr.map_values(|x: u32| x as int) =~= blk);
                    match mx {
                        Some(m) => {
                            assert forall|j: int| 0 <= j < blk.len() implies #[trigger] blk[j]
                                <= m as int by {
                                assert(blk[j] == gidxr[j] as int);
                            }
                            let w = choose|j: int| 0 <= j < gidxr.len() && gidxr[j] == m;
                            assert(blk[w] == m as int);
                            lemma_seq_max_int_unique(blk, m as int);
                        },
                        None => {},
                    }
                    assert(indices@.map_values(|x: u32| x as int) =~= lay.0 + blk);
                }
            }
            offset = new_off;
            acc = acc + advance_of(adv_units, h16 as i64);
            i = i + 1;
        }
        proof {
            assert(chars@.take(chars@.len() as int) =~= chars@);
        }
        let buffer = flatten_verts2(&verts);
        proof {
            assert(forall|j: int|
                0 <= j < indices@.len() ==> 2 * (#[trigger] indices@[j]) < flatten2(
                    verts@,
                ).len());
        }
        Ok(IndexedMeshText { bbox, indices, vertices: buffer })
    }

    /// Inserts a custom, precomputed mesh into the cache under the
    /// given glyph and variant, overwriting any existing entry. A
    /// flat mesh supplies two values per vertex, any other mesh
    /// three. Whether the indexed or the non-indexed cache is filled
    /// follows from whether the mesh carries an index buffer.
    pub fn precache_custom_glyph<M: TriangleMesh>(
        &mut self,
        glyph: char,
        flat: bool,
        mesh: &M,
    ) -> (r: Result<(), MeshTextError>)
        requires
            old(self).wf(),
            forall|i: int|
                0 <= i < mesh.spec_vertices().len() ==> -COORD_LIMIT
                    <= #[trigger] mesh.spec_vertices()[i] <= COORD_LIMIT,
            vec3_apply_in(mesh.spec_bbox().min),
            vec3_apply_in(mesh.spec_bbox().max),
            flat ==> mesh.spec_bbox().min.z == 0 && mesh.spec_bbox().max.z == 0,
            mesh.spec_indices() is None ==> (if flat {
                mesh.spec_vertices().len() as int / 2
            } else {
                mesh.spec_vertices().len() as int / 3
            }) % 3 == 0,
            mesh.spec_indices() matches Some(s) ==> s.len() % 3 == 0,
            mesh.spec_indices() matches Some(s) ==> forall|i: int|
                0 <= i < s.len() ==> (flat ==> (#[trigger] s[i]) < mesh.spec_vertices().len() as int
                    / 2) && (!flat ==> s[i] < mesh.spec_vertices().len() as int / 3),
        ensures
            final(self).wf(),
            final(self).same_font_config(old(self)),
            r is Ok,
            mesh.spec_indices() is None ==> {
                let key = cache_key_spec(glyph, flat);
                &&& final(self).indexed_cache@ == old(self).indexed_cache@
                &&& final(self).cache@.contains_key(key)
                &&& final(self).cache@[key].vertices@ == (if flat {
                    pairs_to_verts_spec(mesh.spec_vertices())
                } else {
                    triples_to_verts_spec(mesh.spec_vertices())
                })
                &&& final(self).cache@[key].bbox == mesh.spec_bbox()
                &&& final(self).cache@.dom() == old(self).cache@.dom().insert(key)
                &&& forall|k: u64|
                    k != key && old(self).cache@.contains_key(k) ==> final(self).cache@.contains_key(k) && final(self).cache@[k] == old(self).cache@[k]
            },
            mesh.spec_indices() matches Some(s) ==> {
                let key = cache_key_spec(glyph, flat);
                &&& final(self).cache@ == old(self).cache@
                &&& final(self).indexed_cache@.contains_key(key)
                &&& final(self).indexed_cache@[key].indices@ == s
                &&& final(self).indexed_cache@[key].vertices@ == (if flat {
                    pairs_to_verts_spec(mesh.spec_vertices())
                } else {
                    triples_to_verts_spec(mesh.spec_vertices())
                })
                &&& final(self).indexed_cache@[key].bbox == mesh.spec_bbox()
                &&& final(self).indexed_cache@.dom() == old(self).indexed_cache@.dom().insert(
                    key,
                )
                &&& forall|k: u64|
                    k != key && old(self).indexed_cache@.contains_key(k) ==> final(self).indexed_cache@.contains_key(k) && final(self).indexed_cache@[k] == old(
                        self,
                    ).indexed_cache@[k]
            },
    {
        let key = cache_key(glyph, flat);
        let raw = mesh.vertices();
        let bbox = mesh.bbox();
        let verts = if flat {
            pairs_to_verts(&raw)
        } else {
            triples_to_verts(&raw)
        };
        match mesh.indices() {
            Some(idx) => {
                let entry = IndexedGlyphMesh { indices: idx, vertices: verts, bbox };
                self.indexed_cache.insert(key, entry);
                proof {
                    assert(final(self).indexed_cache@.dom() =~= old(
                        self,
                    ).indexed_cache@.dom().insert(cache_key_spec(glyph, flat)));
                }
                Ok(())
            },
            None => {
                let entry = GlyphMesh { vertices: verts, bbox };
                self.cache.insert(key, entry);
                proof {
                    assert(final(self).cache@.dom() =~= old(self).cache@.dom().insert(
                        cache_key_spec(glyph, flat),
                    ));
                }
                Ok(())
            },
        }
    }

    /// Fills the internal caches with the given characters: the
    /// non-indexed cache, the indexed cache, or both when no selector
    /// is given. The first failing glyph aborts the whole batch.
    pub fn precache_glyphs(
        &mut self,
        glyphs: &str,
        flat: bool,
        cache: Option<CacheType>,
    ) -> (r: Result<(), MeshTextError>)
        requires
            old(self).wf(),
        ensures
            final(self).wf(),
            final(self).same_font_config(old(self)),
            old(self).use_cache && r is Ok && !(cache matches Some(CacheType::Indexed))
                ==> forall|i: int|
                0 <= i < glyphs@.len() ==> final(self).cache@.contains_key(
                    #[trigger] cache_key_spec(glyphs@[i], flat),
                ),
            old(self).use_cache && r is Ok && !(cache matches Some(CacheType::Normal))
                ==> forall|i: int|
                0 <= i < glyphs@.len() ==> final(self).indexed_cache@.contains_key(
                    #[trigger] cache_key_spec(glyphs@[i], flat),
                ),
    {
        let chars = chars_of(glyphs);
        match cache {
            Some(CacheType::Normal) => {
                let mut i: usize = 0;
                while i < chars.len()
                    invariant
                        self.wf(),
                        self.same_font_config(old(self)),
                        i <= chars@.len(),
                        chars@ == glyphs@,
                        old(self).use_cache ==> forall|j: int|
                            0 <= j < i ==> self.cache@.contains_key(
                                #[trigger] cache_key_spec(chars@[j], flat),
                            ),
                    decreases chars@.len() - i,
                {
                    match self.generate_glyph(chars[i], flat, None) {
                        Ok(_) => {},
                        Err(e) => {
                            return Err(e);
                        },
                    }
                    i = i + 1;
                }
            },
            Some(CacheType::Indexed) => {
                let mut i: usize = 0;
                while i < chars.len()
                    invariant
                        self.wf(),
                        self.same_font_config(old(self)),
                        i <= chars@.len(),
                        chars@ == glyphs@,
                        old(self).use_cache ==> forall|j: int|
                            0 <= j < i ==> self.indexed_cache@.contains_key(
                                #[trigger] cache_key_spec(chars@[j], flat),
                            ),
                    decreases chars@.len() - i,
                {
                    match self.generate_glyph_indexed(chars[i], flat, None) {
                        Ok(_) => {},
                        Err(e) => {
                            return Err(e);
                        },
                    }
                    i = i + 1;
                }
            },
            None => {
                let mut i: usize = 0;
                while i < chars.len()
                    invariant
                        self.wf(),
                        self.same_font_config(old(self)),
                        i <= chars@.len(),
                        chars@ == glyphs@,
                        old(self).use_cache ==> forall|j: int|
                            0 <= j < i ==> self.cache@.contains_key(
                                #[trigger] cache_key_spec(chars@[j], flat),
                            ),
                    decreases chars@.len() - i,
                {
                    match self.generate_glyph(chars[i], flat, None) {
                        Ok(_) => {},
                        Err(e) => {
                            return Err(e);
                        },
                    }
                    i = i + 1;
                }
                let mut i: usize = 0;
                while i < chars.len()
                    invariant
                        self.wf(),
                        self.same_font_config(old(self)),
                        i <= chars@.len(),
                        chars@ == glyphs@,
                        forall|j: int|
                            0 <= j < chars@.len() ==> self.cache@.contains_key(
                                #[trigger] cache_key_spec(chars@[j], flat),
                            ) || !old(self).use_cache,
                        old(self).use_cache ==> forall|j: int|
                            0 <= j < i ==> self.indexed_cache@.contains_key(
                                #[trigger] cache_key_spec(chars@[j], flat),
                            ),
                    decreases chars@.len() - i,
                {
                    match self.generate_glyph_indexed(chars[i], flat, None) {
                        Ok(_) => {},
                        Err(e) => {
                            return Err(e);
                        },
                    }
                    i = i + 1;
                }
            },
        }
        Ok(())
    }
}

} // verus!
