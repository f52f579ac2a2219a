//! Assembly of triangulated contour data into flat or extruded
//! triangle geometry, in indexed or non-indexed form.

use crate::error::MeshTextError;
use crate::fixed::{FixedPoint, FixedVec3, COORD_LIMIT, HALF_DEPTH};
use crate::glyph_outline::GlyphOutline;
use crate::outline_builder::in_coord_range;
use crate::triangulation::{
    cdt_spec, contour_closed, edges_in_range, get_glyph_area_triangulation, outline_edge_seq,
};
use vstd::prelude::*;

verus! {

/// A 3D vertex made of a 2D point and a depth.
pub open spec fn fp3(p: FixedPoint, z: i64) -> FixedVec3 {
    FixedVec3 { x: p.x, y: p.y, z }
}

/// Whether every component of a vertex is within the coordinate range.
pub open spec fn vec3_in_range(v: FixedVec3) -> bool {
    &&& -COORD_LIMIT <= v.x <= COORD_LIMIT
    &&& -COORD_LIMIT <= v.y <= COORD_LIMIT
    &&& -COORD_LIMIT <= v.z <= COORD_LIMIT
}

/// Whether every point of a sequence is within the coordinate range.
pub open spec fn points_in_range(pts: Seq<FixedPoint>) -> bool {
    forall|i: int| 0 <= i < pts.len() ==> in_coord_range(#[trigger] pts[i])
}

/// Whether every index of a triangle sequence addresses a point.
pub open spec fn triangles_in_range(tris: Seq<(u32, u32, u32)>, n: int) -> bool {
    forall|i: int|
        0 <= i < tris.len() ==> (#[trigger] tris[i]).0 < n && tris[i].1 < n && tris[i].2 < n
}

/// The `i`-th vertex of a flat cap: three vertices per triangle, at
/// depth `z`, in the triangle's own winding.
pub open spec fn cap_vertex(tris: Seq<(u32, u32, u32)>, pts: Seq<FixedPoint>, i: int, z: i64) -> FixedVec3 {
    let t = tris[i / 3];
    let idx = if i % 3 == 0 {
        t.0
    } else if i % 3 == 1 {
        t.1
    } else {
        t.2
    };
    fp3(pts[idx as int], z)
}

/// The vertices of a flat, non-indexed mesh: each triangle emitted as
/// three vertices at depth zero.
pub open spec fn flat_mesh_verts(tris: Seq<(u32, u32, u32)>, pts: Seq<FixedPoint>) -> Seq<FixedVec3> {
    Seq::new((tris.len() * 3) as nat, |i: int| cap_vertex(tris, pts, i, 0))
}

/// The `i`-th cap vertex of an extruded mesh: each triangle emits its
/// front cap at positive depth in original winding, then its back cap
/// at negative depth with the first and third vertex swapped, so that
/// both faces point outward.
pub open spec fn extruded_cap_vertex(tris: Seq<(u32, u32, u32)>, pts: Seq<FixedPoint>, i: int) -> FixedVec3 {
    let t = tris[i / 6];
    let j = i % 6;
    if j == 0 {
        fp3(pts[t.0 as int], HALF_DEPTH)
    } else if j == 1 {
        fp3(pts[t.1 as int], HALF_DEPTH)
    } else if j == 2 {
        fp3(pts[t.2 as int], HALF_DEPTH)
    } else if j == 3 {
        fp3(pts[t.2 as int], (-HALF_DEPTH) as i64)
    } else if j == 4 {
        fp3(pts[t.1 as int], (-HALF_DEPTH) as i64)
    } else {
        fp3(pts[t.0 as int], (-HALF_DEPTH) as i64)
    }
}

/// The cap vertices of an extruded, non-indexed mesh.
pub open spec fn extruded_cap_verts(tris: Seq<(u32, u32, u32)>, pts: Seq<FixedPoint>) -> Seq<FixedVec3> {
    Seq::new((tris.len() * 6) as nat, |i: int| extruded_cap_vertex(tris, pts, i))
}

/// The `i`-th wall vertex: every contour edge is extruded into a
/// rectangular side wall split into two triangles.
pub open spec fn wall_vertex(edges: Seq<(u32, u32)>, pts: Seq<FixedPoint>, i: int) -> FixedVec3 {
    let e = edges[i / 6];
    let j = i % 6;
    if j == 0 {
        fp3(pts[e.0 as int], HALF_DEPTH)
    } else if j == 1 {
        fp3(pts[e.1 as int], HALF_DEPTH)
    } else if j == 2 {
        fp3(pts[e.0 as int], (-HALF_DEPTH) as i64)
    } else if j == 3 {
        fp3(pts[e.1 as int], (-HALF_DEPTH) as i64)
    } else if j == 4 {
        fp3(pts[e.0 as int], (-HALF_DEPTH) as i64)
    } else {
        fp3(pts[e.1 as int], HALF_DEPTH)
    }
}

/// The wall vertices of an extruded, non-indexed mesh.
pub open spec fn wall_verts(edges: Seq<(u32, u32)>, pts: Seq<FixedPoint>) -> Seq<FixedVec3> {
    Seq::new((edges.len() * 6) as nat, |i: int| wall_vertex(edges, pts, i))
}

/// The `i`-th index of an extruded, indexed mesh's caps: front caps
/// index the first copy of the point cloud, back caps the second copy
/// offset by `n`, with reversed winding.
pub open spec fn extruded_cap_index(tris: Seq<(u32, u32, u32)>, n: int, i: int) -> u32 {
    let t = tris[i / 6];
    let j = i % 6;
    if j == 0 {
        t.0
    } else if j == 1 {
        t.1
    } else if j == 2 {
        t.2
    } else if j == 3 {
        (t.2 + n) as u32
    } else if j == 4 {
        (t.1 + n) as u32
    } else {
        (t.0 + n) as u32
    }
}

/// The cap indices of an extruded, indexed mesh.
pub open spec fn extruded_cap_indices(tris: Seq<(u32, u32, u32)>, n: int) -> Seq<u32> {
    Seq::new((tris.len() * 6) as nat, |i: int| extruded_cap_index(tris, n, i))
}

/// The `i`-th wall index of an extruded, indexed mesh.
pub open spec fn wall_index(edges: Seq<(u32, u32)>, n: int, i: int) -> u32 {
    let e = edges[i / 6];
    let j = i % 6;
    if j == 0 {
        e.0
    } else if j == 1 {
        e.1
    } else if j == 2 {
        (e.1 + n) as u32
    } else if j == 3 {
        (e.0 + n) as u32
    } else if j == 4 {
        e.0
    } else {
        (e.1 + n) as u32
    }
}

/// The wall indices of an extruded, indexed mesh.
pub open spec fn wall_indices(edges: Seq<(u32, u32)>, n: int) -> Seq<u32> {
    Seq::new((edges.len() * 6) as nat, |i: int| wall_index(edges, n, i))
}

/// The indices of a flat, indexed mesh: the triangles as they are.
pub open spec fn flat_indices(tris: Seq<(u32, u32, u32)>) -> Seq<u32> {
    Seq::new((tris.len() * 3) as nat, |i: int| {
        let t = tris[i / 3];
        if i % 3 == 0 {
            t.0
        } else if i % 3 == 1 {
            t.1
        } else {
            t.2
        }
    })
}

/// The point cloud emitted once at the given depth.
pub open spec fn points_at_depth(pts: Seq<FixedPoint>, z: i64) -> Seq<FixedVec3> {
    Seq::new(pts.len(), |i: int| fp3(pts[i], z))
}

/// Emits each triangle as three vertices at depth zero, duplicating
/// shared vertices across triangles.
pub fn assemble_flat(tris: &Vec<(u32, u32, u32)>, pts: &Vec<FixedPoint>) -> (r: Vec<FixedVec3>)
    requires
        triangles_in_range(tris@, pts@.len() as int),
    ensures
        r@ == flat_mesh_verts(tris@, pts@),
{
    let mut out: Vec<FixedVec3> = Vec::new();
    let mut k: usize = 0;
    while k < tris.len()
        invariant
            k <= tris@.len(),
            triangles_in_range(tris@, pts@.len() as int),
            out@.len() == k * 3,
            forall|i: int| 0 <= i < k * 3 ==> out@[i] == cap_vertex(tris@, pts@, i, 0),
        decreases tris@.len() - k,
    {
        let t = tris[k];
        out.push(FixedVec3 { x: pts[t.0 as usize].x, y: pts[t.0 as usize].y, z: 0 });
        out.push(FixedVec3 { x: pts[t.1 as usize].x, y: pts[t.1 as usize].y, z: 0 });
        out.push(FixedVec3 { x: pts[t.2 as usize].x, y: pts[t.2 as usize].y, z: 0 });
        k = k + 1;
    }
    proof {
        assert(out@ =~= flat_mesh_verts(tris@, pts@));
    }
    out
}

/// Emits each triangle as a front cap at positive depth and a back cap
/// at negative depth with reversed winding, then a side wall of two
/// triangles per contour edge.
pub fn assemble_extruded(
    tris: &Vec<(u32, u32, u32)>,
    edges: &Vec<(u32, u32)>,
    pts: &Vec<FixedPoint>,
) -> (r: Vec<FixedVec3>)
    requires
        triangles_in_range(tris@, pts@.len() as int),
        crate::triangulation::edges_in_range(edges@, pts@.len() as int),
    ensures
        r@ == extruded_cap_verts(tris@, pts@) + wall_verts(edges@, pts@),
{
    let mut out: Vec<FixedVec3> = Vec::new();
    let mut k: usize = 0;
    while k < tris.len()
        invariant
            k <= tris@.len(),
            triangles_in_range(tris@, pts@.len() as int),
            out@.len() == k * 6,
            forall|i: int| 0 <= i < k * 6 ==> out@[i] == extruded_cap_vertex(tris@, pts@, i),
        decreases tris@.len() - k,
    {
        let t = tris[k];
        let a = pts[t.0 as usize];
        let b = pts[t.1 as usize];
        let c = pts[t.2 as usize];
        out.push(FixedVec3 { x: a.x, y: a.y, z: HALF_DEPTH });
        out.push(FixedVec3 { x: b.x, y: b.y, z: HALF_DEPTH });
        out.push(FixedVec3 { x: c.x, y: c.y, z: HALF_DEPTH });
        out.push(FixedVec3 { x: c.x, y: c.y, z: -HALF_DEPTH });
        out.push(FixedVec3 { x: b.x, y: b.y, z: -HALF_DEPTH });
        out.push(FixedVec3 { x: a.x, y: a.y, z: -HALF_DEPTH });
        k = k + 1;
    }
    let ghost caps = extruded_cap_verts(tris@, pts@);
    proof {
        assert(out@ =~= caps);
    }
    let mut k: usize = 0;
    while k < edges.len()
        invariant
            k <= edges@.len(),
            crate::triangulation::edges_in_range(edges@, pts@.len() as int),
            caps == extruded_cap_verts(tris@, pts@),
            out@.len() == caps.len() + k * 6,
            out@.take(caps.len() as int) == caps,
            forall|i: int|
                0 <= i < k * 6 ==> out@[caps.len() + i] == wall_vertex(edges@, pts@, i),
        decreases edges@.len() - k,
    {
        let e = edges[k];
        let a = pts[e.0 as usize];
        let b = pts[e.1 as usize];
        out.push(FixedVec3 { x: a.x, y: a.y, z: HALF_DEPTH });
        out.push(FixedVec3 { x: b.x, y: b.y, z: HALF_DEPTH });
        out.push(FixedVec3 { x: a.x, y: a.y, z: -HALF_DEPTH });
        out.push(FixedVec3 { x: b.x, y: b.y, z: -HALF_DEPTH });
        out.push(FixedVec3 { x: a.x, y: a.y, z: -HALF_DEPTH });
        out.push(FixedVec3 { x: b.x, y: b.y, z: HALF_DEPTH });
        proof {
            assert(out@.take(caps.len() as int) =~= caps);
        }
        k = k + 1;
    }
    proof {
        assert(out@ =~= extruded_cap_verts(tris@, pts@) + wall_verts(edges@, pts@));
    }
    out
}

/// Emits the point cloud once at the given depth.
fn emit_points_at_depth(out: &mut Vec<FixedVec3>, pts: &Vec<FixedPoint>, z: i64)
    ensures
        final(out)@ == old(out)@ + points_at_depth(pts@, z),
{
    let mut k: usize = 0;
    while k < pts.len()
        invariant
            k <= pts@.len(),
            out@.len() == old(out)@.len() + k,
            out@.take(old(out)@.len() as int) == old(out)@,
            forall|i: int| 0 <= i < k ==> out@[old(out)@.len() + i] == fp3(pts@[i], z),
        decreases pts@.len() - k,
    {
        let p = pts[k];
        out.push(FixedVec3 { x: p.x, y: p.y, z });
        proof {
            assert(out@.take(old(out)@.len() as int) =~= old(out)@);
        }
        k = k + 1;
    }
    proof {
        assert(final(out)@ =~= old(out)@ + points_at_depth(pts@, z));
    }
}

/// Emits the point cloud as the vertex buffer at depth zero and the
/// triangle indices as they are.
pub fn assemble_flat_indexed(tris: &Vec<(u32, u32, u32)>, pts: &Vec<FixedPoint>) -> (r: (
    Vec<FixedVec3>,
    Vec<u32>,
))
    requires
        triangles_in_range(tris@, pts@.len() as int),
    ensures
        r.0@ == points_at_depth(pts@, 0),
        r.1@ == flat_indices(tris@),
{
    let mut vertices: Vec<FixedVec3> = Vec::new();
    emit_points_at_depth(&mut vertices, pts, 0);
    let mut indices: Vec<u32> = Vec::new();
    let mut k: usize = 0;
    while k < tris.len()
        invariant
            k <= tris@.len(),
            indices@.len() == k * 3,
            forall|i: int| 0 <= i < k * 3 ==> indices@[i] == flat_indices(tris@)[i],
        decreases tris@.len() - k,
    {
        let t = tris[k];
        indices.push(t.0);
        indices.push(t.1);
        indices.push(t.2);
        k = k + 1;
    }
    proof {
        assert(indices@ =~= flat_indices(tris@));
    }
    (vertices, indices)
}

/// Emits the point cloud twice, once per cap, then cap indices with
/// the back cap offset by the flat point count and reversed, then two
/// wall triangles per contour edge.
pub fn assemble_extruded_indexed(
    tris: &Vec<(u32, u32, u32)>,
    edges: &Vec<(u32, u32)>,
    pts: &Vec<FixedPoint>,
) -> (r: (Vec<FixedVec3>, Vec<u32>))
    requires
        triangles_in_range(tris@, pts@.len() as int),
        crate::triangulation::edges_in_range(edges@, pts@.len() as int),
        pts@.len() <= 0x7FFF_FFFF,
    ensures
        r.0@ == points_at_depth(pts@, HALF_DEPTH) + points_at_depth(pts@, (-HALF_DEPTH) as i64),
        r.1@ == extruded_cap_indices(tris@, pts@.len() as int) + wall_indices(
            edges@,
            pts@.len() as int,
        ),
{
    let ghost n = pts@.len() as int;
    let mut vertices: Vec<FixedVec3> = Vec::new();
    emit_points_at_depth(&mut vertices, pts, HALF_DEPTH);
    emit_points_at_depth(&mut vertices, pts, -HALF_DEPTH);
    proof {
        assert(vertices@ =~= points_at_depth(pts@, HALF_DEPTH) + points_at_depth(
            pts@,
            (-HALF_DEPTH) as i64,
        ));
    }
    let flat_count: u32 = pts.len() as u32;
    let mut indices: Vec<u32> = Vec::new();
    let mut k: usize = 0;
    while k < tris.len()
        invariant
            k <= tris@.len(),
            triangles_in_range(tris@, n),
            n == pts@.len() as int,
            n <= 0x7FFF_FFFF,
            flat_count == n,
            indices@.len() == k * 6,
            forall|i: int| 0 <= i < k * 6 ==> indices@[i] == extruded_cap_index(tris@, n, i),
        decreases tris@.len() - k,
    {
        let t = tris[k];
        indices.push(t.0);
        indices.push(t.1);
        indices.push(t.2);
        indices.push(t.2 + flat_count);
        indices.push(t.1 + flat_count);
        indices.push(t.0 + flat_count);
        k = k + 1;
    }
    let ghost caps = extruded_cap_indices(tris@, n);
    proof {
        assert(indices@ =~= caps);
    }
    let mut k: usize = 0;
    while k < edges.len()
        invariant
            k <= edges@.len(),
            crate::triangulation::edges_in_range(edges@, n),
            n == pts@.len() as int,
            n <= 0x7FFF_FFFF,
            flat_count == n,
            caps == extruded_cap_indices(tris@, n),
            indices@.len() == caps.len() + k * 6,
            indices@.take(caps.len() as int) == caps,
            forall|i: int| 0 <= i < k * 6 ==> indices@[caps.len() + i] == wall_index(edges@, n, i),
        decreases edges@.len() - k,
    {
        let e = edges[k];
        indices.push(e.0);
        indices.push(e.1);
        indices.push(e.1 + flat_count);
        indices.push(e.0 + flat_count);
        indices.push(e.0);
        indices.push(e.1 + flat_count);
        proof {
            assert(indices@.take(caps.len() as int) =~= caps);
        }
        k = k + 1;
    }
    proof {
        assert(indices@ =~= extruded_cap_indices(tris@, n) + wall_indices(edges@, n));
    }
    (vertices, indices)
}

/// Generates an indexed triangle mesh from a discrete outline. Every
/// index is strictly below the vertex count, and an extruded mesh
/// holds exactly twice the flat point count as vertices.
pub fn raster_to_mesh_indexed(outline: &GlyphOutline, flat: bool) -> (r: Result<
    (Vec<FixedVec3>, Vec<u32>),
    MeshTextError,
>)
    requires
        points_in_range(outline.points@),
    ensures
        ({
            let dv = outline.contours@.map_values(|c: Vec<u32>| c@);
            let n = outline.points@.len() as int;
            let es = outline_edge_seq(dv);
            &&& (r is Ok <==> (forall|i: int|
                0 <= i < dv.len() ==> contour_closed(#[trigger] dv[i])) && edges_in_range(es, n)
                && cdt_spec(outline.points@, es) is Ok && (flat || n <= 0x7FFF_FFFF))
            &&& ((exists|i: int| 0 <= i < dv.len() && !contour_closed(#[trigger] dv[i]))
                ==> (r matches Err(MeshTextError::Triangulation(t)) && t.msg@ == "Open contour."@))
            &&& (r matches Ok(m) ==> {
                let ts = cdt_spec(outline.points@, es)->Ok_0;
                &&& (flat ==> m.0@ == points_at_depth(outline.points@, 0) && m.1@
                    == flat_indices(ts))
                &&& (!flat ==> m.0@ == points_at_depth(outline.points@, HALF_DEPTH)
                    + points_at_depth(outline.points@, (-HALF_DEPTH) as i64) && m.1@
                    == extruded_cap_indices(ts, n) + wall_indices(es, n))
                &&& m.1@.len() % 3 == 0
                &&& forall|i: int| 0 <= i < m.1@.len() ==> (#[trigger] m.1@[i]) < m.0@.len()
                &&& forall|i: int| 0 <= i < m.0@.len() ==> vec3_in_range(#[trigger] m.0@[i])
                &&& (!flat ==> m.0@.len() == 2 * outline.points@.len())
            })
        }),
{
    let te = match get_glyph_area_triangulation(outline) {
        Ok(te) => te,
        Err(e) => {
            return Err(e);
        },
    };
    let (triangles, edges) = te;
    if flat {
        let m = assemble_flat_indexed(&triangles, &outline.points);
        proof {
            assert(m.1@.len() % 3 == 0) by {
                assert(m.1@.len() == triangles@.len() * 3);
            }
        }
        Ok(m)
    } else {
        if outline.points.len() > 0x7FFF_FFFF {
            return Err(MeshTextError::Outline(crate::error::GlyphOutlineError));
        }
        let m = assemble_extruded_indexed(&triangles, &edges, &outline.points);
        proof {
            assert(m.1@.len() % 3 == 0) by {
                assert(m.1@.len() == triangles@.len() * 6 + edges@.len() * 6);
                assert((triangles@.len() * 6 + edges@.len() * 6) % 3 == 0) by (nonlinear_arith);
            }
        }
        Ok(m)
    }
}

/// Generates a non-indexed triangle mesh from a discrete outline:
/// flat at depth zero, or extruded with walls between the two caps.
pub fn raster_to_mesh(outline: &GlyphOutline, flat: bool) -> (r: Result<Vec<FixedVec3>, MeshTextError>)
    requires
        points_in_range(outline.points@),
    ensures
        ({
            let dv = outline.contours@.map_values(|c: Vec<u32>| c@);
            let n = outline.points@.len() as int;
            let es = outline_edge_seq(dv);
            &&& (r is Ok <==> (forall|i: int|
                0 <= i < dv.len() ==> contour_closed(#[trigger] dv[i])) && edges_in_range(es, n)
                && cdt_spec(outline.points@, es) is Ok)
            &&& ((exists|i: int| 0 <= i < dv.len() && !contour_closed(#[trigger] dv[i]))
                ==> (r matches Err(MeshTextError::Triangulation(t)) && t.msg@ == "Open contour."@))
            &&& (r matches Ok(vs) ==> {
                let ts = cdt_spec(outline.points@, es)->Ok_0;
                &&& (flat ==> vs@ == flat_mesh_verts(ts, outline.points@))
                &&& (!flat ==> vs@ == extruded_cap_verts(ts, outline.points@) + wall_verts(
                    es,
                    outline.points@,
                ))
                &&& vs@.len() % 3 == 0
                &&& forall|i: int| 0 <= i < vs@.len() ==> vec3_in_range(#[trigger] vs@[i])
                &&& (flat ==> forall|i: int| 0 <= i < vs@.len() ==> (#[trigger] vs@[i]).z == 0)
                &&& (!flat ==> forall|i: int|
                    0 <= i < vs@.len() ==> (#[trigger] vs@[i]).z == HALF_DEPTH || vs@[i].z
                        == -HALF_DEPTH)
            })
        }),
{
    let te = match get_glyph_area_triangulation(outline) {
        Ok(te) => te,
        Err(e) => {
            return Err(e);
        },
    };
    let (triangles, edges) = te;
    if flat {
        let vertices = assemble_flat(&triangles, &outline.points);
        proof {
            assert(vertices@.len() % 3 == 0) by {
                assert(vertices@.len() == triangles@.len() * 3);
            }
        }
        Ok(vertices)
    } else {
        let vertices = assemble_extruded(&triangles, &edges, &outline.points);
        proof {
            assert(vertices@.len() % 3 == 0) by {
                assert(vertices@.len() == triangles@.len() * 6 + edges@.len() * 6);
                assert((triangles@.len() * 6 + edges@.len() * 6) % 3 == 0) by (nonlinear_arith);
            }
        }
        Ok(vertices)
    }
}

} // verus!
