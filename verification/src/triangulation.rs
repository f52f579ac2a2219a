//! Contour validation, edge building, and the constrained Delaunay
//! triangulation of a glyph outline.

use crate::error::{GlyphOutlineError, GlyphTriangulationError, MeshTextError};
use crate::fixed::FixedPoint;
use crate::glyph_outline::GlyphOutline;
use ghx_constrained_delaunay::constrained_triangulation::{
    constrained_triangulation_from_2d_vertices, ConstrainedTriangulationConfiguration,
};
use ghx_constrained_delaunay::glam::{DVec2, I64Vec2};
use ghx_constrained_delaunay::types::Edge;
use vstd::prelude::*;

verus! {

/// The edges of one contour: one edge per consecutive pair of indices.
pub open spec fn contour_edge_seq(c: Seq<u32>) -> Seq<(u32, u32)> {
    if c.len() == 0 {
        Seq::empty()
    } else {
        Seq::new((c.len() - 1) as nat, |i: int| (c[i], c[i + 1]))
    }
}

/// All edges of an outline, contour by contour, in order.
pub open spec fn outline_edge_seq(contours: Seq<Seq<u32>>) -> Seq<(u32, u32)>
    decreases contours.len(),
{
    if contours.len() == 0 {
        Seq::empty()
    } else {
        outline_edge_seq(contours.drop_last()) + contour_edge_seq(contours.last())
    }
}

/// Whether a contour's edge list forms a cycle: a contour that yields
/// edges must end where it began. Contours too short to yield an edge
/// are vacuously closed.
pub open spec fn contour_closed(c: Seq<u32>) -> bool {
    c.len() < 2 || c[0] == c[c.len() - 1]
}

/// Whether both endpoints of every edge index an existing point.
pub open spec fn edges_in_range(edges: Seq<(u32, u32)>, n_points: int) -> bool {
    forall|i: int| 0 <= i < edges.len() ==> (#[trigger] edges[i]).0 < n_points && edges[i].1 < n_points
}

/// What the constrained Delaunay triangulation answers for a given
/// point cloud and edge set. The algorithm is a pure function of its
/// arguments — its hash sets serve membership tests only and never
/// order the output — so its result can be given a name that the
/// contracts downstream speak of exactly.
pub uninterp spec fn cdt_spec(points: Seq<FixedPoint>, edges: Seq<(u32, u32)>) -> Result<
    Seq<(u32, u32, u32)>,
    Seq<char>,
>;

/// Relies on `ghx_constrained_delaunay::constrained_triangulation::constrained_triangulation_from_2d_vertices`:
/// on success its `Triangulation::triangles` are index triples into the
/// vertices that were passed in, and on failure its `TriangulationError`
/// carries a diagnostic message. The call requires every constrained
/// edge to reference a vertex that exists. The result is [`cdt_spec`]
/// of the arguments.
#[verifier::external_body]
fn cdt_triangulate(points: &Vec<FixedPoint>, edges: &Vec<(u32, u32)>) -> (r: Result<
    Vec<(u32, u32, u32)>,
    String,
>)
    requires
        edges_in_range(edges@, points@.len() as int),
    ensures
        r matches Ok(ts) ==> (cdt_spec(points@, edges@) matches Ok(s) && ts@ == s),
        r matches Err(m) ==> (cdt_spec(points@, edges@) matches Err(s) && m@ == s),
        r matches Ok(ts) ==> forall|i: int|
            0 <= i < ts@.len() ==> (#[trigger] ts@[i]).0 < points@.len()
                && ts@[i].1 < points@.len() && ts@[i].2 < points@.len(),
{
    let vertices: Vec<DVec2> = points.iter().map(|p| I64Vec2::new(p.x, p.y).as_dvec2()).collect();
    let constraints: Vec<Edge> = edges.iter().map(|e| Edge::new(e.0, e.1)).collect();
    let config = ConstrainedTriangulationConfiguration::default();
    match constrained_triangulation_from_2d_vertices(&vertices, &constraints, config) {
        Ok(t) => Ok(t.triangles.iter().map(|t| (t[0], t[1], t[2])).collect()),
        Err(e) => Err(e.msg),
    }
}

/// Builds the edge list of an outline, verifying that each contour's
/// edges cycle back to their start, and failing with an open-contour
/// error otherwise.
pub fn build_edges(outline: &GlyphOutline) -> (r: Result<Vec<(u32, u32)>, MeshTextError>)
    ensures
        ({
            let dv = outline.contours@.map_values(|c: Vec<u32>| c@);
            &&& (r is Ok <==> forall|i: int| 0 <= i < dv.len() ==> contour_closed(#[trigger] dv[i]))
            &&& (r matches Ok(es) ==> es@ == outline_edge_seq(dv))
            &&& (r matches Err(e) ==> e matches MeshTextError::Triangulation(t)
                && t.msg@ == "Open contour."@)
        }),
{
    let ghost dv = outline.contours@.map_values(|c: Vec<u32>| c@);
    let mut edges: Vec<(u32, u32)> = Vec::new();
    let mut ci: usize = 0;
    while ci < outline.contours.len()
        invariant
            ci <= outline.contours@.len(),
            dv == outline.contours@.map_values(|c: Vec<u32>| c@),
            edges@ == outline_edge_seq(dv.take(ci as int)),
            forall|i: int| 0 <= i < ci ==> contour_closed(#[trigger] dv[i]),
        decreases outline.contours@.len() - ci,
    {
        let contour = &outline.contours[ci];
        let len = contour.len();
        let mut i: usize = 0;
        while i + 1 < len
            invariant
                len == contour@.len(),
                contour@ == dv[ci as int],
                ci < dv.len(),
                i <= if len == 0 { 0 } else { len - 1 },
                edges@ == outline_edge_seq(dv.take(ci as int)) + contour_edge_seq(
                    dv[ci as int],
                ).take(i as int),
            decreases len - i,
        {
            edges.push((contour[i], contour[i + 1]));
            proof {
                assert(edges@ =~= outline_edge_seq(dv.take(ci as int)) + contour_edge_seq(
                    dv[ci as int],
                ).take(i as int + 1));
            }
            i = i + 1;
        }
        if len >= 2 && contour[0] != contour[len - 1] {
            return Err(MeshTextError::Triangulation(GlyphTriangulationError {
                msg: "Open contour.".to_string(),
            }));
        }
        proof {
            assert(dv.take(ci as int + 1).drop_last() =~= dv.take(ci as int));
            assert(dv.take(ci as int + 1).last() == dv[ci as int]);
            assert(contour_edge_seq(dv[ci as int]).take(i as int) =~= contour_edge_seq(
                dv[ci as int],
            ));
            assert(edges@ =~= outline_edge_seq(dv.take(ci as int + 1)));
        }
        ci = ci + 1;
    }
    proof {
        assert(dv.take(dv.len() as int) =~= dv);
    }
    Ok(edges)
}

/// Checks that both endpoints of every edge index an existing point.
fn check_edges_in_range(edges: &Vec<(u32, u32)>, n_points: usize) -> (ok: bool)
    ensures
        ok == edges_in_range(edges@, n_points as int),
{
    let mut i: usize = 0;
    while i < edges.len()
        invariant
            i <= edges@.len(),
            forall|j: int| 0 <= j < i ==> (#[trigger] edges@[j]).0 < n_points && edges@[j].1
                < n_points,
        decreases edges@.len() - i,
    {
        let e = edges[i];
        if e.0 as usize >= n_points || e.1 as usize >= n_points {
            return false;
        }
        i = i + 1;
    }
    true
}

/// Produces the triangle index triples over an outline's point cloud
/// together with the full contour edge list. An open contour yields an
/// open-contour error; a contour referencing a missing point yields an
/// outline error; a rejection by the triangulation is wrapped with its
/// diagnostic.
pub fn get_glyph_area_triangulation(outline: &GlyphOutline) -> (r: Result<
    (Vec<(u32, u32, u32)>, Vec<(u32, u32)>),
    MeshTextError,
>)
    ensures
        ({
            let dv = outline.contours@.map_values(|c: Vec<u32>| c@);
            let n = outline.points@.len() as int;
            let es = outline_edge_seq(dv);
            &&& (r is Ok <==> (forall|i: int|
                0 <= i < dv.len() ==> contour_closed(#[trigger] dv[i])) && edges_in_range(es, n)
                && cdt_spec(outline.points@, es) is Ok)
            &&& ((exists|i: int| 0 <= i < dv.len() && !contour_closed(#[trigger] dv[i]))
                ==> (r matches Err(MeshTextError::Triangulation(t)) && t.msg@ == "Open contour."@))
            &&& ((forall|i: int| 0 <= i < dv.len() ==> contour_closed(#[trigger] dv[i]))
                && !edges_in_range(es, n) ==> (r matches Err(MeshTextError::Outline(
                GlyphOutlineError,
            ))))
            &&& ((forall|i: int| 0 <= i < dv.len() ==> contour_closed(#[trigger] dv[i]))
                && edges_in_range(es, n) && cdt_spec(outline.points@, es) is Err ==> (r matches Err(
                MeshTextError::Triangulation(t),
            ) && t.msg@ == cdt_spec(outline.points@, es)->Err_0))
            &&& (r matches Ok(te) ==> {
                &&& te.1@ == es
                &&& edges_in_range(te.1@, n)
                &&& te.0@ == cdt_spec(outline.points@, es)->Ok_0
                &&& forall|i: int| 0 <= i < dv.len() ==> contour_closed(#[trigger] dv[i])
                &&& forall|i: int|
                    0 <= i < te.0@.len() ==> (#[trigger] te.0@[i]).0 < n && te.0@[i].1 < n
                        && te.0@[i].2 < n
            })
        }),
{
    let edges = match build_edges(outline) {
        Ok(es) => es,
        Err(e) => {
            return Err(e);
        },
    };
    if !check_edges_in_range(&edges, outline.points.len()) {
        return Err(MeshTextError::Outline(GlyphOutlineError));
    }
    match cdt_triangulate(&outline.points, &edges) {
        Ok(triangles) => Ok((triangles, edges)),
        Err(msg) => Err(MeshTextError::Triangulation(GlyphTriangulationError { msg })),
    }
}

} // verus!
