//! The pure per-glyph pipeline: from the font's outline answer to the
//! cached mesh data of one glyph.

use crate::bounding_box::{zero_bbox, BoundingBox};
use crate::error::MeshTextError;
use crate::fixed::{div_trunc, FixedVec3, COORD_LIMIT, HALF_DEPTH, SCALE};
use crate::font_face::GlyphRect;
use crate::glyph_outline::GlyphOutline;
use crate::outline_builder::{
    apply_event_spec, built_outline_spec, fold_events_spec, initial_builder_state,
    lemma_fold_events_none_extends, BuilderState, GlyphOutlineBuilder, OutlineEvent,
};
use crate::quality_settings::QualitySettings;
use crate::raster_to_mesh::{
    extruded_cap_indices, extruded_cap_verts, flat_indices, flat_mesh_verts, points_at_depth,
    points_in_range, raster_to_mesh, raster_to_mesh_indexed, vec3_in_range, wall_indices,
    wall_verts,
};
use crate::triangulation::{cdt_spec, contour_closed, edges_in_range, outline_edge_seq};
use crate::transform::vec3_apply_in;
use vstd::prelude::*;

verus! {

/// The non-indexed mesh data cached for one glyph.
pub struct GlyphMesh {
    /// The vertices of the glyph's triangles.
    pub vertices: Vec<FixedVec3>,
    /// The glyph's bounding box.
    pub bbox: BoundingBox,
}

/// The indexed mesh data cached for one glyph.
pub struct IndexedGlyphMesh {
    /// The triangle indices into the vertex buffer.
    pub indices: Vec<u32>,
    /// The deduplicated vertices.
    pub vertices: Vec<FixedVec3>,
    /// The glyph's bounding box.
    pub bbox: BoundingBox,
}

/// Whether a cached non-indexed entry is well formed: vertices and
/// box corners in range, a whole number of triangles, and a flat
/// entry entirely without depth.
pub open spec fn glyph_mesh_wf(m: GlyphMesh, flat: bool) -> bool {
    &&& forall|i: int| 0 <= i < m.vertices@.len() ==> vec3_in_range(#[trigger] m.vertices@[i])
    &&& m.vertices@.len() % 3 == 0
    &&& (flat ==> forall|i: int| 0 <= i < m.vertices@.len() ==> (#[trigger] m.vertices@[i]).z
        == 0)
    &&& (flat ==> m.bbox.min.z == 0 && m.bbox.max.z == 0)
    &&& vec3_apply_in(m.bbox.min)
    &&& vec3_apply_in(m.bbox.max)
}

/// Whether a cached indexed entry is well formed: additionally, every
/// index addresses a vertex and the indices form whole triangles.
pub open spec fn indexed_glyph_mesh_wf(m: IndexedGlyphMesh, flat: bool) -> bool {
    &&& forall|i: int| 0 <= i < m.vertices@.len() ==> vec3_in_range(#[trigger] m.vertices@[i])
    &&& (flat ==> forall|i: int| 0 <= i < m.vertices@.len() ==> (#[trigger] m.vertices@[i]).z
        == 0)
    &&& forall|i: int| 0 <= i < m.indices@.len() ==> (#[trigger] m.indices@[i]) < m.vertices@.len()
    &&& m.indices@.len() % 3 == 0
    &&& (flat ==> m.bbox.min.z == 0 && m.bbox.max.z == 0)
    &&& vec3_apply_in(m.bbox.min)
    &&& vec3_apply_in(m.bbox.max)
}

/// The normalized form of a raw font-unit rectangle coordinate.
pub open spec fn norm_rect_coord(c: int, h: int) -> int {
    div_trunc(c * SCALE, h)
}

/// The bounding box of a glyph computed from the tight rectangle the
/// font reports, normalized by the line height, with the depth of the
/// extrusion when the mesh is not flat.
pub open spec fn rect_bbox_spec(rect: GlyphRect, h: int, flat: bool) -> BoundingBox {
    BoundingBox {
        max: FixedVec3 {
            x: norm_rect_coord(rect.x_max as int, h) as i64,
            y: norm_rect_coord(rect.y_max as int, h) as i64,
            z: if flat {
                0
            } else {
                HALF_DEPTH
            },
        },
        min: FixedVec3 {
            x: norm_rect_coord(rect.x_min as int, h) as i64,
            y: norm_rect_coord(rect.y_min as int, h) as i64,
            z: if flat {
                0
            } else {
                (-HALF_DEPTH) as i64
            },
        },
    }
}

/// The depth law of generated glyph boxes: a flat glyph's bounding
/// box has a depth extent of exactly zero, and an extruded glyph's
/// bounding box spans exactly one font-height unit of depth, from
/// negative to positive half depth.
pub proof fn lemma_glyph_bbox_depth(rect: GlyphRect, h: int, flat: bool)
    requires
        1 <= h,
    ensures
        flat ==> rect_bbox_spec(rect, h, flat).max.z == 0 && rect_bbox_spec(rect, h, flat).min.z
            == 0,
        !flat ==> {
            &&& rect_bbox_spec(rect, h, flat).max.z == HALF_DEPTH
            &&& rect_bbox_spec(rect, h, flat).min.z == -HALF_DEPTH
            &&& rect_bbox_spec(rect, h, flat).max.z - rect_bbox_spec(rect, h, flat).min.z
                == SCALE
        },
{
}

/// Normalizes one rectangle coordinate.
fn norm_rect(c: i16, h: i64) -> (r: i64)
    requires
        1 <= h,
    ensures
        r == norm_rect_coord(c as int, h as int),
        -COORD_LIMIT <= r <= COORD_LIMIT,
{
    proof {
        crate::fixed::lemma_div_trunc_bounds(c as int * SCALE as int, h as int);
        assert(-COORD_LIMIT <= (c as int) * (SCALE as int) <= COORD_LIMIT) by (nonlinear_arith)
            requires
                -0x8000 <= c as int <= 0x7FFF,
        ;
    }
    crate::fixed::mul_div_fixed(c as i64, SCALE, h)
}

/// The bounding box of a glyph from the rectangle the font reported.
fn rect_bbox(rect: GlyphRect, h: i64, flat: bool) -> (r: BoundingBox)
    requires
        1 <= h,
    ensures
        r == rect_bbox_spec(rect, h as int, flat),
        vec3_apply_in(r.min),
        vec3_apply_in(r.max),
{
    let depth: i64 = if flat {
        0
    } else {
        HALF_DEPTH
    };
    let neg_depth: i64 = if flat {
        0
    } else {
        -HALF_DEPTH
    };
    BoundingBox {
        max: FixedVec3 { x: norm_rect(rect.x_max, h), y: norm_rect(rect.y_max, h), z: depth },
        min: FixedVec3 {
            x: norm_rect(rect.x_min, h),
            y: norm_rect(rect.y_min, h),
            z: neg_depth,
        },
    }
}

/// Whether a built outline passes contour validation and the
/// triangulation accepts it.
pub open spec fn outline_triangulates(s: BuilderState) -> bool {
    &&& forall|i: int| 0 <= i < s.contours.len() ==> contour_closed(#[trigger] s.contours[i])
    &&& edges_in_range(outline_edge_seq(s.contours), s.points.len() as int)
    &&& cdt_spec(s.points, outline_edge_seq(s.contours)) is Ok
}

/// Feeds a glyph's curve events through the outline builder.
fn build_outline(
    events: &Vec<OutlineEvent>,
    font_height: i64,
    quality: QualitySettings,
) -> (r: Result<GlyphOutline, MeshTextError>)
    requires
        1 <= font_height,
    ensures
        (r is Ok <==> built_outline_spec(events@, font_height as int, quality) is Some),
        r matches Ok(o) ==> {
            let s = built_outline_spec(events@, font_height as int, quality)->Some_0;
            &&& o.points@ == s.points
            &&& o.contours@.map_values(|c: Vec<u32>| c@) == s.contours
            &&& points_in_range(o.points@)
        },
{
    let ghost h = font_height as int;
    let mut builder = GlyphOutlineBuilder::new(font_height, quality);
    proof {
        assert(events@.take(0) =~= Seq::<OutlineEvent>::empty());
        assert(builder.points@ =~= initial_builder_state().points);
        assert(builder.contours_dv() =~= initial_builder_state().contours);
    }
    let mut i: usize = 0;
    while i < events.len()
        invariant
            i <= events@.len(),
            builder.wf(),
            builder.font_height == font_height,
            builder.quality == quality,
            1 <= font_height,
            h == font_height as int,
            fold_events_spec(initial_builder_state(), events@.take(i as int), h, quality)
                == Some(builder.state()),
        decreases events@.len() - i,
    {
        let ghost pre = builder.state();
        let res = match events[i] {
            OutlineEvent::MoveTo { x, y } => builder.move_to(x, y),
            OutlineEvent::LineTo { x, y } => builder.line_to(x, y),
            OutlineEvent::QuadTo { x1, y1, x, y } => builder.quad_to(x1, y1, x, y),
            OutlineEvent::CurveTo { x1, y1, x2, y2, x, y } => builder.curve_to(
                x1,
                y1,
                x2,
                y2,
                x,
                y,
            ),
            OutlineEvent::Close => builder.close(),
        };
        proof {
            assert(events@.take(i as int + 1).drop_last() =~= events@.take(i as int));
            assert(events@.take(i as int + 1).last() == events@[i as int]);
        }
        match res {
            Ok(()) => {
                proof {
                    assert(apply_event_spec(pre, events@[i as int], h, quality) == Some(
                        builder.state(),
                    ));
                }
            },
            Err(e) => {
                proof {
                    assert(apply_event_spec(pre, events@[i as int], h, quality) is None);
                    assert(fold_events_spec(
                        initial_builder_state(),
                        events@.take(i as int + 1),
                        h,
                        quality,
                    ) is None);
                    lemma_fold_events_none_extends(
                        initial_builder_state(),
                        events@,
                        i as int + 1,
                        h,
                        quality,
                    );
                }
                return Err(e);
            },
        }
        i = i + 1;
    }
    proof {
        assert(events@.take(events@.len() as int) =~= events@);
    }
    Ok(builder.get_glyph_outline())
}

/// Computes the non-indexed mesh of one glyph from the font's outline
/// answer. A glyph without an outline yields the empty mesh with the
/// all-zero bounding box; a glyph with an outline yields a flat mesh
/// of depth zero, or an extruded mesh whose box spans exactly from
/// negative to positive half depth.
pub fn glyph_mesh(
    outline: Option<(GlyphRect, Vec<OutlineEvent>)>,
    font_height: i64,
    quality: QualitySettings,
    flat: bool,
) -> (r: Result<GlyphMesh, MeshTextError>)
    requires
        1 <= font_height,
    ensures
        outline is None ==> (r matches Ok(m) && m.vertices@.len() == 0 && m.bbox == zero_bbox()),
        outline matches Some(oa) ==> (r is Ok <==> (built_outline_spec(
            oa.1@,
            font_height as int,
            quality,
        ) matches Some(s) && outline_triangulates(s))),
        outline matches Some(oa) ==> (r matches Ok(m) ==> {
            let s = built_outline_spec(oa.1@, font_height as int, quality)->Some_0;
            let es = outline_edge_seq(s.contours);
            let ts = cdt_spec(s.points, es)->Ok_0;
            &&& (flat ==> m.vertices@ == flat_mesh_verts(ts, s.points))
            &&& (!flat ==> m.vertices@ == extruded_cap_verts(ts, s.points) + wall_verts(
                es,
                s.points,
            ))
        }),
        r matches Ok(m) ==> {
            &&& glyph_mesh_wf(m, flat)
            &&& m.vertices@.len() % 3 == 0
            &&& (!flat ==> forall|i: int|
                0 <= i < m.vertices@.len() ==> ((#[trigger] m.vertices@[i]).z == HALF_DEPTH
                    || m.vertices@[i].z == -HALF_DEPTH))
            &&& (outline matches Some(oa) ==> m.bbox == rect_bbox_spec(
                oa.0,
                font_height as int,
                flat,
            ))
            &&& (flat ==> m.bbox.min.z == 0 && m.bbox.max.z == 0)
            &&& (!flat && outline is Some ==> m.bbox.min.z == -HALF_DEPTH && m.bbox.max.z
                == HALF_DEPTH)
        },
{
    match outline {
        None => Ok(GlyphMesh { vertices: Vec::new(), bbox: BoundingBox::empty() }),
        Some((rect, events)) => {
            let o = match build_outline(&events, font_height, quality) {
                Ok(o) => o,
                Err(e) => {
                    return Err(e);
                },
            };
            let vertices = match raster_to_mesh(&o, flat) {
                Ok(vs) => vs,
                Err(e) => {
                    return Err(e);
                },
            };
            let bbox = rect_bbox(rect, font_height, flat);
            Ok(GlyphMesh { vertices, bbox })
        },
    }
}

/// Computes the indexed mesh of one glyph from the font's outline
/// answer. Every index is strictly below the vertex count.
pub fn glyph_mesh_indexed(
    outline: Option<(GlyphRect, Vec<OutlineEvent>)>,
    font_height: i64,
    quality: QualitySettings,
    flat: bool,
) -> (r: Result<IndexedGlyphMesh, MeshTextError>)
    requires
        1 <= font_height,
    ensures
        outline is None ==> (r matches Ok(m) && m.vertices@.len() == 0 && m.indices@.len() == 0
            && m.bbox == zero_bbox()),
        outline matches Some(oa) ==> (r is Ok <==> (built_outline_spec(
            oa.1@,
            font_height as int,
            quality,
        ) matches Some(s) && outline_triangulates(s) && (flat || s.points.len() <= 0x7FFF_FFFF))),
        outline matches Some(oa) ==> (r matches Ok(m) ==> {
            let s = built_outline_spec(oa.1@, font_height as int, quality)->Some_0;
            let es = outline_edge_seq(s.contours);
            let ts = cdt_spec(s.points, es)->Ok_0;
            &&& (flat ==> m.vertices@ == points_at_depth(s.points, 0) && m.indices@
                == flat_indices(ts))
            &&& (!flat ==> m.vertices@ == points_at_depth(s.points, HALF_DEPTH)
                + points_at_depth(s.points, (-HALF_DEPTH) as i64) && m.indices@
                == extruded_cap_indices(ts, s.points.len() as int) + wall_indices(
                es,
                s.points.len() as int,
            ))
        }),
        r matches Ok(m) ==> {
            &&& indexed_glyph_mesh_wf(m, flat)
            &&& m.indices@.len() % 3 == 0
            &&& (!flat ==> m.vertices@.len() % 2 == 0)
            &&& (outline matches Some(oa) ==> m.bbox == rect_bbox_spec(
                oa.0,
                font_height as int,
                flat,
            ))
            &&& (flat ==> m.bbox.min.z == 0 && m.bbox.max.z == 0)
            &&& (!flat && outline is Some ==> m.bbox.min.z == -HALF_DEPTH && m.bbox.max.z
                == HALF_DEPTH)
        },
{
    match outline {
        None => Ok(
            IndexedGlyphMesh {
                indices: Vec::new(),
                vertices: Vec::new(),
                bbox: BoundingBox::empty(),
            },
        ),
        Some((rect, events)) => {
            let o = match build_outline(&events, font_height, quality) {
                Ok(o) => o,
                Err(e) => {
                    return Err(e);
                },
            };
            let m = match raster_to_mesh_indexed(&o, flat) {
                Ok(m) => m,
                Err(e) => {
                    return Err(e);
                },
            };
            let (vertices, indices) = m;
            let bbox = rect_bbox(rect, font_height, flat);
            Ok(IndexedGlyphMesh { indices, vertices, bbox })
        },
    }
}

} // verus!
