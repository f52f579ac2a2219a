//! Generate 2D or 3D triangle meshes from text.
//!
//! Glyph outlines are flattened into closed contour polygons, triangulated,
//! and assembled into flat or extruded triangle meshes, with a per-glyph
//! cache and text-section layout. All geometry is carried in fixed-point
//! coordinates normalized to the font's line height, so that results are
//! exact and reproducible.

pub mod error;
pub use error::{GlyphOutlineError, GlyphTriangulationError, MeshTextError, VertexError};

mod fixed;
pub use fixed::{
    div_trunc, lerp_fixed_spec, FixedPoint, FixedVec3, COORD_LIMIT, HALF_DEPTH, LINEAR_LIMIT,
    RAW_LIMIT, SCALE, TRANSLATION_LIMIT,
};

mod quality_settings;
pub use quality_settings::QualitySettings;

mod cache_type;
pub use cache_type::CacheType;

mod glyph_outline;
pub use glyph_outline::GlyphOutline;

mod outline_builder;
pub use outline_builder::{
    apply_event_spec, built_outline_spec, fold_events_spec, initial_builder_state, BuilderState,
    GlyphOutlineBuilder, OutlineEvent,
};

mod triangulation;
pub use triangulation::{
    cdt_spec, contour_closed, edges_in_range, get_glyph_area_triangulation, outline_edge_seq,
};

mod bounding_box;
pub use bounding_box::{combine_spec, zero_bbox, BoundingBox};

mod transform;
pub use transform::{
    mat3_apply_spec, mat3_in_range, mat4_apply_spec, mat4_in_range, ADVANCE_ACC_LIMIT,
};

mod triangle_mesh;
pub use triangle_mesh::TriangleMesh;

mod mesh_text;
pub use mesh_text::MeshText;

mod indexed_mesh_text;
pub use indexed_mesh_text::IndexedMeshText;

mod font_face;
pub use font_face::{FontFace, GlyphRect};

mod glyph_mesh;
pub use glyph_mesh::{
    glyph_mesh, glyph_mesh_indexed, lemma_glyph_bbox_depth, outline_triangulates, rect_bbox_spec,
    GlyphMesh, IndexedGlyphMesh,
};

mod mesh_generator;
pub use mesh_generator::{
    cache_key_spec, flatten2, flatten3, lemma_cache_key_injective, lemma_flatten2_concat,
    lemma_flatten3_concat, lemma_section_index_layout, lemma_section_index_layout_stable,
    lemma_section_vertex_total_stable, lemma_seq_max_int_bounds, lemma_seq_max_int_unique,
    rebased_indices, section_index_layout, section_vertex_total, seq_max_int, MeshGenerator,
};

mod glyph;
pub use glyph::Glyph;

mod text_section;
pub use text_section::TextSection;

mod raster_to_mesh;
pub use raster_to_mesh::{
    extruded_cap_indices, extruded_cap_verts, flat_indices, flat_mesh_verts, points_at_depth,
    raster_to_mesh, raster_to_mesh_indexed, wall_indices, wall_verts,
};
