//! Tests of caching behavior, idempotence, and the cache-management
//! surface.

use meshtext::{
    BoundingBox, FixedVec3, FontFace, Glyph, GlyphRect, IndexedMeshText, MeshGenerator, MeshText,
    OutlineEvent, QualitySettings, TextSection, SCALE,
};

/// A synthetic face whose only glyph is a right triangle.
struct TriangleFace;

const S: i64 = 2048 * SCALE;

impl FontFace for TriangleFace {
    fn glyph_hor_advance(&self, _glyph_id: u16) -> Option<u16> {
        Some(2048)
    }

    fn glyph_index(&self, code_point: char) -> Option<u16> {
        if code_point == 'A' {
            Some(1)
        } else {
            None
        }
    }

    fn height(&self) -> i16 {
        4096
    }

    fn outline_glyph(&self, glyph_id: u16) -> Option<(GlyphRect, Vec<OutlineEvent>)> {
        if glyph_id != 1 {
            return None;
        }
        Some((
            GlyphRect { x_min: 0, y_min: 0, x_max: 2048, y_max: 2048 },
            vec![
                OutlineEvent::MoveTo { x: 0, y: 0 },
                OutlineEvent::LineTo { x: 0, y: S },
                OutlineEvent::LineTo { x: S, y: 0 },
                OutlineEvent::LineTo { x: 0, y: 0 },
                OutlineEvent::Close,
            ],
        ))
    }
}

#[test]
fn repeated_generation_returns_identical_data() {
    let mut generator = MeshGenerator::new(TriangleFace);
    let first = generator.generate_glyph('A', false, None).unwrap();
    let second = generator.generate_glyph('A', false, None).unwrap();
    assert_eq!(first.vertices, second.vertices);
    assert_eq!(first.bbox, second.bbox);
    let first_indexed = generator.generate_glyph_indexed('A', false, None).unwrap();
    let second_indexed = generator.generate_glyph_indexed('A', false, None).unwrap();
    assert_eq!(first_indexed.vertices, second_indexed.vertices);
    assert_eq!(first_indexed.indices, second_indexed.indices);
}

#[test]
fn uncached_generation_matches_the_cached_path() {
    let mut cached = MeshGenerator::new(TriangleFace);
    let quality = QualitySettings { quad_interpolation_steps: 5, cubic_interpolation_steps: 3 };
    let mut uncached = MeshGenerator::new_without_cache(TriangleFace, quality);
    let from_cache = cached.generate_glyph('A', true, None).unwrap();
    let fresh = uncached.generate_glyph('A', true, None).unwrap();
    assert_eq!(from_cache.vertices, fresh.vertices);
    assert_eq!(from_cache.bbox, fresh.bbox);
}

#[test]
fn clear_cache_keeps_results_reproducible() {
    let mut generator = MeshGenerator::new(TriangleFace);
    let before = generator.generate_glyph('A', true, None).unwrap();
    generator.clear_cache();
    let after = generator.generate_glyph('A', true, None).unwrap();
    assert_eq!(before.vertices, after.vertices);
}

#[test]
fn precache_custom_glyph_substitutes_geometry() {
    let mut generator = MeshGenerator::new(TriangleFace);
    let custom = MeshText {
        bbox: BoundingBox::new(
            FixedVec3 { x: 0, y: 0, z: 0 },
            FixedVec3 { x: SCALE, y: SCALE, z: 0 },
        ),
        vertices: vec![0, 0, SCALE / 2, SCALE, SCALE, 0],
    };
    generator.precache_custom_glyph('A', true, &custom).unwrap();
    let mesh = generator.generate_glyph('A', true, None).unwrap();
    // The flat custom mesh holds two values per vertex; the generated
    // buffer holds them at depth zero.
    assert_eq!(
        mesh.vertices,
        vec![0, 0, 0, SCALE / 2, SCALE, 0, SCALE, 0, 0]
    );
}

#[test]
fn extruded_triangle_has_caps_and_walls() {
    let mut generator = MeshGenerator::new(TriangleFace);
    let mesh = generator.generate_glyph('A', false, None).unwrap();
    // One triangle gives a front and a back cap of three vertices
    // each, and three boundary edges give two wall triangles each.
    assert_eq!(mesh.vertices.len() / 3, 6 + 3 * 6);
}

#[test]
fn precache_glyphs_fills_both_caches() {
    let mut generator = MeshGenerator::new(TriangleFace);
    generator.precache_glyphs("A", false, None).unwrap();
    let mesh = generator.generate_glyph('A', false, None).unwrap();
    let indexed = generator.generate_glyph_indexed('A', false, None).unwrap();
    assert!(!mesh.vertices.is_empty());
    assert!(!indexed.vertices.is_empty());
}

#[test]
fn generation_through_the_trait_surface() {
    let mut generator = MeshGenerator::new(TriangleFace);
    let plain: MeshText = Glyph::generate_glyph(&mut generator, 'A', true, None).unwrap();
    let indexed: IndexedMeshText = Glyph::generate_glyph(&mut generator, 'A', true, None).unwrap();
    assert!(!plain.vertices.is_empty());
    assert!(!indexed.vertices.is_empty());
    let section: MeshText = TextSection::generate_section(&mut generator, "A", true, None)
        .unwrap();
    assert!(!section.vertices.is_empty());
    let section_2d: IndexedMeshText =
        TextSection::generate_section_2d(&mut generator, "A", None).unwrap();
    assert_eq!(section_2d.vertices.len() % 2, 0);
}

#[test]
fn error_messages_name_their_kind() {
    let outline = meshtext::error::GlyphOutlineError;
    assert!(outline.message().contains("outline"));
    let vertex = meshtext::error::VertexError;
    assert!(vertex.message().contains("vertex"));
    let triangulation =
        meshtext::error::GlyphTriangulationError { msg: "diagnostic".to_string() };
    assert!(triangulation.message().contains("triangulated"));
}

#[test]
fn bounding_box_operations_are_exact() {
    let a = BoundingBox::new(
        FixedVec3 { x: 0, y: 0, z: 0 },
        FixedVec3 { x: SCALE, y: SCALE, z: SCALE },
    );
    let b = BoundingBox::new(
        FixedVec3 { x: 2 * SCALE, y: 2 * SCALE, z: 0 },
        FixedVec3 { x: 3 * SCALE, y: 3 * SCALE, z: SCALE },
    );
    let c = a.combine(&b);
    assert_eq!(c.min.x, 0);
    assert_eq!(c.max.x, 3 * SCALE);
    let center = a.center();
    assert_eq!(center.x, SCALE / 2);
    assert_eq!(center.y, SCALE / 2);
    assert_eq!(center.z, SCALE / 2);
    let size = b.size();
    assert_eq!(size.x, SCALE);
    assert_eq!(size.y, SCALE);
    assert_eq!(size.z, SCALE);
    let inverted = BoundingBox::default();
    assert!(inverted.min.x > inverted.max.x);
}
