//! Tests of per-glyph mesh generation through a synthetic font face.

use meshtext::{
    FontFace, GlyphRect, MeshGenerator, MeshTextError, OutlineEvent, QualitySettings, HALF_DEPTH,
    SCALE,
};

/// A synthetic face with a line height of 4096 font units. 'A' and
/// 'B' are squares of 2048 font units; the space has no outline.
struct TestFace;

const H: i64 = 4096;
const S: i64 = 2048 * SCALE;

fn square_events() -> Vec<OutlineEvent> {
    vec![
        OutlineEvent::MoveTo { x: 0, y: 0 },
        OutlineEvent::LineTo { x: 0, y: S },
        OutlineEvent::LineTo { x: S, y: S },
        OutlineEvent::LineTo { x: S, y: 0 },
        OutlineEvent::LineTo { x: 0, y: 0 },
        OutlineEvent::Close,
    ]
}

impl FontFace for TestFace {
    fn glyph_hor_advance(&self, glyph_id: u16) -> Option<u16> {
        if glyph_id == 0 {
            None
        } else {
            Some(2048)
        }
    }

    fn glyph_index(&self, code_point: char) -> Option<u16> {
        match code_point {
            'A' => Some(1),
            'B' => Some(2),
            ' ' => Some(3),
            _ => None,
        }
    }

    fn height(&self) -> i16 {
        H as i16
    }

    fn outline_glyph(&self, glyph_id: u16) -> Option<(GlyphRect, Vec<OutlineEvent>)> {
        match glyph_id {
            1 | 2 => Some((
                GlyphRect { x_min: 0, y_min: 0, x_max: 2048, y_max: 2048 },
                square_events(),
            )),
            _ => None,
        }
    }
}

#[test]
fn flat_mesh_has_no_depth() {
    let mut generator = MeshGenerator::new(TestFace);
    let mesh = generator.generate_glyph('A', true, None).unwrap();
    assert!(!mesh.vertices.is_empty());
    assert_eq!(mesh.vertices.len() % 3, 0);
    for v in mesh.vertices.chunks(3) {
        assert_eq!(v[2], 0);
    }
    assert_eq!(mesh.bbox.min.z, 0);
    assert_eq!(mesh.bbox.max.z, 0);
}

#[test]
fn extruded_mesh_spans_one_unit_of_depth() {
    let mut generator = MeshGenerator::new(TestFace);
    let mesh = generator.generate_glyph('A', false, None).unwrap();
    assert!(!mesh.vertices.is_empty());
    assert_eq!(mesh.vertices.len() % 3, 0);
    for v in mesh.vertices.chunks(3) {
        assert!(v[2] == HALF_DEPTH || v[2] == -HALF_DEPTH);
    }
    assert_eq!(mesh.bbox.max.z, HALF_DEPTH);
    assert_eq!(mesh.bbox.min.z, -HALF_DEPTH);
    assert_eq!(mesh.bbox.max.z - mesh.bbox.min.z, SCALE);
}

#[test]
fn glyph_without_outline_yields_the_empty_mesh() {
    let mut generator = MeshGenerator::new(TestFace);
    let flat = generator.generate_glyph(' ', true, None).unwrap();
    assert_eq!(flat.vertices.len(), 0);
    assert_eq!(flat.bbox.min.x, 0);
    assert_eq!(flat.bbox.max.x, 0);
    assert_eq!(flat.bbox.min.z, 0);
    assert_eq!(flat.bbox.max.z, 0);
    let extruded = generator.generate_glyph(' ', false, None).unwrap();
    assert_eq!(extruded.vertices.len(), 0);
    assert_eq!(extruded.bbox.max.z, 0);
    assert_eq!(extruded.bbox.min.z, 0);
    let indexed = generator.generate_glyph_indexed(' ', false, None).unwrap();
    assert_eq!(indexed.vertices.len(), 0);
    assert_eq!(indexed.indices.len(), 0);
}

#[test]
fn indexed_mesh_indices_address_vertices() {
    let mut generator = MeshGenerator::new(TestFace);
    let flat = generator.generate_glyph_indexed('A', true, None).unwrap();
    let flat_count = flat.vertices.len() / 3;
    assert!(flat_count > 0);
    for i in &flat.indices {
        assert!((*i as usize) < flat_count);
    }
    // The extruded variant holds the flat point cloud twice: front
    // and back cap points.
    let extruded = generator.generate_glyph_indexed('A', false, None).unwrap();
    let extruded_count = extruded.vertices.len() / 3;
    assert_eq!(extruded_count, 2 * flat_count);
    for i in &extruded.indices {
        assert!((*i as usize) < extruded_count);
    }
    assert_eq!(extruded.indices.len() % 3, 0);
}

#[test]
fn extruded_scenario_with_default_quality() {
    // Quality settings of five quadratic and three cubic steps.
    let quality = QualitySettings { quad_interpolation_steps: 5, cubic_interpolation_steps: 3 };
    let mut generator = MeshGenerator::new_with_quality(TestFace, quality);
    let mesh = generator.generate_glyph('A', false, None).unwrap();
    assert!(!mesh.vertices.is_empty());
    assert_eq!(mesh.vertices.len() % 3, 0);
    assert_eq!(mesh.bbox.max.z, HALF_DEPTH);
    assert_eq!(mesh.bbox.min.z, -HALF_DEPTH);
    assert!(mesh.bbox.max.x - mesh.bbox.min.x > 0);
    assert!(mesh.bbox.max.y - mesh.bbox.min.y > 0);
}

#[test]
fn glyph_bbox_follows_the_font_rectangle() {
    let mut generator = MeshGenerator::new(TestFace);
    let mesh = generator.generate_glyph('A', false, None).unwrap();
    // 2048 font units over a line height of 4096: one half.
    assert_eq!(mesh.bbox.max.x, SCALE / 2);
    assert_eq!(mesh.bbox.max.y, SCALE / 2);
    assert_eq!(mesh.bbox.min.x, 0);
    assert_eq!(mesh.bbox.min.y, 0);
}

#[test]
fn unknown_character_falls_back_to_the_default_glyph() {
    let mut generator = MeshGenerator::new(TestFace);
    // '?' resolves to glyph id 0, which has no outline: the mesh is
    // empty rather than an error.
    let mesh = generator.generate_glyph('?', true, None).unwrap();
    assert_eq!(mesh.vertices.len(), 0);
}

#[test]
fn transformed_glyph_is_translated_exactly() {
    let mut generator = MeshGenerator::new(TestFace);
    let plain = generator.generate_glyph('A', true, None).unwrap();
    // The identity with a translation of one font-height unit in x.
    let transform: [i64; 16] = [
        SCALE, 0, 0, 0, 0, SCALE, 0, 0, 0, 0, SCALE, 0, SCALE, 0, 0, SCALE,
    ];
    let moved = generator.generate_glyph('A', true, Some(&transform)).unwrap();
    assert_eq!(plain.vertices.len(), moved.vertices.len());
    for (p, m) in plain.vertices.chunks(3).zip(moved.vertices.chunks(3)) {
        assert_eq!(m[0], p[0] + SCALE);
        assert_eq!(m[1], p[1]);
        assert_eq!(m[2], p[2]);
    }
    assert_eq!(moved.bbox.min.x, plain.bbox.min.x + SCALE);
    assert_eq!(moved.bbox.max.x, plain.bbox.max.x + SCALE);
}

#[test]
fn two_dimensional_glyph_has_two_values_per_vertex() {
    let mut generator = MeshGenerator::new(TestFace);
    let flat3 = generator.generate_glyph('A', true, None).unwrap();
    let flat2 = generator.generate_glyph_2d('A', None).unwrap();
    assert_eq!(flat2.vertices.len() % 2, 0);
    assert_eq!(flat2.vertices.len() / 2, flat3.vertices.len() / 3);
    assert_eq!(flat2.bbox.min.z, 0);
    assert_eq!(flat2.bbox.max.z, 0);
}

#[test]
fn vertex_buffer_of_wrong_stride_is_a_vertex_error() {
    let r = meshtext::MeshText::new(vec![1, 2, 3, 4]);
    assert!(matches!(r, Err(MeshTextError::Vertex(_))));
    let ok = meshtext::MeshText::new(vec![1, 2, 3]).unwrap();
    assert_eq!(ok.vertices, vec![1, 2, 3]);
}
