//! Tests of text-section layout: vertex accumulation, index
//! rebasing, and bounding-box combination.

use meshtext::{
    BoundingBox, FixedVec3, FontFace, GlyphRect, IndexedMeshText, MeshGenerator, MeshText,
    OutlineEvent, SCALE,
};

/// A synthetic face whose glyphs are precached by hand, so that the
/// layout arithmetic can be checked against exact values.
struct PlainFace;

impl FontFace for PlainFace {
    fn glyph_hor_advance(&self, glyph_id: u16) -> Option<u16> {
        if glyph_id == 0 {
            None
        } else {
            Some(2048)
        }
    }

    fn glyph_index(&self, code_point: char) -> Option<u16> {
        match code_point {
            'A' => Some(1),
            'B' => Some(2),
            ' ' => Some(3),
            _ => None,
        }
    }

    fn height(&self) -> i16 {
        4096
    }

    fn outline_glyph(&self, _glyph_id: u16) -> Option<(GlyphRect, Vec<OutlineEvent>)> {
        // No glyph has an outline: all geometry is precached.
        None
    }
}

fn unit_bbox() -> BoundingBox {
    BoundingBox::new(
        FixedVec3 { x: 0, y: 0, z: 0 },
        FixedVec3 { x: SCALE, y: SCALE, z: 0 },
    )
}

/// A flat custom triangle with two values per vertex.
fn triangle_mesh() -> MeshText {
    MeshText { bbox: unit_bbox(), vertices: vec![0, 0, SCALE, 0, 0, SCALE] }
}

/// A flat custom indexed triangle with two values per vertex.
fn indexed_triangle_mesh(indices: Vec<u32>) -> IndexedMeshText {
    IndexedMeshText { bbox: unit_bbox(), indices, vertices: vec![0, 0, SCALE, 0, 0, SCALE] }
}

#[test]
fn section_vertex_count_is_the_sum_of_its_glyphs() {
    let mut generator = MeshGenerator::new(PlainFace);
    generator.precache_custom_glyph('A', true, &triangle_mesh()).unwrap();
    generator.precache_custom_glyph('B', true, &triangle_mesh()).unwrap();
    let a = generator.generate_glyph('A', true, None).unwrap();
    let b = generator.generate_glyph('B', true, None).unwrap();
    let section: MeshText = generator.generate_text_section("AB", true, None).unwrap();
    assert_eq!(section.vertices.len(), a.vertices.len() + b.vertices.len());
}

#[test]
fn section_advances_each_glyph_by_the_running_advance() {
    let mut generator = MeshGenerator::new(PlainFace);
    generator.precache_custom_glyph('A', true, &triangle_mesh()).unwrap();
    generator.precache_custom_glyph('B', true, &triangle_mesh()).unwrap();
    let section: MeshText = generator.generate_text_section("AB", true, None).unwrap();
    // The advance of 'A' is 2048 font units over a line height of
    // 4096: one half. 'B' is shifted by exactly that much in x.
    let half = SCALE / 2;
    assert_eq!(section.vertices.len(), 18);
    let first_b_x = section.vertices[9];
    assert_eq!(first_b_x, 0 + half);
    // All of 'A' is unshifted.
    assert_eq!(&section.vertices[0..9], &[0, 0, 0, SCALE, 0, 0, 0, SCALE, 0]);
}

#[test]
fn section_index_buffer_is_rebased_per_glyph() {
    let mut generator = MeshGenerator::new(PlainFace);
    generator.precache_custom_glyph('A', true, &indexed_triangle_mesh(vec![0, 1, 2])).unwrap();
    generator.precache_custom_glyph('B', true, &indexed_triangle_mesh(vec![0, 2, 1])).unwrap();
    let b_alone: IndexedMeshText = {
        let mut fresh = MeshGenerator::new(PlainFace);
        fresh.precache_custom_glyph('B', true, &indexed_triangle_mesh(vec![0, 2, 1])).unwrap();
        fresh.generate_glyph_indexed('B', true, None).unwrap()
    };
    let section: IndexedMeshText =
        generator.generate_text_section_indexed("AB", true, None).unwrap();
    // 'A' contributed indices up to 2, so every index of 'B' is
    // offset by exactly 3 against generating 'B' alone.
    assert_eq!(&section.indices[0..3], &[0, 1, 2]);
    let b_in_section = &section.indices[3..6];
    for (s, alone) in b_in_section.iter().zip(b_alone.indices.iter()) {
        assert_eq!(*s, *alone + 3);
    }
}

#[test]
fn glyph_without_indices_leaves_the_offset_unchanged() {
    let mut generator = MeshGenerator::new(PlainFace);
    generator.precache_custom_glyph('B', true, &indexed_triangle_mesh(vec![0, 2, 1])).unwrap();
    // The space contributes no indices, so 'B' contributes unoffset
    // indices.
    let section: IndexedMeshText =
        generator.generate_text_section_indexed(" B", true, None).unwrap();
    assert_eq!(section.indices, vec![0, 2, 1]);
}

#[test]
fn section_combines_bounding_boxes() {
    let mut generator = MeshGenerator::new(PlainFace);
    generator.precache_custom_glyph('A', true, &triangle_mesh()).unwrap();
    generator.precache_custom_glyph('B', true, &triangle_mesh()).unwrap();
    let section: MeshText = generator.generate_text_section("AB", true, None).unwrap();
    // Both glyphs span one unit; 'B' starts at one half.
    assert_eq!(section.bbox.min.x, 0);
    assert_eq!(section.bbox.max.x, SCALE + SCALE / 2);
    assert_eq!(section.bbox.min.y, 0);
    assert_eq!(section.bbox.max.y, SCALE);
}

#[test]
fn empty_section_is_the_empty_mesh() {
    let mut generator = MeshGenerator::new(PlainFace);
    let section: MeshText = generator.generate_text_section("", true, None).unwrap();
    assert_eq!(section.vertices.len(), 0);
    assert_eq!(section.bbox.min.x, 0);
    assert_eq!(section.bbox.max.x, 0);
    let indexed: IndexedMeshText =
        generator.generate_text_section_indexed("", true, None).unwrap();
    assert_eq!(indexed.vertices.len(), 0);
    assert_eq!(indexed.indices.len(), 0);
}

#[test]
fn two_dimensional_section_matches_the_flat_one() {
    let mut generator = MeshGenerator::new(PlainFace);
    generator.precache_custom_glyph('A', true, &triangle_mesh()).unwrap();
    generator.precache_custom_glyph('B', true, &triangle_mesh()).unwrap();
    let flat3: MeshText = generator.generate_text_section("AB", true, None).unwrap();
    let flat2: MeshText = generator.generate_text_section_2d("AB", None).unwrap();
    assert_eq!(flat2.vertices.len() / 2, flat3.vertices.len() / 3);
    for (v2, v3) in flat2.vertices.chunks(2).zip(flat3.vertices.chunks(3)) {
        assert_eq!(v2[0], v3[0]);
        assert_eq!(v2[1], v3[1]);
    }
}
