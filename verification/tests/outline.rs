//! Tests of the outline builder and the contour validation.

use meshtext::{GlyphOutline, GlyphOutlineBuilder, MeshTextError, QualitySettings, SCALE};

fn quality(quad: u32, cubic: u32) -> QualitySettings {
    QualitySettings { quad_interpolation_steps: quad, cubic_interpolation_steps: cubic }
}

#[test]
fn square_outline_closes_into_cycle() {
    // Line height 1: normalized coordinates equal the raw ones.
    let mut b = GlyphOutlineBuilder::new(1, quality(5, 3));
    b.move_to(0, 0).unwrap();
    b.line_to(10, 0).unwrap();
    b.line_to(10, 10).unwrap();
    b.line_to(0, 10).unwrap();
    b.line_to(0, 0).unwrap();
    b.close().unwrap();
    let o = b.get_glyph_outline();
    let pts: Vec<(i64, i64)> = o.points.iter().map(|p| (p.x, p.y)).collect();
    assert_eq!(pts, vec![(0, 0), (10, 0), (10, 10), (0, 10)]);
    assert_eq!(o.contours.len(), 1);
    assert_eq!(o.contours[0], vec![0, 1, 2, 3, 0]);
}

#[test]
fn quad_flattening_emits_exact_samples() {
    let mut b = GlyphOutlineBuilder::new(1, quality(2, 3));
    b.move_to(0, 0).unwrap();
    b.quad_to(10, 0, 20, 0).unwrap();
    let o = b.get_glyph_outline();
    let pts: Vec<(i64, i64)> = o.points.iter().map(|p| (p.x, p.y)).collect();
    // Two steps: the half-way sample lands on (10, 0) and the final
    // sample lands exactly on the end point.
    assert_eq!(pts, vec![(0, 0), (10, 0), (20, 0)]);
    assert_eq!(o.contours[0], vec![0, 1, 2]);
}

#[test]
fn quad_flattening_with_zero_steps_adds_nothing() {
    let mut b = GlyphOutlineBuilder::new(1, quality(0, 0));
    b.move_to(0, 0).unwrap();
    b.quad_to(10, 0, 20, 0).unwrap();
    let o = b.get_glyph_outline();
    assert_eq!(o.points.len(), 1);
}

#[test]
fn cubic_flattening_lands_on_end_point() {
    let mut b = GlyphOutlineBuilder::new(1, quality(5, 3));
    b.move_to(0, 0).unwrap();
    b.curve_to(10, 30, 20, 30, 30, 0).unwrap();
    let o = b.get_glyph_outline();
    let last = o.points.last().unwrap();
    assert_eq!((last.x, last.y), (30, 0));
    // Three cubic steps emit three samples after the start point.
    assert_eq!(o.points.len(), 4);
}

#[test]
fn normalization_divides_by_line_height() {
    let mut b = GlyphOutlineBuilder::new(4096, quality(5, 3));
    b.move_to(2048 * SCALE, 0).unwrap();
    let o = b.get_glyph_outline();
    // 2048 font units over a line height of 4096 is one half.
    assert_eq!(o.points[0].x, SCALE / 2);
    assert_eq!(o.points[0].y, 0);
}

#[test]
fn close_with_single_point_is_an_outline_error() {
    let mut b = GlyphOutlineBuilder::new(1, quality(5, 3));
    b.move_to(0, 0).unwrap();
    let r = b.close();
    assert!(matches!(r, Err(MeshTextError::Outline(_))));
}

#[test]
fn closing_a_contour_twice_is_an_outline_error() {
    let mut b = GlyphOutlineBuilder::new(1, quality(5, 3));
    b.move_to(0, 0).unwrap();
    b.line_to(10, 0).unwrap();
    b.line_to(0, 10).unwrap();
    b.close().unwrap();
    // A second close would remove a point the contour still uses.
    let r = b.close();
    assert!(matches!(r, Err(MeshTextError::Outline(_))));
    // The outline is left intact.
    let o = b.get_glyph_outline();
    assert_eq!(o.points.len(), 2);
    assert_eq!(o.contours[0], vec![0, 1, 0]);
}

#[test]
fn line_without_contour_is_an_outline_error() {
    let mut b = GlyphOutlineBuilder::new(1, quality(5, 3));
    let r = b.line_to(5, 5);
    assert!(matches!(r, Err(MeshTextError::Outline(_))));
}

#[test]
fn open_contour_fails_triangulation() {
    let mut b = GlyphOutlineBuilder::new(1, quality(5, 3));
    b.move_to(0, 0).unwrap();
    b.line_to(10, 0).unwrap();
    b.line_to(10, 10).unwrap();
    let o = b.get_glyph_outline();
    // The contour was never closed: its last index does not return to
    // the first one.
    let r = meshtext::get_glyph_area_triangulation(&o);
    match r {
        Err(MeshTextError::Triangulation(e)) => {
            assert_eq!(e.msg, "Open contour.");
        },
        _ => panic!("expected an open-contour triangulation error"),
    }
}

#[test]
fn contour_indexing_missing_points_is_an_outline_error() {
    let o = GlyphOutline { contours: vec![vec![0, 7, 0]], points: Vec::new() };
    let r = meshtext::get_glyph_area_triangulation(&o);
    assert!(matches!(r, Err(MeshTextError::Outline(_))));
}
