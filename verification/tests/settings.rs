//! Tests of the quality settings, the cache selector, and the effect
//! of the subdivision density.

use meshtext::{CacheType, GlyphOutlineBuilder, QualitySettings};

#[test]
fn default_quality_is_five_and_three() {
    let q = QualitySettings::default();
    assert_eq!(q.quad_interpolation_steps, 5);
    assert_eq!(q.cubic_interpolation_steps, 3);
}

#[test]
fn default_cache_selector_is_the_normal_cache() {
    assert!(matches!(CacheType::default(), CacheType::Normal));
}

#[test]
fn more_interpolation_steps_emit_more_samples() {
    let coarse = QualitySettings { quad_interpolation_steps: 2, cubic_interpolation_steps: 2 };
    let fine = QualitySettings { quad_interpolation_steps: 8, cubic_interpolation_steps: 8 };
    let mut low = GlyphOutlineBuilder::new(1, coarse);
    low.move_to(0, 0).unwrap();
    low.quad_to(50, 100, 100, 0).unwrap();
    let mut high = GlyphOutlineBuilder::new(1, fine);
    high.move_to(0, 0).unwrap();
    high.quad_to(50, 100, 100, 0).unwrap();
    let low_points = low.get_glyph_outline().points.len();
    let high_points = high.get_glyph_outline().points.len();
    assert_eq!(low_points, 3);
    assert_eq!(high_points, 9);
}
