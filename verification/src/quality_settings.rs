//! Tessellation-density settings for curved glyph edges.

use vstd::prelude::*;

verus! {

/// Controls the quality of generated glyphs.
///
/// Generally each setting can be tweaked to generate better
/// looking glyphs at the cost of a certain performance impact.
#[derive(Debug, Clone, Copy, PartialEq, Eq, Structural)]
pub struct QualitySettings {
    /// The number of linear interpolation steps performed
    /// on a quadratic bezier curve.
    ///
    /// Higher values result in higher polygon count.
    pub quad_interpolation_steps: u32,

    /// The number of quadratic interpolation steps performed
    /// on a cubic bezier curve.
    ///
    /// Higher values result in higher polygon count.
    pub cubic_interpolation_steps: u32,
}

impl Default for QualitySettings {
    /// Five steps for quadratic segments and three for cubic ones.
    fn default() -> (r: Self)
        ensures
            r.quad_interpolation_steps == 5,
            r.cubic_interpolation_steps == 3,
    {
        Self { quad_interpolation_steps: 5, cubic_interpolation_steps: 3 }
    }
}

} // verus!
