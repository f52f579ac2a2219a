//! The flattened representation of a glyph outline.

use crate::fixed::FixedPoint;
use vstd::prelude::*;

verus! {

/// The discrete representation of a rasterized glyph outline: a point
/// cloud of normalized coordinates, and contours of point indices. A
/// closed contour stores its starting index again as its last entry.
pub struct GlyphOutline {
    /// The indices that form closed contours of points.
    pub contours: Vec<Vec<u32>>,

    /// A point cloud that contains one or more contours.
    pub points: Vec<FixedPoint>,
}

impl GlyphOutline {
    /// Whether every contour references only existing points.
    pub open spec fn indices_in_range(&self) -> bool {
        forall|c: int, i: int|
            0 <= c < self.contours@.len() && 0 <= i < self.contours@[c]@.len()
                ==> self.contours@[c]@[i] < self.points@.len()
    }
}

} // verus!
