//! The abstract font-face capability that mesh generation consumes.

use crate::outline_builder::OutlineEvent;
use vstd::prelude::*;

verus! {

/// The tight bounding rectangle of a glyph, in raw font units.
#[derive(Debug, Clone, Copy, PartialEq, Eq, Structural)]
pub struct GlyphRect {
    /// The smallest x coordinate.
    pub x_min: i16,
    /// The smallest y coordinate.
    pub y_min: i16,
    /// The largest x coordinate.
    pub x_max: i16,
    /// The largest y coordinate.
    pub y_max: i16,
}

/// The methods of a font face that mesh generation uses. Adapters
/// around a font parser implement this capability and hand glyph
/// outlines over as plain curve events in fixed-point font units.
pub trait FontFace {
    /// Computes a glyph's horizontal advance in font units, or `None`
    /// when the font reports none for the glyph.
    fn glyph_hor_advance(&self, glyph_id: u16) -> Option<u16>;

    /// Resolves a glyph id for a code point, or `None` when the glyph
    /// is not found.
    fn glyph_index(&self, code_point: char) -> Option<u16>;

    /// Computes the face's line height in font units.
    fn height(&self) -> i16;

    /// Outlines a glyph: its tight bounding rectangle and the curve
    /// events that draw it, with coordinates scaled to fixed-point
    /// font units. Returns `None` when the glyph has no outline.
    fn outline_glyph(&self, glyph_id: u16) -> Option<(GlyphRect, Vec<OutlineEvent>)>;
}

} // verus!
