//! The errors that may occur while generating a mesh.

use vstd::prelude::*;

verus! {

/// An error that can occur while parsing the outline of a font.
///
/// It is reported when the builder's invariants can not be satisfied:
/// a contour closes with fewer than two points, a coordinate is out of
/// the supported range, or a contour references a missing point.
#[derive(Debug)]
pub struct GlyphOutlineError;

impl GlyphOutlineError {
    /// A human-readable description of this error.
    pub fn message(&self) -> String {
        "The glyph outline of this font seems to be malformed / unsupported.".to_string()
    }
}

/// An error that can occur while triangulating the outline of a font:
/// a contour does not cycle back to its start, or the triangulation
/// rejects the input. The message carries the underlying diagnostic.
#[derive(Debug)]
pub struct GlyphTriangulationError {
    /// The diagnostic reported by the triangulation.
    pub msg: String,
}

impl GlyphTriangulationError {
    /// A human-readable description of this error.
    pub fn message(&self) -> String {
        "The glyph outline could not be triangulated.".to_string()
    }
}

/// An error related to malformed vertices, such as a raw vertex buffer
/// whose length is not a multiple of the vertex size.
#[derive(Debug)]
pub struct VertexError;

impl VertexError {
    /// A human-readable description of this error.
    pub fn message(&self) -> String {
        "The given vertex or vertices seem to be malformed.".to_string()
    }
}

/// Any error that can occur while generating a mesh: a closed sum of
/// the error kinds, each carrying its diagnostic payload.
#[derive(Debug)]
pub enum MeshTextError {
    /// The glyph outline is malformed or unsupported.
    Outline(GlyphOutlineError),
    /// The outline could not be triangulated.
    Triangulation(GlyphTriangulationError),
    /// A vertex buffer is malformed.
    Vertex(VertexError),
}

impl MeshTextError {
    /// A human-readable description of this error.
    pub fn message(&self) -> String {
        match self {
            MeshTextError::Outline(e) => e.message(),
            MeshTextError::Triangulation(e) => e.message(),
            MeshTextError::Vertex(e) => e.message(),
        }
    }
}

} // verus!
