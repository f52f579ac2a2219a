//! The single-glyph generation interface.

use crate::error::MeshTextError;
use crate::font_face::FontFace;
use crate::indexed_mesh_text::IndexedMeshText;
use crate::mesh_generator::MeshGenerator;
use crate::mesh_text::MeshText;
use crate::transform::{mat3_in_range, mat4_in_range};
use vstd::prelude::*;

verus! {

/// A single character from a font, rendered to a mesh of type `T`.
pub trait Glyph<T> {
    /// The invariant that generation requires and preserves.
    spec fn inv(&self) -> bool;

    /// Generates a mesh for a single character, either flat or with
    /// one unit of depth, under an optional column-major 4x4
    /// transformation.
    fn generate_glyph(&mut self, glyph: char, flat: bool, transform: Option<&[i64; 16]>) -> (r:
        Result<T, MeshTextError>)
        requires
            old(self).inv(),
            transform matches Some(t) ==> mat4_in_range(t@),
        ensures
            final(self).inv(),
    ;

    /// Generates a two-dimensional mesh for a single character, under
    /// an optional column-major 3x3 transformation.
    fn generate_glyph_2d(&mut self, glyph: char, transform: Option<&[i64; 9]>) -> (r: Result<
        T,
        MeshTextError,
    >)
        requires
            old(self).inv(),
            transform matches Some(t) ==> mat3_in_range(t@),
        ensures
            final(self).inv(),
    ;
}

impl<T: FontFace> Glyph<MeshText> for MeshGenerator<T> {
    open spec fn inv(&self) -> bool {
        self.wf()
    }

    fn generate_glyph(&mut self, glyph: char, flat: bool, transform: Option<&[i64; 16]>) -> (r:
        Result<MeshText, MeshTextError>) {
        self.generate_glyph(glyph, flat, transform)
    }

    fn generate_glyph_2d(&mut self, glyph: char, transform: Option<&[i64; 9]>) -> (r: Result<
        MeshText,
        MeshTextError,
    >) {
        self.generate_glyph_2d(glyph, transform)
    }
}

impl<T: FontFace> Glyph<IndexedMeshText> for MeshGenerator<T> {
    open spec fn inv(&self) -> bool {
        self.wf()
    }

    fn generate_glyph(&mut self, glyph: char, flat: bool, transform: Option<&[i64; 16]>) -> (r:
        Result<IndexedMeshText, MeshTextError>) {
        self.generate_glyph_indexed(glyph, flat, transform)
    }

    fn generate_glyph_2d(&mut self, glyph: char, transform: Option<&[i64; 9]>) -> (r: Result<
        IndexedMeshText,
        MeshTextError,
    >) {
        self.generate_glyph_indexed_2d(glyph, transform)
    }
}

} // verus!
