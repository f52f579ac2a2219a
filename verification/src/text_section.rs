//! The text-section generation interface.

use crate::error::MeshTextError;
use crate::font_face::FontFace;
use crate::indexed_mesh_text::IndexedMeshText;
use crate::mesh_generator::MeshGenerator;
use crate::mesh_text::MeshText;
use crate::transform::{mat3_in_range, mat4_in_range};
use vstd::prelude::*;

verus! {

/// A section of text, rendered to a mesh of type `T`.
pub trait TextSection<T> {
    /// The invariant that generation requires and preserves.
    spec fn inv(&self) -> bool;

    /// Generates a mesh for a section of text, either flat or with
    /// one unit of depth, under an optional column-major 4x4
    /// transformation.
    fn generate_section(&mut self, text: &str, flat: bool, transform: Option<&[i64; 16]>) -> (r:
        Result<T, MeshTextError>)
        requires
            old(self).inv(),
            text@.len() <= 0x10_0000,
            transform matches Some(t) ==> mat4_in_range(t@),
        ensures
            final(self).inv(),
    ;

    /// Generates a two-dimensional mesh for a section of text, under
    /// an optional column-major 3x3 transformation.
    fn generate_section_2d(&mut self, text: &str, transform: Option<&[i64; 9]>) -> (r: Result<
        T,
        MeshTextError,
    >)
        requires
            old(self).inv(),
            text@.len() <= 0x10_0000,
            transform matches Some(t) ==> mat3_in_range(t@),
        ensures
            final(self).inv(),
    ;
}

impl<T: FontFace> TextSection<MeshText> for MeshGenerator<T> {
    open spec fn inv(&self) -> bool {
        self.wf()
    }

    fn generate_section(&mut self, text: &str, flat: bool, transform: Option<&[i64; 16]>) -> (r:
        Result<MeshText, MeshTextError>) {
        self.generate_text_section(text, flat, transform)
    }

    fn generate_section_2d(&mut self, text: &str, transform: Option<&[i64; 9]>) -> (r: Result<
        MeshText,
        MeshTextError,
    >) {
        self.generate_text_section_2d(text, transform)
    }
}

impl<T: FontFace> TextSection<IndexedMeshText> for MeshGenerator<T> {
    open spec fn inv(&self) -> bool {
        self.wf()
    }

    fn generate_section(&mut self, text: &str, flat: bool, transform: Option<&[i64; 16]>) -> (r:
        Result<IndexedMeshText, MeshTextError>) {
        self.generate_text_section_indexed(text, flat, transform)
    }

    fn generate_section_2d(&mut self, text: &str, transform: Option<&[i64; 9]>) -> (r: Result<
        IndexedMeshText,
        MeshTextError,
    >) {
        self.generate_text_section_indexed_2d(text, transform)
    }
}

} // verus!
