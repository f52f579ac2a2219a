//! The interface of a triangle mesh: vertices, optional indices, and
//! a bounding box.

use crate::bounding_box::BoundingBox;
use vstd::prelude::*;

verus! {

/// Represents a triangle mesh, which comprises a set of vertices that
/// form one or more triangles, optionally through an index buffer.
pub trait TriangleMesh {
    /// The bounding box of this mesh, as a specification value.
    spec fn spec_bbox(&self) -> BoundingBox;

    /// The optional index buffer of this mesh, as a specification
    /// value.
    spec fn spec_indices(&self) -> Option<Seq<u32>>;

    /// The raw vertex buffer of this mesh, as a specification value.
    spec fn spec_vertices(&self) -> Seq<i64>;

    /// Gets the bounding box of this mesh.
    fn bbox(&self) -> (r: BoundingBox)
        ensures
            r == self.spec_bbox(),
    ;

    /// Gets the optional indices of this mesh. The returned value is
    /// `None` if this mesh is not indexed.
    fn indices(&self) -> (r: Option<Vec<u32>>)
        ensures
            match r {
                Some(v) => self.spec_indices() matches Some(s) && v@ == s,
                None => self.spec_indices() is None,
            },
    ;

    /// Gets the vertices of this mesh.
    fn vertices(&self) -> (r: Vec<i64>)
        ensures
            r@ == self.spec_vertices(),
    ;
}

} // verus!
