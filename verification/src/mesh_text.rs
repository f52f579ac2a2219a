//! The non-indexed mesh output type.

use crate::bounding_box::BoundingBox;
use crate::error::MeshTextError;
use crate::triangle_mesh::TriangleMesh;
use vstd::prelude::*;

verus! {

/// Holds the generated mesh data for the given text input.
///
/// Each vertex is composed of three fixed-point values in the order
/// XYZ; a flat mesh generated in 2D holds two values per vertex
/// instead. A flat mesh's depth values are zero.
pub struct MeshText {
    /// The bounding box of this mesh.
    pub bbox: BoundingBox,

    /// The vertices of this mesh.
    pub vertices: Vec<i64>,
}

impl MeshText {
    /// Creates a new mesh from a raw vertex buffer of three values per
    /// vertex, computing its bounding box. A buffer whose length is
    /// not a multiple of three yields a vertex error.
    pub fn new(vertices: Vec<i64>) -> (r: Result<Self, MeshTextError>)
        ensures
            (r is Ok <==> vertices@.len() % 3 == 0),
            (r !is Ok ==> r matches Err(MeshTextError::Vertex(crate::error::VertexError))),
            r matches Ok(m) ==> {
                &&& m.vertices@ == vertices@
                &&& (vertices@.len() == 0 ==> m.bbox == crate::bounding_box::zero_bbox())
                &&& forall|i: int| 0 <= i < vertices@.len() ==> {
                    &&& (i % 3 == 0 ==> m.bbox.min.x <= #[trigger] vertices@[i] <= m.bbox.max.x)
                    &&& (i % 3 == 1 ==> m.bbox.min.y <= vertices@[i] <= m.bbox.max.y)
                    &&& (i % 3 == 2 ==> m.bbox.min.z <= vertices@[i] <= m.bbox.max.z)
                }
                &&& vertices@.len() > 0 ==> {
                    &&& (exists|i: int| 0 <= i < vertices@.len() && i % 3 == 0 && m.bbox.min.x
                        == #[trigger] vertices@[i])
                    &&& (exists|i: int| 0 <= i < vertices@.len() && i % 3 == 0 && m.bbox.max.x
                        == #[trigger] vertices@[i])
                    &&& (exists|i: int| 0 <= i < vertices@.len() && i % 3 == 1 && m.bbox.min.y
                        == #[trigger] vertices@[i])
                    &&& (exists|i: int| 0 <= i < vertices@.len() && i % 3 == 1 && m.bbox.max.y
                        == #[trigger] vertices@[i])
                    &&& (exists|i: int| 0 <= i < vertices@.len() && i % 3 == 2 && m.bbox.min.z
                        == #[trigger] vertices@[i])
                    &&& (exists|i: int| 0 <= i < vertices@.len() && i % 3 == 2 && m.bbox.max.z
                        == #[trigger] vertices@[i])
                }
            },
    {
        let bbox = match BoundingBox::from_vertices(&vertices) {
            Ok(b) => b,
            Err(e) => {
                return Err(e);
            },
        };
        Ok(Self { bbox, vertices })
    }
}

impl TriangleMesh for MeshText {
    open spec fn spec_bbox(&self) -> BoundingBox {
        self.bbox
    }

    open spec fn spec_indices(&self) -> Option<Seq<u32>> {
        None
    }

    open spec fn spec_vertices(&self) -> Seq<i64> {
        self.vertices@
    }

    fn bbox(&self) -> (r: BoundingBox) {
        self.bbox
    }

    fn indices(&self) -> (r: Option<Vec<u32>>) {
        None
    }

    fn vertices(&self) -> (r: Vec<i64>) {
        let mut out: Vec<i64> = Vec::new();
        let mut i: usize = 0;
        while i < self.vertices.len()
            invariant
                i <= self.vertices@.len(),
                out@ == self.vertices@.take(i as int),
            decreases self.vertices@.len() - i,
        {
            out.push(self.vertices[i]);
            i = i + 1;
        }
        proof {
            assert(out@ =~= self.vertices@);
        }
        out
    }
}

} // verus!
