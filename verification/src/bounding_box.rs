//! Axis-aligned bounding boxes with combine and transform operations.

use crate::error::{MeshTextError, VertexError};
use crate::fixed::{div_trunc, FixedVec3, HALF_DEPTH};
use crate::transform::{
    mat3_apply, mat3_apply_ok, mat3_apply_spec, mat4_apply, mat4_apply_ok, mat4_apply_spec,
    vec3_apply_in, vec3_out_range,
};
use vstd::prelude::*;

verus! {

/// The smaller of two values.
pub open spec fn min_i64(a: i64, b: i64) -> i64 {
    if a <= b {
        a
    } else {
        b
    }
}

/// The larger of two values.
pub open spec fn max_i64(a: i64, b: i64) -> i64 {
    if a >= b {
        a
    } else {
        b
    }
}

/// A bounding box, or bounding rectangle in the case of a flat mesh,
/// in fixed-point coordinates.
#[derive(Debug, Clone, Copy, PartialEq, Eq, Structural)]
pub struct BoundingBox {
    /// The coordinates of the maximum point. The depth is zero if the
    /// mesh is flat.
    pub max: FixedVec3,

    /// The coordinates of the minimum point. The depth is zero if the
    /// mesh is flat.
    pub min: FixedVec3,
}

/// The degenerate all-zero box that stands for an empty mesh.
pub open spec fn zero_bbox() -> BoundingBox {
    BoundingBox {
        max: FixedVec3 { x: 0, y: 0, z: 0 },
        min: FixedVec3 { x: 0, y: 0, z: 0 },
    }
}

/// The combination of two boxes: the componentwise minimum of the two
/// minima and maximum of the two maxima.
pub open spec fn combine_spec(a: BoundingBox, b: BoundingBox) -> BoundingBox {
    BoundingBox {
        max: FixedVec3 {
            x: max_i64(a.max.x, b.max.x),
            y: max_i64(a.max.y, b.max.y),
            z: max_i64(a.max.z, b.max.z),
        },
        min: FixedVec3 {
            x: min_i64(a.min.x, b.min.x),
            y: min_i64(a.min.y, b.min.y),
            z: min_i64(a.min.z, b.min.z),
        },
    }
}

/// Whether both corners of a box are inside the transform input range.
pub open spec fn bbox_apply_in(b: BoundingBox) -> bool {
    vec3_apply_in(b.min) && vec3_apply_in(b.max)
}

/// Whether both corners of a box are inside the output range.
pub open spec fn bbox_out_range(b: BoundingBox) -> bool {
    vec3_out_range(b.min) && vec3_out_range(b.max)
}

impl BoundingBox {
    /// Creates a new bounding box from its two corner points.
    pub fn new(min: FixedVec3, max: FixedVec3) -> (r: Self)
        ensures
            r.min == min,
            r.max == max,
    {
        Self { max, min }
    }

    /// Creates the degenerate all-zero box of an empty mesh.
    pub fn empty() -> (r: Self)
        ensures
            r == zero_bbox(),
    {
        Self {
            max: FixedVec3 { x: 0, y: 0, z: 0 },
            min: FixedVec3 { x: 0, y: 0, z: 0 },
        }
    }

    /// The geometric center of this box: the minimum corner plus half
    /// of the extent, the half rounded toward zero.
    pub fn center(&self) -> (r: FixedVec3)
        requires
            -0x2000_0000_0000_0000 <= self.min.x <= 0x2000_0000_0000_0000,
            -0x2000_0000_0000_0000 <= self.min.y <= 0x2000_0000_0000_0000,
            -0x2000_0000_0000_0000 <= self.min.z <= 0x2000_0000_0000_0000,
            -0x2000_0000_0000_0000 <= self.max.x <= 0x2000_0000_0000_0000,
            -0x2000_0000_0000_0000 <= self.max.y <= 0x2000_0000_0000_0000,
            -0x2000_0000_0000_0000 <= self.max.z <= 0x2000_0000_0000_0000,
        ensures
            r.x == self.min.x + div_trunc(self.max.x - self.min.x, 2),
            r.y == self.min.y + div_trunc(self.max.y - self.min.y, 2),
            r.z == self.min.z + div_trunc(self.max.z - self.min.z, 2),
    {
        proof {
            crate::fixed::lemma_div_trunc_bounds(self.max.x - self.min.x, 2);
            crate::fixed::lemma_div_trunc_bounds(self.max.y - self.min.y, 2);
            crate::fixed::lemma_div_trunc_bounds(self.max.z - self.min.z, 2);
        }
        let hx = crate::fixed::div_fixed(self.max.x - self.min.x, 2);
        let hy = crate::fixed::div_fixed(self.max.y - self.min.y, 2);
        let hz = crate::fixed::div_fixed(self.max.z - self.min.z, 2);
        FixedVec3 { x: self.min.x + hx, y: self.min.y + hy, z: self.min.z + hz }
    }

    /// Combines this and another box into the smallest box holding
    /// both.
    pub fn combine(&self, other: &BoundingBox) -> (r: BoundingBox)
        ensures
            r == combine_spec(*self, *other),
    {
        let min = FixedVec3 {
            x: if self.min.x <= other.min.x { self.min.x } else { other.min.x },
            y: if self.min.y <= other.min.y { self.min.y } else { other.min.y },
            z: if self.min.z <= other.min.z { self.min.z } else { other.min.z },
        };
        let max = FixedVec3 {
            x: if self.max.x >= other.max.x { self.max.x } else { other.max.x },
            y: if self.max.y >= other.max.y { self.max.y } else { other.max.y },
            z: if self.max.z >= other.max.z { self.max.z } else { other.max.z },
        };
        BoundingBox::new(min, max)
    }

    /// The extent of this box along each axis, as a magnitude.
    pub fn size(&self) -> (r: FixedVec3)
        requires
            -0x2000_0000_0000_0000 <= self.min.x <= 0x2000_0000_0000_0000,
            -0x2000_0000_0000_0000 <= self.min.y <= 0x2000_0000_0000_0000,
            -0x2000_0000_0000_0000 <= self.min.z <= 0x2000_0000_0000_0000,
            -0x2000_0000_0000_0000 <= self.max.x <= 0x2000_0000_0000_0000,
            -0x2000_0000_0000_0000 <= self.max.y <= 0x2000_0000_0000_0000,
            -0x2000_0000_0000_0000 <= self.max.z <= 0x2000_0000_0000_0000,
        ensures
            r.x == if self.max.x >= self.min.x { self.max.x - self.min.x } else { self.min.x - self.max.x },
            r.y == if self.max.y >= self.min.y { self.max.y - self.min.y } else { self.min.y - self.max.y },
            r.z == if self.max.z >= self.min.z { self.max.z - self.min.z } else { self.min.z - self.max.z },
    {
        FixedVec3 {
            x: if self.max.x >= self.min.x { self.max.x - self.min.x } else { self.min.x - self.max.x },
            y: if self.max.y >= self.min.y { self.max.y - self.min.y } else { self.min.y - self.max.y },
            z: if self.max.z >= self.min.z { self.max.z - self.min.z } else { self.min.z - self.max.z },
        }
    }

    /// Applies the given column-major 4x4 transformation to both
    /// corner points of this box.
    pub fn transform(&mut self, transformation: &[i64; 16])
        requires
            mat4_apply_ok(transformation@),
            bbox_apply_in(*old(self)),
        ensures
            final(self).min == mat4_apply_spec(transformation@, old(self).min),
            final(self).max == mat4_apply_spec(transformation@, old(self).max),
            bbox_out_range(*final(self)),
    {
        self.min = mat4_apply(transformation, self.min);
        self.max = mat4_apply(transformation, self.max);
    }

    /// Applies the given column-major 3x3 transformation to both
    /// corner points of this box, flattening the depth to zero.
    pub fn transform_2d(&mut self, transformation: &[i64; 9])
        requires
            mat3_apply_ok(transformation@),
            bbox_apply_in(*old(self)),
        ensures
            final(self).min == mat3_apply_spec(transformation@, old(self).min),
            final(self).max == mat3_apply_spec(transformation@, old(self).max),
            bbox_out_range(*final(self)),
    {
        self.min = mat3_apply(transformation, self.min);
        self.max = mat3_apply(transformation, self.max);
    }

    /// The componentwise bounding box of a raw vertex buffer holding
    /// three coordinates per vertex: the zero box when the buffer is
    /// empty, and a vertex error when its length is not a multiple of
    /// three.
    pub fn from_vertices(vertices: &Vec<i64>) -> (r: Result<BoundingBox, MeshTextError>)
        ensures
            vertices@.len() % 3 != 0 ==> (r matches Err(MeshTextError::Vertex(VertexError))),
            vertices@.len() % 3 == 0 ==> r is Ok,
            r matches Ok(b) ==> {
                &&& vertices@.len() == 0 ==> b == zero_bbox()
                &&& vertices@.len() > 0 ==> {
                    &&& forall|i: int| 0 <= i < vertices@.len() ==> {
                        &&& (i % 3 == 0 ==> b.min.x <= #[trigger] vertices@[i] <= b.max.x)
                        &&& (i % 3 == 1 ==> b.min.y <= vertices@[i] <= b.max.y)
                        &&& (i % 3 == 2 ==> b.min.z <= vertices@[i] <= b.max.z)
                    }
                    &&& exists|i: int| 0 <= i < vertices@.len() && i % 3 == 0 && b.min.x
                        == #[trigger] vertices@[i]
                    &&& exists|i: int| 0 <= i < vertices@.len() && i % 3 == 0 && b.max.x
                        == #[trigger] vertices@[i]
                    &&& exists|i: int| 0 <= i < vertices@.len() && i % 3 == 1 && b.min.y
                        == #[trigger] vertices@[i]
                    &&& exists|i: int| 0 <= i < vertices@.len() && i % 3 == 1 && b.max.y
                        == #[trigger] vertices@[i]
                    &&& exists|i: int| 0 <= i < vertices@.len() && i % 3 == 2 && b.min.z
                        == #[trigger] vertices@[i]
                    &&& exists|i: int| 0 <= i < vertices@.len() && i % 3 == 2 && b.max.z
                        == #[trigger] vertices@[i]
                }
            },
    {
        if vertices.len() % 3 != 0 {
            return Err(MeshTextError::Vertex(VertexError));
        }
        if vertices.len() == 0 {
            return Ok(BoundingBox::empty());
        }
        let mut min = FixedVec3 { x: vertices[0], y: vertices[1], z: vertices[2] };
        let mut max = FixedVec3 { x: vertices[0], y: vertices[1], z: vertices[2] };
        let ghost v = vertices@;
        let mut k: usize = 3;
        while k < vertices.len()
            invariant
                v == vertices@,
                3 <= k <= v.len(),
                k % 3 == 0,
                v.len() % 3 == 0,
                v.len() >= 3,
                forall|i: int| 0 <= i < k && i < v.len() ==> {
                    &&& (i % 3 == 0 ==> min.x <= #[trigger] v[i] <= max.x)
                    &&& (i % 3 == 1 ==> min.y <= v[i] <= max.y)
                    &&& (i % 3 == 2 ==> min.z <= v[i] <= max.z)
                },
                exists|i: int| 0 <= i < k && i < v.len() && i % 3 == 0 && min.x == #[trigger] v[i],
                exists|i: int| 0 <= i < k && i < v.len() && i % 3 == 0 && max.x == #[trigger] v[i],
                exists|i: int| 0 <= i < k && i < v.len() && i % 3 == 1 && min.y == #[trigger] v[i],
                exists|i: int| 0 <= i < k && i < v.len() && i % 3 == 1 && max.y == #[trigger] v[i],
                exists|i: int| 0 <= i < k && i < v.len() && i % 3 == 2 && min.z == #[trigger] v[i],
                exists|i: int| 0 <= i < k && i < v.len() && i % 3 == 2 && max.z == #[trigger] v[i],
            decreases v.len() - k,
        {
            let x = vertices[k];
            let y = vertices[k + 1];
            let z = vertices[k + 2];
            if x < min.x {
                min.x = x;
            }
            if y < min.y {
                min.y = y;
            }
            if z < min.z {
                min.z = z;
            }
            if x > max.x {
                max.x = x;
            }
            if y > max.y {
                max.y = y;
            }
            if z > max.z {
                max.z = z;
            }
            k = k + 3;
        }
        Ok(BoundingBox::new(min, max))
    }
}

impl Default for BoundingBox {
    /// An inverted box whose maximum lies below its minimum, so that
    /// combining it with any real box yields that box.
    fn default() -> (r: Self)
        ensures
            r.max == (FixedVec3 {
                x: (-HALF_DEPTH) as i64,
                y: (-HALF_DEPTH) as i64,
                z: (-HALF_DEPTH) as i64,
            }),
            r.min == (FixedVec3 { x: HALF_DEPTH, y: HALF_DEPTH, z: HALF_DEPTH }),
    {
        Self {
            max: FixedVec3 { x: -HALF_DEPTH, y: -HALF_DEPTH, z: -HALF_DEPTH },
            min: FixedVec3 { x: HALF_DEPTH, y: HALF_DEPTH, z: HALF_DEPTH },
        }
    }
}

} // verus!
