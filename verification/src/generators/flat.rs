//! The flat reference chunk: a zero-height grid mesh with reversed winding.
//!
//! The vertex lattice matches the displaced builder's, at height zero and
//! with no texture coordinates. Each triangle is emitted as the displaced
//! builder's corresponding triangle with its vertex order flipped, so the
//! flat mesh's front face points the opposite way from the displaced
//! mesh's; [`lemma_flat_winding_opposes_displaced`] states and proves that
//! relation.

use vstd::prelude::*;
use crate::generators::basic::{
    MAX_DIM,
    DEFAULT_DIM,
    displaced_index_at,
    lemma_quad_vertex_bounds,
    lemma_quad_positions,
};
use crate::mesh::{MeshData, Vertex3, PRIMITIVE_TRIANGLES, MESH_FORMAT_FLAGS};
use vstd::arithmetic::div_mod::lemma_fundamental_div_mod_converse;

verus! {

/// A flat terrain chunk: only its dimensions in cells; its mesh sits at
/// height zero everywhere.
pub struct FlatTerrain {
    chunk_width: u32,
    chunk_depth: u32,
}

impl FlatTerrain {
    /// Chunk width in cells.
    pub closed spec fn width(self) -> u32 {
        self.chunk_width
    }

    /// Chunk depth in cells.
    pub closed spec fn depth(self) -> u32 {
        self.chunk_depth
    }

    /// Both dimensions are small enough for every derived buffer length and
    /// index to fit its machine type.
    pub open spec fn dims_ok(self) -> bool {
        self.width() <= MAX_DIM && self.depth() <= MAX_DIM
    }

    /// A fresh chunk of the default dimensions.
    pub fn new() -> (t: Self)
        ensures
            t.width() == DEFAULT_DIM,
            t.depth() == DEFAULT_DIM,
            t.dims_ok(),
    {
        Self { chunk_width: DEFAULT_DIM, chunk_depth: DEFAULT_DIM }
    }

    /// Chunk width in cells.
    pub fn get_width(&self) -> (w: u32)
        ensures
            w == self.width(),
    {
        self.chunk_width
    }

    /// Chunk depth in cells.
    pub fn get_depth(&self) -> (d: u32)
        ensures
            d == self.depth(),
    {
        self.chunk_depth
    }

    /// Sets the chunk width in cells.
    pub fn set_width(&mut self, width: u32)
        requires
            width <= MAX_DIM,
        ensures
            final(self).width() == width,
            final(self).depth() == old(self).depth(),
    {
        self.chunk_width = width;
    }

    /// Sets the chunk depth in cells.
    pub fn set_depth(&mut self, depth: u32)
        requires
            depth <= MAX_DIM,
        ensures
            final(self).width() == old(self).width(),
            final(self).depth() == depth,
    {
        self.chunk_depth = depth;
    }

    /// Builds the flat grid mesh: one vertex per lattice point of the chunk
    /// at height zero, no texture coordinates, and two triangles per cell.
    /// The index buffer is the list described by [`flat_index_at`]: each
    /// triangle is the displaced builder's with its vertex order flipped,
    /// so the net winding — and with it the front face — is opposite to the
    /// displaced builder's.
    #[verifier::loop_isolation(false)]
    pub fn generate_terrain_mesh(&self) -> (m: MeshData)
        requires
            self.dims_ok(),
        ensures
            m.vertices@.len() == (self.width() + 1) * (self.depth() + 1),
            forall|i: int|
                0 <= i < m.vertices@.len() ==> #[trigger] m.vertices@[i] == (Vertex3 {
                    x: (i / (self.depth() + 1)) as u32,
                    height: 0,
                    z: (i % (self.depth() + 1)) as u32,
                }),
            m.uvs@.len() == 0,
            m.indices@.len() == 6 * self.width() * self.depth(),
            forall|k: int|
                0 <= k < m.indices@.len() ==> #[trigger] m.indices@[k] == flat_index_at(
                    self.depth() as int,
                    k,
                ),
            forall|k: int|
                0 <= k < m.indices@.len() ==> #[trigger] m.indices@[k] < (self.width() + 1) * (
                self.depth() + 1),
            m.primitive == PRIMITIVE_TRIANGLES,
            m.format_flags == MESH_FORMAT_FLAGS,
    {
        let w: usize = self.chunk_width as usize;
        let d: usize = self.chunk_depth as usize;
        let mut vertices: Vec<Vertex3> = Vec::new();
        for x in 0..(w + 1)
            invariant
                vertices@.len() == x * (d + 1),
                forall|i: int|
                    0 <= i < vertices@.len() ==> #[trigger] vertices@[i] == (Vertex3 {
                        x: (i / (d + 1)) as u32,
                        height: 0,
                        z: (i % (d + 1)) as u32,
                    }),
        {
            for y in 0..(d + 1)
                invariant
                    vertices@.len() == x * (d + 1) + y,
                    forall|i: int|
                        0 <= i < vertices@.len() ==> #[trigger] vertices@[i] == (Vertex3 {
                            x: (i / (d + 1)) as u32,
                            height: 0,
                            z: (i % (d + 1)) as u32,
                        }),
            {
                proof {
                    lemma_fundamental_div_mod_converse(x * (d + 1) + y, d + 1, x as int, y as int);
                }
                vertices.push(Vertex3 { x: x as u32, height: 0, z: y as u32 });
            }
            proof {
                assert((x + 1) * ((d as int) + 1) == x * ((d as int) + 1) + d + 1)
                    by (nonlinear_arith);
            }
        }
        let dw: u32 = self.chunk_depth;
        let mut indices: Vec<u32> = Vec::new();
        let mut vert: u32 = 0;
        proof {
            assert(0 * ((d as int) + 1) == 0) by (nonlinear_arith);
            assert(6 * (0 * (d as int)) == 0) by (nonlinear_arith);
        }
        for qx in 0..w
            invariant
                indices@.len() == 6 * (qx * d),
                vert == qx * (d + 1),
                forall|k: int|
                    0 <= k < indices@.len() ==> #[trigger] indices@[k]
                        == flat_index_at(d as int, k),
                forall|k: int|
                    0 <= k < indices@.len() ==> #[trigger] indices@[k] < (w + 1) * (d
                        + 1),
        {
            for qy in 0..d
                invariant
                    indices@.len() == 6 * (qx * d + qy),
                    vert == qx * (d + 1) + qy,
                    forall|k: int|
                        0 <= k < indices@.len() ==> #[trigger] indices@[k]
                            == flat_index_at(d as int, k),
                    forall|k: int|
                        0 <= k < indices@.len() ==> #[trigger] indices@[k] < (w + 1) * (
                        d + 1),
            {
                proof {
                    lemma_quad_vertex_bounds(w as int, d as int, qx as int, qy as int);
                    lemma_quad_positions(d as int, (qx * d + qy) as int, qx as int, qy as int);
                }
                indices.push(vert);
                indices.push(vert + 1);
                indices.push(vert + dw + 1);
                indices.push(vert + 1);
                indices.push(vert + dw + 2);
                indices.push(vert + dw + 1);
                vert = vert + 1;
            }
            proof {
                assert((qx + 1) * (d + 1) == qx * (d + 1) + d + 1) by (nonlinear_arith);
                assert((qx + 1) * d == qx * d + d) by (nonlinear_arith);
                assert((qx + 1) * ((d as int) + 1) <= 0x1000_8001) by (nonlinear_arith)
                    requires
                        0 <= qx && qx + 1 <= w,
                        0 <= d,
                        w <= 16384,
                        d <= 16384,
                ;
            }
            vert = vert + 1;
        }
        proof {
            assert(6 * (w * d) == 6 * self.width() * self.depth()) by (nonlinear_arith)
                requires
                    w == self.width() && d == self.depth(),
            ;
        }
        MeshData {
            vertices,
            uvs: Vec::new(),
            indices,
            primitive: PRIMITIVE_TRIANGLES,
            format_flags: MESH_FORMAT_FLAGS,
        }
    }
}

/// The value at position `k` of the flat index buffer for a chunk of depth
/// `d`: quad `k / 6` split into the two triangles `{v, v + 1, v + d + 1}`
/// and `{v + 1, v + d + 2, v + d + 1}` — each the displaced builder's
/// triangle with its vertex order flipped, the opposite orientation — where
/// `v` is the row-major vertex index of the quad's lower-left corner.
pub open spec fn flat_index_at(d: int, k: int) -> int {
    let quad = k / 6;
    let j = k % 6;
    let qx = quad / d;
    let qy = quad % d;
    let v = qx * (d + 1) + qy;
    if j == 0 {
        v
    } else if j == 1 {
        v + 1
    } else if j == 2 {
        v + d + 1
    } else if j == 3 {
        v + 1
    } else if j == 4 {
        v + d + 2
    } else {
        v + d + 1
    }
}

/// Law: the flat mesh's winding opposes the displaced mesh's. For every
/// quad `q` and each of its two triangles `t`, the flat builder's triangle
/// reads the same three corners as the displaced builder's and exchanges
/// the last two, an orientation reversal — so the flat front face points
/// the opposite way.
pub proof fn lemma_flat_winding_opposes_displaced(d: int, q: int, t: int)
    requires
        0 < d,
        0 <= q,
        0 <= t < 2,
    ensures
        flat_index_at(d, 6 * q + 3 * t) == displaced_index_at(d, 6 * q + 3 * t),
        flat_index_at(d, 6 * q + 3 * t + 1) == displaced_index_at(d, 6 * q + 3 * t + 2),
        flat_index_at(d, 6 * q + 3 * t + 2) == displaced_index_at(d, 6 * q + 3 * t + 1),
{
    assert forall|j: int| 0 <= j < 6 implies (6 * q + j) / 6 == q && #[trigger] ((6 * q + j) % 6)
        == j by {
        lemma_fundamental_div_mod_converse(6 * q + j, 6, q, j);
    }
}

} // verus!
