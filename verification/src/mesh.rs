//! The renderable surface description that the mesh builders emit.
//!
//! A mesh is a tuple of buffers — positions, optional texture coordinates,
//! and triangle indices — plus the fixed topology tag and render-format flag
//! constant that the host renderer expects alongside them. Vertex heights are
//! integer height units (`1/2^24` of a world unit); texture coordinates are
//! integer units of `1/2^16`, normalized so that the far edge of the chunk
//! maps to one.

use vstd::prelude::*;

verus! {

/// Topology tag handed to the host renderer: the index buffer groups into
/// independent triangles.
pub const PRIMITIVE_TRIANGLES: u32 = 4;

/// Fixed render/material format flags handed to the host renderer together
/// with the buffers.
pub const MESH_FORMAT_FLAGS: u32 = 2194432;

/// One in texture-coordinate units: coordinates are carried as integer
/// multiples of `1/65536`.
pub const UV_ONE: u32 = 65536;

/// A vertex position on the terrain lattice: integer grid coordinates on the
/// X and Z axes and a height in height units on the Y axis.
#[derive(Clone, Copy, Debug, PartialEq, Eq, Structural)]
pub struct Vertex3 {
    /// Grid coordinate along the width (X) axis.
    pub x: u32,
    /// Elevation in height units of `1/2^24`.
    pub height: u32,
    /// Grid coordinate along the depth (Z) axis.
    pub z: u32,
}

/// A texture coordinate in units of `1/65536`, normalized to `[0, UV_ONE]`.
#[derive(Clone, Copy, Debug, PartialEq, Eq, Structural)]
pub struct UvCoord {
    /// Coordinate along the width axis.
    pub u: u32,
    /// Coordinate along the depth axis.
    pub v: u32,
}

/// A mesh surface: vertex positions, texture coordinates (empty for meshes
/// without a texture map), triangle indices into the vertex buffer, and the
/// fixed topology and format constants.
pub struct MeshData {
    /// One position per lattice point, row-major with depth as the inner
    /// axis.
    pub vertices: Vec<Vertex3>,
    /// One texture coordinate per vertex, or empty.
    pub uvs: Vec<UvCoord>,
    /// Triangle list: three vertex-buffer positions per triangle.
    pub indices: Vec<u32>,
    /// Always [`PRIMITIVE_TRIANGLES`].
    pub primitive: u32,
    /// Always [`MESH_FORMAT_FLAGS`].
    pub format_flags: u32,
}

} // verus!
