//! The displaced terrain chunk: a seeded random heightmap over a padded
//! grid, bilinear height and slope sampling, and the displaced mesh builder.
//!
//! Heights are integer height units — multiples of `1/2^24` of a world unit
//! — so every generated value lies in `[0, 1)` of a world unit exactly.
//! Continuous sampling positions are fixed-point numbers in units of
//! `1/2^16` ([`FRAC_ONE`]); the cell a position falls in is its quotient by
//! [`FRAC_ONE`], the fractional offset its remainder.

use vstd::prelude::*;
use vstd::arithmetic::div_mod::lemma_fundamental_div_mod_converse;
use crate::math::common::spec_lerp_num;
use crate::mesh::{MeshData, Vertex3, UvCoord, PRIMITIVE_TRIANGLES, MESH_FORMAT_FLAGS, UV_ONE};
use crate::rng::{rng_from_seed, draw_below};

verus! {

/// One whole height unit: heights are carried as integer multiples of
/// `1/16777216`, and every heightmap value is strictly below this, so the
/// stored field lies in `[0, 1)` of a world unit.
pub const HEIGHT_ONE: u32 = 16777216;

/// One whole grid cell in position units: continuous positions are carried
/// as integer multiples of `1/65536` of a cell.
pub const FRAC_ONE: u64 = 65536;

/// Largest chunk dimension accepted on either axis; keeps every buffer
/// length and every index computation inside the machine types.
pub const MAX_DIM: u32 = 16384;

/// Seed used when none is given, chosen once so that a chunk's terrain is
/// reproducible per configuration within a process.
pub const DEFAULT_SEED: u64 = 10;

/// Default chunk width and depth in cells.
pub const DEFAULT_DIM: u32 = 10;

/// A continuous sampling position over the chunk, in fixed-point units of
/// `1/65536` of a cell on each axis.
#[derive(Clone, Copy, Debug, PartialEq, Eq, Structural)]
pub struct TerrainPos {
    /// Position along the width (X) axis, in units of `1/65536`.
    pub x: u64,
    /// Position along the depth (Z) axis, in units of `1/65536`.
    pub y: u64,
}

/// The exact parts of a slope query: the height difference between the two
/// sample points and the squared horizontal distance between them. The
/// quotient `rise / sqrt(run_squared)` — not representable exactly, and
/// non-finite for coincident points — is left to the caller's numeric type.
#[derive(Clone, Copy, Debug, PartialEq, Eq, Structural)]
pub struct SlopeSample {
    /// Height at the first point minus height at the second, in height units
    /// scaled by `FRAC_ONE * FRAC_ONE`.
    pub rise: i64,
    /// Squared distance between the two points, in squared position units.
    pub run_squared: u64,
}

/// A displaced terrain chunk: its dimensions in cells and, once generated,
/// its heightmap over a `(width + 2) x (depth + 2)` padded grid.
pub struct BasicTerrain {
    chunk_width: u32,
    chunk_depth: u32,
    chunk_data: Vec<Vec<u32>>,
}

impl BasicTerrain {
    /// Chunk width in cells.
    pub closed spec fn width(self) -> u32 {
        self.chunk_width
    }

    /// Chunk depth in cells.
    pub closed spec fn depth(self) -> u32 {
        self.chunk_depth
    }

    /// The heightmap as a grid of height units, outer axis X, inner axis Y.
    pub closed spec fn map(self) -> Seq<Seq<u32>> {
        self.chunk_data@.map_values(|row: Vec<u32>| row@)
    }

    /// Both dimensions are small enough for every derived buffer length and
    /// index to fit its machine type.
    pub open spec fn dims_ok(self) -> bool {
        self.width() <= MAX_DIM && self.depth() <= MAX_DIM
    }

    /// A heightmap of the configured dimensions has been generated: the grid
    /// is `(width + 2) x (depth + 2)` — one cell of padding beyond the
    /// visible chunk on two sides — and every value is below one world unit.
    pub open spec fn generated(self) -> bool {
        &&& self.dims_ok()
        &&& self.map().len() == self.width() + 2
        &&& forall|x: int|
            0 <= x < self.map().len() ==> (#[trigger] self.map()[x]).len() == self.depth() + 2
        &&& forall|x: int, y: int|
            0 <= x < self.map().len() && 0 <= y < self.map()[x].len() ==> #[trigger] self.map()[x][y]
                < HEIGHT_ONE
    }

    /// The heightmap value at grid point `(x, y)`.
    pub open spec fn height_at_spec(self, x: int, y: int) -> u32 {
        self.map()[x][y]
    }

    /// The position lies over the visible chunk, `[0, width] x [0, depth]`;
    /// every sample a query at such a position reads is inside the padded
    /// grid.
    pub open spec fn pos_in_range(self, pos: TerrainPos) -> bool {
        pos.x <= self.width() * FRAC_ONE && pos.y <= self.depth() * FRAC_ONE
    }

    /// A fresh chunk of the default dimensions with no heightmap yet.
    pub fn new() -> (t: Self)
        ensures
            t.width() == DEFAULT_DIM,
            t.depth() == DEFAULT_DIM,
            t.map().len() == 0,
            t.dims_ok(),
    {
        Self { chunk_width: DEFAULT_DIM, chunk_depth: DEFAULT_DIM, chunk_data: Vec::new() }
    }

    /// Chunk width in cells.
    pub fn get_width(&self) -> (w: u32)
        ensures
            w == self.width(),
    {
        self.chunk_width
    }

    /// Chunk depth in cells.
    pub fn get_depth(&self) -> (d: u32)
        ensures
            d == self.depth(),
    {
        self.chunk_depth
    }

    /// Sets the chunk width in cells; the stored heightmap is untouched, so
    /// the chunk must be regenerated before it is sampled again.
    pub fn set_width(&mut self, width: u32)
        requires
            width <= MAX_DIM,
        ensures
            final(self).width() == width,
            final(self).depth() == old(self).depth(),
            final(self).map() == old(self).map(),
    {
        self.chunk_width = width;
    }

    /// Sets the chunk depth in cells; the stored heightmap is untouched, so
    /// the chunk must be regenerated before it is sampled again.
    pub fn set_depth(&mut self, depth: u32)
        requires
            depth <= MAX_DIM,
        ensures
            final(self).width() == old(self).width(),
            final(self).depth() == depth,
            final(self).map() == old(self).map(),
    {
        self.chunk_depth = depth;
    }

    /// The stored heightmap value at grid point `(x, y)` of the padded grid.
    pub fn height_at(&self, x: usize, y: usize) -> (h: u32)
        requires
            self.generated(),
            x < self.width() + 2,
            y < self.depth() + 2,
        ensures
            h == self.height_at_spec(x as int, y as int),
            h < HEIGHT_ONE,
    {
        proof {
            assert(self.map().len() == self.chunk_data@.len());
            assert(self.map()[x as int] == self.chunk_data@[x as int]@);
        }
        self.chunk_data[x][y]
    }

    /// Decides whether a heightmap matching the configured dimensions is in
    /// place, exactly as [`BasicTerrain::generated`] states it; sampling and
    /// mesh building are only permitted once this holds.
    #[verifier::loop_isolation(false)]
    pub fn is_generated(&self) -> (b: bool)
        ensures
            b == self.generated(),
    {
        if self.chunk_width > MAX_DIM || self.chunk_depth > MAX_DIM {
            return false;
        }
        if self.chunk_data.len() != self.chunk_width as usize + 2 {
            return false;
        }
        let d2: usize = self.chunk_depth as usize + 2;
        for x in 0..self.chunk_data.len()
            invariant
                self.map().len() == self.chunk_data@.len(),
                forall|i: int| 0 <= i < x ==> (#[trigger] self.map()[i]).len() == d2,
                forall|i: int, j: int|
                    0 <= i < x && 0 <= j < self.map()[i].len() ==> #[trigger] self.map()[i][j]
                        < HEIGHT_ONE,
        {
            proof {
                assert(self.map()[x as int] == self.chunk_data@[x as int]@);
            }
            if self.chunk_data[x].len() != d2 {
                proof {
                    assert((self.map()[x as int]).len() != self.depth() + 2);
                }
                return false;
            }
            for y in 0..d2
                invariant
                    x < self.chunk_data@.len(),
                    self.map()[x as int] == self.chunk_data@[x as int]@,
                    self.map()[x as int].len() == d2,
                    forall|j: int| 0 <= j < y ==> #[trigger] self.map()[x as int][j] < HEIGHT_ONE,
            {
                if self.chunk_data[x][y] >= HEIGHT_ONE {
                    return false;
                }
            }
        }
        true
    }

    /// Fills the heightmap with independently drawn uniform values in
    /// `[0, 1)` of a world unit, using the default seed, so that the terrain
    /// of a chunk configuration is reproducible within a process.
    pub fn generate_noise_map(&mut self)
        requires
            old(self).dims_ok(),
        ensures
            final(self).generated(),
            final(self).width() == old(self).width(),
            final(self).depth() == old(self).depth(),
    {
        self.generate_noise_map_seeded(DEFAULT_SEED);
    }

    /// Fills the heightmap from the given seed: a `(width + 2) x (depth + 2)`
    /// grid of values each drawn uniformly from `[0, 1)` of a world unit, in
    /// row-then-column order.
    pub fn generate_noise_map_seeded(&mut self, seed: u64)
        requires
            old(self).dims_ok(),
        ensures
            final(self).generated(),
            final(self).width() == old(self).width(),
            final(self).depth() == old(self).depth(),
    {
        let w2: usize = self.chunk_width as usize + 2;
        let d2: usize = self.chunk_depth as usize + 2;
        let mut rng = rng_from_seed(seed);
        let mut map: Vec<Vec<u32>> = Vec::new();
        for x in 0..w2
            invariant
                map@.len() == x,
                forall|i: int| 0 <= i < x ==> (#[trigger] map@[i])@.len() == d2,
                forall|i: int, j: int|
                    0 <= i < x && 0 <= j < d2 ==> (#[trigger] map@[i]@[j]) < HEIGHT_ONE,
        {
            let mut row: Vec<u32> = Vec::new();
            for y in 0..d2
                invariant
                    row@.len() == y,
                    forall|j: int| 0 <= j < y ==> (#[trigger] row@[j]) < HEIGHT_ONE,
            {
                row.push(draw_below(&mut rng, HEIGHT_ONE));
            }
            map.push(row);
        }
        self.chunk_data = map;
    }

    /// The bilinear interpolation of the four heightmap samples around
    /// `pos`, as an exact integer scaled by `FRAC_ONE * FRAC_ONE`: the cell
    /// is the quotient of each coordinate by `FRAC_ONE`, the fractional
    /// offset its remainder, and the same symmetric interpolation formula is
    /// applied on both axes — first along X between each pair of samples,
    /// then along Y between the two results.
    pub open spec fn bilinear_spec(self, pos: TerrainPos) -> int {
        let x0 = pos.x as int / FRAC_ONE as int;
        let y0 = pos.y as int / FRAC_ONE as int;
        let fx = pos.x as int % FRAC_ONE as int;
        let fy = pos.y as int % FRAC_ONE as int;
        let i0 = spec_lerp_num(
            self.map()[x0][y0] as int,
            self.map()[x0 + 1][y0] as int,
            fx,
            FRAC_ONE as int,
        );
        let i1 = spec_lerp_num(
            self.map()[x0][y0 + 1] as int,
            self.map()[x0 + 1][y0 + 1] as int,
            fx,
            FRAC_ONE as int,
        );
        spec_lerp_num(i0, i1, fy, FRAC_ONE as int)
    }

    /// The terrain height under a continuous position: the exact bilinear
    /// interpolation of the four surrounding heightmap samples, returned in
    /// height units scaled by `FRAC_ONE * FRAC_ONE`.
    pub fn get_terrain_height(&self, pos: TerrainPos) -> (h: u64)
        requires
            self.generated(),
            self.pos_in_range(pos),
        ensures
            h == self.bilinear_spec(pos),
            h < 0x100_0000_0000_0000,
    {
        let xi: usize = (pos.x / FRAC_ONE) as usize;
        let yi: usize = (pos.y / FRAC_ONE) as usize;
        let fx: u64 = pos.x % FRAC_ONE;
        let fy: u64 = pos.y % FRAC_ONE;
        proof {
            assert(xi <= self.width());
            assert(yi <= self.depth());
            assert(self.map().len() == self.chunk_data@.len());
            assert(self.map()[xi as int] == self.chunk_data@[xi as int]@);
            assert(self.map()[xi as int + 1] == self.chunk_data@[xi as int + 1]@);
        }
        let p1 = self.chunk_data[xi][yi];
        let p2 = self.chunk_data[xi + 1][yi];
        let p3 = self.chunk_data[xi][yi + 1];
        let p4 = self.chunk_data[xi + 1][yi + 1];
        proof {
            lemma_bilinear_inner_bounds(fx as int, p1 as int, p2 as int);
            lemma_bilinear_inner_bounds(fx as int, p3 as int, p4 as int);
        }
        let i0: u64 = (FRAC_ONE - fx) * (p1 as u64) + fx * (p2 as u64);
        let i1: u64 = (FRAC_ONE - fx) * (p3 as u64) + fx * (p4 as u64);
        proof {
            lemma_bilinear_outer_bounds(fy as int, i0 as int, i1 as int);
        }
        (FRAC_ONE - fy) * i0 + fy * i1
    }

    /// The exact parts of the slope between two sample points: the height
    /// difference (first minus second, in scaled height units) and the
    /// squared horizontal distance. The squared distance is zero exactly for
    /// coincident points — the one input on which the slope quotient itself
    /// has no finite value.
    pub fn get_terrain_slope(&self, pos1: TerrainPos, pos2: TerrainPos) -> (s: SlopeSample)
        requires
            self.generated(),
            self.pos_in_range(pos1),
            self.pos_in_range(pos2),
        ensures
            s.rise == self.bilinear_spec(pos1) - self.bilinear_spec(pos2),
            s.run_squared == (pos1.x - pos2.x) * (pos1.x - pos2.x) + (pos1.y - pos2.y) * (
            pos1.y - pos2.y),
            s.run_squared == 0 <==> pos1 == pos2,
    {
        let h1 = self.get_terrain_height(pos1);
        let h2 = self.get_terrain_height(pos2);
        let rise: i64 = (h1 as i64) - (h2 as i64);
        let dx: u64 = if pos1.x >= pos2.x {
            pos1.x - pos2.x
        } else {
            pos2.x - pos1.x
        };
        let dy: u64 = if pos1.y >= pos2.y {
            pos1.y - pos2.y
        } else {
            pos2.y - pos1.y
        };
        proof {
            assert(dx <= 0x4000_0000);
            assert(dy <= 0x4000_0000);
            assert((pos2.x - pos1.x) * (pos2.x - pos1.x) == (pos1.x - pos2.x) * (pos1.x
                - pos2.x)) by (nonlinear_arith);
            assert((pos2.y - pos1.y) * (pos2.y - pos1.y) == (pos1.y - pos2.y) * (pos1.y
                - pos2.y)) by (nonlinear_arith);
            assert(dx * dx <= 0x1000_0000_0000_0000 && dy * dy <= 0x1000_0000_0000_0000)
                by (nonlinear_arith)
                requires
                    dx <= 0x4000_0000,
                    dy <= 0x4000_0000,
            ;
            assert((dx * dx + dy * dy == 0) <==> (dx == 0 && dy == 0)) by (nonlinear_arith);
        }
        let run_squared: u64 = dx * dx + dy * dy;
        SlopeSample { rise, run_squared }
    }

    /// Builds the displaced grid mesh: one vertex per lattice point of the
    /// visible chunk at its heightmap elevation, texture coordinates
    /// normalized to `[0, UV_ONE]`, and two triangles per cell whose winding
    /// faces the front side up for a right-handed, Y-up convention.
    #[verifier::loop_isolation(false)]
    pub fn generate_terrain_mesh(&self) -> (m: MeshData)
        requires
            self.generated(),
            1 <= self.width(),
            1 <= self.depth(),
        ensures
            m.vertices@.len() == (self.width() + 1) * (self.depth() + 1),
            forall|i: int|
                0 <= i < m.vertices@.len() ==> #[trigger] m.vertices@[i] == (Vertex3 {
                    x: (i / (self.depth() + 1)) as u32,
                    height: self.height_at_spec(i / (self.depth() + 1), i % (self.depth() + 1)),
                    z: (i % (self.depth() + 1)) as u32,
                }),
            m.uvs@.len() == m.vertices@.len(),
            forall|i: int|
                0 <= i < m.uvs@.len() ==> #[trigger] m.uvs@[i] == (UvCoord {
                    u: ((i / (self.depth() + 1)) * (UV_ONE as int) / (self.width() as int)) as u32,
                    v: ((i % (self.depth() + 1)) * (UV_ONE as int) / (self.depth() as int)) as u32,
                }),
            m.indices@.len() == 6 * self.width() * self.depth(),
            forall|k: int|
                0 <= k < m.indices@.len() ==> #[trigger] m.indices@[k] == displaced_index_at(
                    self.depth() as int,
                    k,
                ),
            forall|k: int|
                0 <= k < m.indices@.len() ==> #[trigger] m.indices@[k] < (self.width() + 1) * (
                self.depth() + 1),
            m.primitive == PRIMITIVE_TRIANGLES,
            m.format_flags == MESH_FORMAT_FLAGS,
    {
        let w: usize = self.chunk_width as usize;
        let d: usize = self.chunk_depth as usize;
        let mut vertices: Vec<Vertex3> = Vec::new();
        let mut uvs: Vec<UvCoord> = Vec::new();
        for x in 0..(w + 1)
            invariant
                vertices@.len() == x * (d + 1),
                uvs@.len() == x * (d + 1),
                forall|i: int|
                    0 <= i < vertices@.len() ==> #[trigger] vertices@[i] == (Vertex3 {
                        x: (i / (d + 1)) as u32,
                        height: self.height_at_spec(i / (d + 1), i % (d + 1)),
                        z: (i % (d + 1)) as u32,
                    }),
                forall|i: int|
                    0 <= i < uvs@.len() ==> #[trigger] uvs@[i] == (UvCoord {
                        u: ((i / (d + 1)) * (UV_ONE as int) / (w as int)) as u32,
                        v: ((i % (d + 1)) * (UV_ONE as int) / (d as int)) as u32,
                    }),
        {
            for y in 0..(d + 1)
                invariant
                    vertices@.len() == x * (d + 1) + y,
                    uvs@.len() == x * (d + 1) + y,
                    forall|i: int|
                        0 <= i < vertices@.len() ==> #[trigger] vertices@[i] == (Vertex3 {
                            x: (i / (d + 1)) as u32,
                            height: self.height_at_spec(i / (d + 1), i % (d + 1)),
                            z: (i % (d + 1)) as u32,
                        }),
                    forall|i: int|
                        0 <= i < uvs@.len() ==> #[trigger] uvs@[i] == (UvCoord {
                            u: ((i / (d + 1)) * (UV_ONE as int) / (w as int)) as u32,
                            v: ((i % (d + 1)) * (UV_ONE as int) / (d as int)) as u32,
                        }),
            {
                proof {
                    lemma_fundamental_div_mod_converse(
                        x * (d + 1) + y,
                        d + 1,
                        x as int,
                        y as int,
                    );
                    assert(self.map()[x as int] == self.chunk_data@[x as int]@);
                }
                vertices.push(
                    Vertex3 { x: x as u32, height: self.chunk_data[x][y], z: y as u32 },
                );
                uvs.push(
                    UvCoord {
                        u: (x as u32 * UV_ONE) / self.chunk_width,
                        v: (y as u32 * UV_ONE) / self.chunk_depth,
                    },
                );
            }
            proof {
                assert((x + 1) * ((d as int) + 1) == x * ((d as int) + 1) + d + 1)
                    by (nonlinear_arith);
            }
        }
        let dw: u32 = self.chunk_depth;
        let mut indices: Vec<u32> = Vec::new();
        let mut vert: u32 = 0;
        proof {
            assert(0 * ((d as int) + 1) == 0) by (nonlinear_arith);
            assert(6 * (0 * (d as int)) == 0) by (nonlinear_arith);
        }
        for qx in 0..w
            invariant
                indices@.len() == 6 * (qx * d),
                vert == qx * (d + 1),
                forall|k: int|
                    0 <= k < indices@.len() ==> #[trigger] indices@[k] == displaced_index_at(
                        d as int,
                        k,
                    ),
                forall|k: int|
                    0 <= k < indices@.len() ==> #[trigger] indices@[k] < (w + 1) * (d + 1),
        {
            for qy in 0..d
                invariant
                    indices@.len() == 6 * (qx * d + qy),
                    vert == qx * (d + 1) + qy,
                    forall|k: int|
                        0 <= k < indices@.len() ==> #[trigger] indices@[k] == displaced_index_at(
                            d as int,
                            k,
                        ),
                    forall|k: int|
                        0 <= k < indices@.len() ==> #[trigger] indices@[k] < (w + 1) * (d + 1),
            {
                proof {
                    lemma_quad_vertex_bounds(w as int, d as int, qx as int, qy as int);
                    lemma_quad_positions(d as int, (qx * d + qy) as int, qx as int, qy as int);
                }
                indices.push(vert);
                indices.push(vert + dw + 1);
                indices.push(vert + 1);
                indices.push(vert + 1);
                indices.push(vert + dw + 1);
                indices.push(vert + dw + 2);
                vert = vert + 1;
            }
            proof {
                assert((qx + 1) * (d + 1) == qx * (d + 1) + d + 1) by (nonlinear_arith);
                assert((qx + 1) * d == qx * d + d) by (nonlinear_arith);
                assert((qx + 1) * ((d as int) + 1) <= 0x1000_8001) by (nonlinear_arith)
                    requires
                        0 <= qx && qx + 1 <= w,
                        0 <= d,
                        w <= 16384,
                        d <= 16384,
                ;
            }
            vert = vert + 1;
        }
        proof {
            assert(6 * (w * d) == 6 * self.width() * self.depth()) by (nonlinear_arith)
                requires
                    w == self.width() && d == self.depth(),
            ;
        }
        MeshData {
            vertices,
            uvs,
            indices,
            primitive: PRIMITIVE_TRIANGLES,
            format_flags: MESH_FORMAT_FLAGS,
        }
    }
}

/// The value at position `k` of the displaced index buffer for a chunk of
/// depth `d`: quad number `k / 6` — laid out row-major, depth inner — split
/// into its two triangles `{v, v + d + 1, v + 1}` and
/// `{v + 1, v + d + 1, v + d + 2}`, where `v` is the row-major vertex index
/// of the quad's lower-left corner.
pub open spec fn displaced_index_at(d: int, k: int) -> int {
    let quad = k / 6;
    let j = k % 6;
    let qx = quad / d;
    let qy = quad % d;
    let v = qx * (d + 1) + qy;
    if j == 0 {
        v
    } else if j == 1 {
        v + d + 1
    } else if j == 2 {
        v + 1
    } else if j == 3 {
        v + 1
    } else if j == 4 {
        v + d + 1
    } else {
        v + d + 2
    }
}

/// A quad's four vertex indices all lie inside the vertex buffer, and well
/// inside `u32`.
pub(crate) proof fn lemma_quad_vertex_bounds(w: int, d: int, qx: int, qy: int) by (nonlinear_arith)
    requires
        0 <= qx < w,
        0 <= qy < d,
        w <= 16384,
        d <= 16384,
    ensures
        0 <= qx * (d + 1) + qy,
        qx * (d + 1) + qy + d + 2 < (w + 1) * (d + 1),
        (w + 1) * (d + 1) <= 0x1000_8001,
{
}

/// Splitting a buffer position into its quad number and offset: position
/// `6 * quad + j` of the index buffer belongs to quad `quad`, which is quad
/// `(qx, qy)` of the row-major quad grid.
pub(crate) proof fn lemma_quad_positions(d: int, quad: int, qx: int, qy: int)
    requires
        0 < d,
        0 <= qy < d,
        quad == qx * d + qy,
        0 <= qx,
    ensures
        forall|j: int|
            0 <= j < 6 ==> (6 * quad + j) / 6 == quad && #[trigger] ((6 * quad + j) % 6) == j,
        quad / d == qx,
        quad % d == qy,
{
    assert forall|j: int| 0 <= j < 6 implies (6 * quad + j) / 6 == quad && #[trigger] ((6 * quad
        + j) % 6) == j by {
        lemma_fundamental_div_mod_converse(6 * quad + j, 6, quad, j);
    }
    lemma_fundamental_div_mod_converse(quad, d, qx, qy);
}

/// Law: at an exact lattice point — both fractional offsets zero — the
/// bilinear interpolation degenerates to the heightmap value at that grid
/// point itself, scaled by `FRAC_ONE * FRAC_ONE`.
pub proof fn lemma_height_at_lattice(t: BasicTerrain, pos: TerrainPos)
    requires
        t.generated(),
        t.pos_in_range(pos),
        pos.x % FRAC_ONE == 0,
        pos.y % FRAC_ONE == 0,
    ensures
        t.bilinear_spec(pos) == t.height_at_spec(
            pos.x as int / FRAC_ONE as int,
            pos.y as int / FRAC_ONE as int,
        ) * (FRAC_ONE * FRAC_ONE),
{
    let p = t.height_at_spec(pos.x as int / FRAC_ONE as int, pos.y as int / FRAC_ONE as int) as int;
    assert(t.bilinear_spec(pos) == 65536 * (65536 * p));
    assert(65536 * (65536 * p) == p * (65536 * 65536)) by (nonlinear_arith);
}

/// The inner interpolation of two height samples by a fractional offset
/// stays below one height unit scaled by `FRAC_ONE`, and each of its two
/// products fits comfortably in a machine word.
proof fn lemma_bilinear_inner_bounds(f: int, a: int, b: int) by (nonlinear_arith)
    requires
        0 <= f < 65536,
        0 <= a < 16777216,
        0 <= b < 16777216,
    ensures
        0 <= (65536 - f) * a < 0x100_0000_0000,
        0 <= f * b < 0x100_0000_0000,
        0 <= (65536 - f) * a + f * b < 0x100_0000_0000,
{
}

/// The outer interpolation of two inner results by a fractional offset
/// stays below one height unit scaled by `FRAC_ONE * FRAC_ONE`.
proof fn lemma_bilinear_outer_bounds(f: int, a: int, b: int) by (nonlinear_arith)
    requires
        0 <= f < 65536,
        0 <= a < 0x100_0000_0000,
        0 <= b < 0x100_0000_0000,
    ensures
        0 <= (65536 - f) * a < 0x100_0000_0000_0000,
        0 <= f * b < 0x100_0000_0000_0000,
        0 <= (65536 - f) * a + f * b < 0x100_0000_0000_0000,
{
}

} // verus!
