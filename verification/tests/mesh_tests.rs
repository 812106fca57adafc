//! Tests for the displaced and flat mesh builders.

use terrgen::generators::basic::BasicTerrain;
use terrgen::generators::flat::FlatTerrain;
use terrgen::mesh::{MESH_FORMAT_FLAGS, PRIMITIVE_TRIANGLES, UV_ONE};

fn displaced(width: u32, depth: u32) -> terrgen::mesh::MeshData {
    let mut t = BasicTerrain::new();
    t.set_width(width);
    t.set_depth(depth);
    t.generate_noise_map();
    t.generate_terrain_mesh()
}

fn flat(width: u32, depth: u32) -> terrgen::mesh::MeshData {
    let mut t = FlatTerrain::new();
    t.set_width(width);
    t.set_depth(depth);
    t.generate_terrain_mesh()
}

#[test]
fn displaced_unit_chunk_has_four_vertices_and_six_indices() {
    let m = displaced(1, 1);
    assert_eq!(m.vertices.len(), 4);
    assert_eq!(m.indices.len(), 6);
    // Two triangles with row stride depth + 1 = 2.
    assert_eq!(m.indices, vec![0, 2, 1, 1, 2, 3]);
}

#[test]
fn displaced_vertices_sit_on_the_lattice_at_heightmap_values() {
    let mut t = BasicTerrain::new();
    t.set_width(2);
    t.set_depth(3);
    t.generate_noise_map();
    let m = t.generate_terrain_mesh();
    for x in 0..3u32 {
        for y in 0..4u32 {
            let v = m.vertices[(x * 4 + y) as usize];
            assert_eq!(v.x, x);
            assert_eq!(v.z, y);
            assert_eq!(v.height, t.height_at(x as usize, y as usize));
        }
    }
}

#[test]
fn displaced_uvs_normalize_to_unit_range() {
    let m = displaced(2, 4);
    for x in 0..3u32 {
        for y in 0..5u32 {
            let uv = m.uvs[(x * 5 + y) as usize];
            assert_eq!(uv.u, x * UV_ONE / 2);
            assert_eq!(uv.v, y * UV_ONE / 4);
        }
    }
    // The far corner maps to exactly one on both axes.
    assert_eq!(m.uvs[14].u, UV_ONE);
    assert_eq!(m.uvs[14].v, UV_ONE);
}

#[test]
fn mesh_buffer_sizes_follow_the_dimensions() {
    let m = displaced(3, 2);
    assert_eq!(m.vertices.len(), 4 * 3);
    assert_eq!(m.uvs.len(), 4 * 3);
    assert_eq!(m.indices.len(), 3 * 2 * 6);
    let f = flat(5, 4);
    assert_eq!(f.vertices.len(), 6 * 5);
    assert_eq!(f.indices.len(), 5 * 4 * 6);
}

#[test]
fn mesh_indices_stay_inside_the_vertex_buffer() {
    let m = displaced(3, 2);
    for &i in m.indices.iter() {
        assert!((i as usize) < m.vertices.len());
    }
    let f = flat(4, 4);
    for &i in f.indices.iter() {
        assert!((i as usize) < f.vertices.len());
    }
}

#[test]
fn mesh_carries_topology_and_format_constants() {
    let m = displaced(1, 1);
    assert_eq!(m.primitive, PRIMITIVE_TRIANGLES);
    assert_eq!(m.format_flags, MESH_FORMAT_FLAGS);
    let f = flat(1, 1);
    assert_eq!(f.primitive, PRIMITIVE_TRIANGLES);
    assert_eq!(f.format_flags, MESH_FORMAT_FLAGS);
}

#[test]
fn flat_unit_chunk_is_four_zero_height_vertices_with_opposite_winding() {
    let m = flat(1, 1);
    assert_eq!(m.vertices.len(), 4);
    for v in m.vertices.iter() {
        assert_eq!(v.height, 0);
    }
    assert_eq!(m.uvs.len(), 0);
    // Each triangle is the displaced builder's ([0, 2, 1] and [1, 2, 3])
    // with its vertex order flipped, so the front face points the other
    // way.
    assert_eq!(m.indices, vec![0, 1, 2, 1, 3, 2]);
}

/// The two triangles read the same vertices in the same cyclic order.
fn same_cycle(a: [u32; 3], b: [u32; 3]) -> bool {
    b == a || b == [a[1], a[2], a[0]] || b == [a[2], a[0], a[1]]
}

#[test]
fn flat_triangles_oppose_displaced_winding() {
    let d = displaced(2, 2);
    let f = flat(2, 2);
    assert_eq!(d.indices.len(), f.indices.len());
    for t in 0..d.indices.len() / 3 {
        let dt = [d.indices[3 * t], d.indices[3 * t + 1], d.indices[3 * t + 2]];
        let ft = [f.indices[3 * t], f.indices[3 * t + 1], f.indices[3 * t + 2]];
        // Same three corners, opposite orientation: the flat triangle
        // matches the displaced one reversed, never unreversed.
        assert!(same_cycle([dt[2], dt[1], dt[0]], ft));
        assert!(!same_cycle(dt, ft));
    }
}

#[test]
fn flat_vertices_cover_the_lattice() {
    let m = flat(2, 3);
    for x in 0..3u32 {
        for y in 0..4u32 {
            let v = m.vertices[(x * 4 + y) as usize];
            assert_eq!(v.x, x);
            assert_eq!(v.height, 0);
            assert_eq!(v.z, y);
        }
    }
}

#[test]
fn flat_zero_size_chunk_yields_padding_free_buffers() {
    let m = flat(0, 0);
    assert_eq!(m.vertices.len(), 1);
    assert_eq!(m.indices.len(), 0);
}
