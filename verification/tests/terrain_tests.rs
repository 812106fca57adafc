//! Tests for the heightmap generator and the height/slope sampler.

use terrgen::generators::basic::{BasicTerrain, TerrainPos, FRAC_ONE, HEIGHT_ONE};

fn generated_terrain(width: u32, depth: u32) -> BasicTerrain {
    let mut t = BasicTerrain::new();
    t.set_width(width);
    t.set_depth(depth);
    t.generate_noise_map();
    t
}

#[test]
fn defaults_are_ten_by_ten() {
    let t = BasicTerrain::new();
    assert_eq!(t.get_width(), 10);
    assert_eq!(t.get_depth(), 10);
    assert!(!t.is_generated());
}

#[test]
fn setters_update_dimensions() {
    let mut t = BasicTerrain::new();
    t.set_width(3);
    t.set_depth(7);
    assert_eq!(t.get_width(), 3);
    assert_eq!(t.get_depth(), 7);
}

#[test]
fn heightmap_covers_padded_grid_with_unit_values() {
    let t = generated_terrain(3, 2);
    assert!(t.is_generated());
    // Every cell of the padded (3+2) x (2+2) grid holds a value in [0, 1)
    // of a world unit, i.e. below HEIGHT_ONE height units.
    for x in 0..5 {
        for y in 0..4 {
            assert!(t.height_at(x, y) < HEIGHT_ONE);
        }
    }
}

#[test]
fn zero_dimensions_still_generate_padding_only_grid() {
    let t = generated_terrain(0, 0);
    assert!(t.is_generated());
    for x in 0..2 {
        for y in 0..2 {
            assert!(t.height_at(x, y) < HEIGHT_ONE);
        }
    }
}

#[test]
fn generation_is_deterministic_per_configuration() {
    let a = generated_terrain(4, 3);
    let b = generated_terrain(4, 3);
    for x in 0..6 {
        for y in 0..5 {
            assert_eq!(a.height_at(x, y), b.height_at(x, y));
        }
    }
}

#[test]
fn default_seed_matches_explicit_seed_ten() {
    let a = generated_terrain(4, 4);
    let mut b = BasicTerrain::new();
    b.set_width(4);
    b.set_depth(4);
    b.generate_noise_map_seeded(10);
    for x in 0..6 {
        for y in 0..6 {
            assert_eq!(a.height_at(x, y), b.height_at(x, y));
        }
    }
}

#[test]
fn different_seed_changes_the_map() {
    let mut a = BasicTerrain::new();
    a.generate_noise_map_seeded(10);
    let mut b = BasicTerrain::new();
    b.generate_noise_map_seeded(11);
    let mut differs = false;
    for x in 0..12 {
        for y in 0..12 {
            if a.height_at(x, y) != b.height_at(x, y) {
                differs = true;
            }
        }
    }
    assert!(differs);
}

#[test]
fn height_at_lattice_points_is_the_heightmap_value() {
    let t = generated_terrain(4, 3);
    for x in 0..5u64 {
        for y in 0..4u64 {
            let pos = TerrainPos { x: x * FRAC_ONE, y: y * FRAC_ONE };
            let expected = t.height_at(x as usize, y as usize) as u64 * FRAC_ONE * FRAC_ONE;
            assert_eq!(t.get_terrain_height(pos), expected);
        }
    }
}

#[test]
fn height_between_lattice_points_is_bilinear() {
    let t = generated_terrain(2, 2);
    // Halfway along X at Y = 0: the mean of the two samples, scaled.
    let p1 = t.height_at(0, 0) as u64;
    let p2 = t.height_at(1, 0) as u64;
    let fx = FRAC_ONE / 2;
    let expected = ((FRAC_ONE - fx) * p1 + fx * p2) * FRAC_ONE;
    let pos = TerrainPos { x: fx, y: 0 };
    assert_eq!(t.get_terrain_height(pos), expected);
}

#[test]
fn height_general_point_matches_formula() {
    let t = generated_terrain(2, 2);
    let pos = TerrainPos { x: FRAC_ONE + 1234, y: 40000 };
    let p1 = t.height_at(1, 0) as u64;
    let p2 = t.height_at(2, 0) as u64;
    let p3 = t.height_at(1, 1) as u64;
    let p4 = t.height_at(2, 1) as u64;
    let fx = 1234u64;
    let fy = 40000u64;
    let i0 = (FRAC_ONE - fx) * p1 + fx * p2;
    let i1 = (FRAC_ONE - fx) * p3 + fx * p4;
    let expected = (FRAC_ONE - fy) * i0 + fy * i1;
    assert_eq!(t.get_terrain_height(pos), expected);
}

#[test]
fn slope_parts_are_exact() {
    let t = generated_terrain(3, 3);
    let pos1 = TerrainPos { x: 0, y: 0 };
    let pos2 = TerrainPos { x: FRAC_ONE, y: 0 };
    let s = t.get_terrain_slope(pos1, pos2);
    let h1 = t.get_terrain_height(pos1) as i64;
    let h2 = t.get_terrain_height(pos2) as i64;
    assert_eq!(s.rise, h1 - h2);
    assert_eq!(s.run_squared, FRAC_ONE * FRAC_ONE);
}

#[test]
fn slope_at_coincident_points_is_non_finite() {
    let t = generated_terrain(3, 3);
    let p = TerrainPos { x: 3 * FRAC_ONE / 2, y: FRAC_ONE };
    let s = t.get_terrain_slope(p, p);
    assert_eq!(s.run_squared, 0);
    // The slope quotient itself, taken in floating point as the host does:
    // rise over the square root of a zero squared distance is not finite.
    let slope = s.rise as f32 / (s.run_squared as f32).sqrt();
    assert!(!slope.is_finite());
}
