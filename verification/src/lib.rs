//! Procedural terrain generation: a seeded random heightmap over a padded
//! grid, bilinear height and slope sampling at fixed-point coordinates, and
//! triangulated mesh construction for a displaced and a flat grid surface.
//!
//! Heights are carried as integer units of `1/2^24`, so a heightmap cell
//! holds a value in `[0, 1)` exactly; continuous positions are carried as
//! integer units of `1/2^16`. All arithmetic on these representations is
//! exact, and every contract states the result as integer arithmetic over
//! them.

pub mod generators;
pub mod math;
pub mod mesh;
mod rng;
