//! The terrain generators: a displaced, heightmap-backed chunk and a flat
//! reference chunk.

pub mod basic;
pub mod flat;
