//! Numeric primitives shared by the samplers and mesh builders.

pub mod common;
