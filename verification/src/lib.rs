//! Deterministic, chunk-partitioned 2D world generation.
//!
//! For a 32-bit world seed and an integer chunk coordinate, the generator
//! derives a fixed-size grid of ground tiles and a list of spawned objects.
//! Terrain comes from a seeded multi-octave coherent-noise field sampled in
//! three channels (height, moisture, temperature); an ordered, first-match
//! biome classifier picks the biome for each cell; prototype registries turn
//! type identifiers into fresh tile and object instances.
//!
//! All scalar channels and probabilities are fixed-point values scaled by
//! [`fixed::FIXED_ONE`], so that generation is exact integer arithmetic.

pub mod biome;
pub mod biomes;
pub mod fixed;
pub mod generator;
pub mod laws;
pub mod noise_field;
pub mod objects;
pub mod rng;
pub mod tiles;
pub mod util;

use vstd::prelude::*;

verus! {

/// Tiles per chunk side; a chunk is `CHUNK_SIZE * CHUNK_SIZE` cells.
pub const CHUNK_SIZE: i64 = 16;

/// Pixel size of one tile; world pixel position = world coordinate times this.
pub const TILE_SIZE: i64 = 16;

} // verus!
