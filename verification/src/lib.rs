//! Deterministic core of a tile-based Monte Carlo path tracer.
//!
//! The renderer around this crate walks rays through a scene and resolves
//! them into pixel colors. This library holds the parts of that pipeline
//! whose behaviour is exact and machine-checkable: the pseudo-random stream
//! generator that hands every tile its own decorrelated sequence, the tile
//! scheduler that partitions an image into work units covering every pixel
//! exactly once, the resolution of render configuration (sample counts,
//! image dimensions), interval utilities, and the storage model for image
//! textures.

pub mod bvh;
pub mod config;
pub mod random;
pub mod span;
pub mod texture;
pub mod tiles;
