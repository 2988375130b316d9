//! `cymg`: the verified core of a cyberpunk-style image effect.
//!
//! The library holds the integer logic of the effect: the seeded hash that
//! drives glitch rows and grain, the per-row channel shifts, clamped pixel
//! sampling, the scanline pattern, the command-line grammar, the output file
//! name and the frame order of the flash animation.

pub mod animation;
pub mod batch;
pub mod cli;
pub mod decimal;
pub mod effects;
pub mod output;
pub mod raster;
