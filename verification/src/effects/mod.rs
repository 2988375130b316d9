//! Building blocks of the cyberpunk effect.

pub mod bloom;
pub mod math;
pub mod pipeline;
