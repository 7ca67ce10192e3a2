//! Deterministic honeycomb scenes and the bookkeeping of the two-stage
//! pipeline that draws them.

pub mod gpu;
pub mod grid;
pub mod params;
pub mod records;
pub mod scalar;
pub mod world;
