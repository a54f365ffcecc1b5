//! The frame logic of a WebGPU worker renderer: the cube's mesh topology,
//! the frame counters behind the stats panel, the choice of surface format
//! and extent, and what to do with each kind of acquired surface texture.

pub mod cube;
pub mod context;
pub mod frame_stats;
pub mod surface;
