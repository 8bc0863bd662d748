//! Hardware video codec discovery and GPU resource management.

pub mod common;
pub mod platform;
pub mod vram;
