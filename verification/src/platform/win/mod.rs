//! The Direct3D 11 layer: adapters, the device manager with its texture pool,
//! and the plans for pixel-format conversion.
//!
//! Nothing here touches the GPU. Every type holds the plain values that the
//! decisions read, and every operation either decides what the platform is to
//! be asked for or takes in what the platform answered.

pub mod adapter;
pub mod bmp;
pub mod device;
pub mod dump;
pub mod error;
pub mod shader;
pub mod texture;
pub mod utils;
pub mod video_processor;
