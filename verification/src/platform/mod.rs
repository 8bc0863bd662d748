//! Platform layers.

pub mod win;
