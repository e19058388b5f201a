//! Rendering backends.

pub mod driver;
