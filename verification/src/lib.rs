//! Rendering into a single drawable surface: the surface abstraction, the
//! driver capability, and the bring-up protocol of the GPU-backed driver.
//!
//! The library performs no GPU work itself. Every operation that needs the
//! platform is emitted as a [`render::driver::wgpu::Request`]; the host carries
//! it out and answers with a [`render::driver::wgpu::Reply`].

pub mod app;
pub mod render;
