//! Rasterizes a vector image at a rational scale into an RGBA pixel buffer,
//! and decides when a window uploads that buffer as a texture.

pub mod display;
pub mod pixels;
pub mod raster;
pub mod scale;
pub mod surface;
