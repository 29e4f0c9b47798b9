//! A software 3D rendering core on fixed-point arithmetic.
//!
//! Meshes of vertices and triangle indices are transformed through a
//! model/view/projection chain, culled and flat-shaded per triangle, and
//! scanline-rasterized into an owned pixel buffer.  All geometry is carried
//! as fixed-point integers (scale 2^16), so every stage of the pipeline is
//! verified; a host program converts its floating-point scene data at the
//! boundary and displays the finished pixel buffer.

pub mod framebuffer;
pub mod fx;
pub mod laws;
pub mod mat4;
pub mod object;
pub mod raster;
pub mod render;
pub mod vec3;
