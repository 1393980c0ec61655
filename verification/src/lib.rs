//! A model of a minimal GPU pipeline: a compute kernel paints a gradient into
//! an off-screen image, and a render pass stretches that image onto a window
//! surface.  The library verifies the pipeline's logic: what the kernel
//! writes, how many workgroups a dispatch issues, how the surface
//! configuration reacts to resizes and to surface loss, and the frame loop's
//! acquire-retry policy.  The host side (window, device, shaders) performs
//! the GPU calls and drives this model.

pub mod color;
pub mod compute;
pub mod gpu;
pub mod render;
pub mod app;
