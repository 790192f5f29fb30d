//! Verified core of a small 2D renderer: scene geometry, device selection,
//! swapchain and pipeline configuration, and the frame submission protocol.

pub mod drawing;
pub mod events;
pub mod geometry;
pub mod math;
