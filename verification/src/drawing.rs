//! Everything between the scene and the presentation surface.

pub mod context;
pub mod error;
pub mod objects;
pub mod renderer;
pub mod vulkan_helper;
