pub mod base;
pub mod frame;
pub mod materials;
pub mod pipelines;
pub mod shaders;
pub mod swapchain;
