//! Hobby: the decision logic of a small Vulkan renderer and its glTF tooling: queue,
//! swapchain and memory choices, frame handling, shader and texture decoding, meshes and
//! the glTF reports, each with its contract.
pub mod error;
pub mod settings;
pub mod text;
pub mod search;
pub mod renderer;
pub mod graphics;
pub mod path;
pub mod tools;
pub mod geometry;
pub mod game;
pub mod gpu;
pub mod timer;
