pub mod frame_timer;
pub mod gltf;
