pub mod mesh;
pub mod vertex;
