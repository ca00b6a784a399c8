pub mod basic;
pub mod textured;
