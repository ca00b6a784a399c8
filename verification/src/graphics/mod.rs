pub mod base;
pub mod pipelines;
