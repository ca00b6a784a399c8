pub mod basic_pipeline;
