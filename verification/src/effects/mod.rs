pub mod shader_pipeline;
