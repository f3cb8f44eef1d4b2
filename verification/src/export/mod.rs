pub mod ffmpeg;
pub mod gif;
pub mod renderer;
