pub mod audio;
pub mod cursor;
pub mod pipeline;
pub mod pipewire_capture;
pub mod portal;
