pub mod recorder_hud;
pub mod editor_window;
