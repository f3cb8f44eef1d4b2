//! Verified core of OpenRec, a screen recorder with a non-destructive editor:
//! recording state, editor state and history, trimming, speed segments,
//! zoom timing, export planning and the small text formats the program uses.

pub mod project;
pub mod editor;
pub mod capture;
pub mod export;
pub mod text;
pub mod hotkeys;
pub mod ui;
pub mod app;
pub mod config;
pub mod effects;
pub mod tray;
