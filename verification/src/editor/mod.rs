pub mod annotations;
pub mod history;
pub mod preview;
pub mod speed;
pub mod state;
pub mod timeline;
pub mod zoom;
