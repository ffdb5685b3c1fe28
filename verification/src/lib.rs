//! Catalog ordering and playback-session engine of a vinyl-style terminal
//! music player.

pub mod catalog;
pub mod clock;
pub mod keys;
pub mod loader;
pub mod natural;
pub mod navigation;
pub mod navigation_laws;
pub mod order_laws;
pub mod player;
pub mod session;
pub mod session_laws;
pub mod status;
pub mod text;
