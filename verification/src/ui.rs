//! The logic behind the tray application: layouts, profiles, lock keys, keyboard lighting.
pub mod kb_light;
pub mod kb_watch;
pub mod layout;
pub mod log_view;
pub mod profile;
pub mod utils;
pub mod win_watch;
