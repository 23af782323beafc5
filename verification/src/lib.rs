//! A keyboard remapping library: keys, key actions, modifiers, triggers and the
//! transformation rules that map a trigger to a sequence of key actions.
pub mod config;
pub mod keyboard;
pub mod key_transition;
pub mod profile;
pub mod text;
pub mod ui;
