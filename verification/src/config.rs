//! The settings of the application, and their defaults.
use vstd::prelude::*;
use crate::keyboard::key_modifiers::{KeyModifiers, KM_NONE};

verus! {

/// Whether keystrokes are processed, and whether quietly.
#[derive(Copy, Clone, Debug, PartialEq, Eq, Structural)]
pub struct AppState {
    pub key_processing_enabled: bool,
    pub silent_key_processing: bool,
}

/// The values that settings take when the settings file leaves them out.
pub struct ConfigDefaults {}

impl ConfigDefaults {
    /// On.
    pub fn bool_true() -> (r: bool)
        ensures
            r,
    {
        true
    }

    /// Keystrokes processed, quietly.
    pub fn app_state() -> (r: AppState)
        ensures
            r == (AppState { key_processing_enabled: true, silent_key_processing: true }),
    {
        AppState { key_processing_enabled: true, silent_key_processing: true }
    }

    /// No modifier.
    pub fn km_none() -> (r: KeyModifiers)
        ensures
            r == KeyModifiers(KM_NONE),
    {
        KeyModifiers(KM_NONE)
    }
}

} // verus!
