//! The keyboard model: keys, actions, modifiers, triggers, rules and their lookup.
pub mod key;
pub mod key_action;
pub mod key_const;
pub mod key_event;
pub mod key_hook;
pub mod key_modifiers;
pub mod parse;
pub mod parsed_keys;
pub mod round_trip;
pub mod serialize;
pub mod key_trigger;
pub mod transform_map;
pub mod transform_matrix;
pub mod transform_rules;

use vstd::prelude::*;

verus! {

/// An error in reading a keyboard rule or profile.
#[derive(Clone, Debug, PartialEq, Eq)]
pub struct KeyError {
    pub message: String,
}

impl KeyError {
    /// An error with the given message.
    pub fn new(message: &str) -> (r: KeyError)
        ensures
            r.message@ == message@,
    {
        KeyError { message: message.to_string() }
    }
}

} // verus!
