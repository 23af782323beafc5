//! Key triggers: an action together with the modifiers that must be held.
use vstd::prelude::*;
use crate::keyboard::key::is_known_key;
use crate::keyboard::key_action::{action_text, KeyAction};
use crate::keyboard::key_modifiers::{trigger_modifiers_text, TriggerModifiers};
use crate::text::push_str;

verus! {

/// A key action together with the modifiers that must be held for it to trigger a rule.
#[derive(Copy, Clone, Debug, PartialEq, Eq, Hash, Structural)]
pub struct KeyTrigger {
    pub action: KeyAction,
    pub modifiers: TriggerModifiers,
}

/// The text of a trigger: its modifiers, then its action.
pub open spec fn trigger_text(t: KeyTrigger) -> Seq<char> {
    trigger_modifiers_text(t.modifiers) + action_text(t.action)
}

impl KeyTrigger {
    /// The text of the trigger; see [`trigger_text`].
    pub fn to_string(&self) -> (r: String)
        requires
            is_known_key(self.action.key),
        ensures
            r@ == trigger_text(*self),
    {
        let mut r = self.modifiers.to_string();
        push_str(&mut r, &self.action.to_string());
        r
    }
}

} // verus!
