//! The decisions of the keyboard hook: which keystrokes it replaces, and with what.
//!
//! The hook itself (installing it, reading the keyboard, sending input) is the caller's; each
//! keystroke goes through [`KeyboardHook::process`], whose reply says what to do with it.
use vstd::prelude::*;
use crate::keyboard::key_action::{action_input, KeyAction, KeyInput};
use crate::keyboard::key_event::KeyEvent;
use crate::keyboard::key_trigger::KeyTrigger;
use crate::keyboard::transform_map::{lookup, rules_map, KeyTransformMap};
use crate::keyboard::transform_matrix::in_table;
use crate::keyboard::transform_rules::{KeyTransformProfile, KeyTransformRule};

verus! {

/// The code with which the system hands the hook a keystroke to act on.
pub const HC_ACTION: i32 = 0;

/// What the hook does with a keystroke: hand it on to the next hook, or swallow it and send
/// the given inputs in its place.
#[derive(Debug, PartialEq, Eq)]
pub enum HookReply {
    PassOn,
    Replace(Vec<KeyInput>),
}

/// Whether every action of every rule of the map has a key whose input can be sent.
pub open spec fn all_sendable(rules: Map<KeyTrigger, Seq<KeyAction>>) -> bool {
    forall|t: KeyTrigger, i: int|
        rules.contains_key(t) && 0 <= i < rules[t].len() ==> in_table(#[trigger] rules[t][i])
}

/// The rule that applies to an event: none for a keystroke that this library sent itself
/// (injected, and carrying its marker); otherwise the one that the rules give for it.
pub open spec fn event_rule(rules: Map<KeyTrigger, Seq<KeyAction>>, event: KeyEvent) -> Option<
    (KeyTrigger, Seq<KeyAction>),
> {
    if event.is_injected && event.is_private {
        None
    } else {
        lookup(rules, event.action, event.modifiers_state)
    }
}

/// The reply to a keystroke: for a keystroke to act on that a rule applies to, the inputs of
/// the rule's actions in their order; in every other case, hand it on.
pub open spec fn reply_for(rules: Map<KeyTrigger, Seq<KeyAction>>, code: i32, event: KeyEvent) -> Option<
    Seq<KeyInput>,
> {
    if code != HC_ACTION {
        None
    } else {
        match event_rule(rules, event) {
            Some(rule) => Some(rule.1.map_values(|a: KeyAction| action_input(a))),
            None => None,
        }
    }
}

/// The hook never replaces a keystroke that this library sent itself, so the keystrokes it
/// sends in place of one are never replaced in turn; and it replaces a keystroke to act on
/// exactly when a rule applies to it, with the inputs of that rule's actions.
pub proof fn law_hook_replies(rules: Map<KeyTrigger, Seq<KeyAction>>, code: i32, event: KeyEvent)
    ensures
        event.is_injected && event.is_private ==> reply_for(rules, code, event) is None,
        code == HC_ACTION && !(event.is_injected && event.is_private) ==> (reply_for(
            rules,
            code,
            event,
        ) is Some <==> lookup(rules, event.action, event.modifiers_state) is Some),
        code != HC_ACTION ==> reply_for(rules, code, event) is None,
{
}

/// The state of the keyboard hook: the rules it applies and whether it keeps quiet about the
/// keystrokes it sees.
pub struct KeyboardHook {
    transform_map: KeyTransformMap,
    is_silent: bool,
}

impl KeyboardHook {
    /// Every rule that the hook applies can be sent.
    #[verifier::type_invariant]
    spec fn sendable(self) -> bool {
        all_sendable(self.transform_map@)
    }

    /// The rules that the hook applies.
    pub closed spec fn rules(self) -> Map<KeyTrigger, Seq<KeyAction>> {
        self.transform_map@
    }

    /// Whether the hook keeps quiet about the keystrokes it sees.
    pub closed spec fn silent(self) -> bool {
        self.is_silent
    }

    /// A hook with no rule, that tells about the keystrokes it sees.
    pub fn new() -> (r: Self)
        ensures
            r.rules() == Map::<KeyTrigger, Seq<KeyAction>>::empty(),
            !r.silent(),
    {
        KeyboardHook { transform_map: KeyTransformMap::new(), is_silent: false }
    }

    /// Applies the rules of a profile from now on, in place of the rules applied so far.
    pub fn load_profile(&mut self, profile: KeyTransformProfile)
        requires
            forall|i: int, j: int|
                0 <= i < profile.rules@.len() && 0 <= j < profile.rules@[i].1.len() ==> in_table(
                    #[trigger] profile.rules@[i].1[j],
                ),
        ensures
            final(self).rules() == rules_map(profile.rules@),
            final(self).silent() == old(self).silent(),
    {
        let ghost rules = profile.rules@;
        let map = KeyTransformMap::from_profile(profile);
        proof {
            lemma_rules_map_sendable(rules);
        }
        self.transform_map = map;
    }

    /// Whether the hook keeps quiet about the keystrokes it sees.
    pub fn is_silent(&self) -> (r: bool)
        ensures
            r == self.silent(),
    {
        self.is_silent
    }

    /// Makes the hook keep quiet, or tell, about the keystrokes it sees.
    pub fn set_silent(&mut self, silent: bool)
        ensures
            final(self).silent() == silent,
            final(self).rules() == old(self).rules(),
    {
        proof {
            use_type_invariant(&*self);
        }
        self.is_silent = silent;
    }

    /// Whether a listener, if there is one, hears of a keystroke: when the hook does not keep
    /// quiet.
    pub fn notifies(&self, has_listener: bool) -> (r: bool)
        ensures
            r == (has_listener && !self.silent()),
    {
        has_listener && !self.is_silent
    }

    /// The rule that applies to an event; see [`event_rule`].
    pub fn rule_for(&self, event: &KeyEvent) -> (r: Option<&KeyTransformRule>)
        ensures
            match r {
                Some(rule) => event_rule(self.rules(), *event) == Some(rule@),
                None => event_rule(self.rules(), *event) is None,
            },
    {
        if event.is_injected && event.is_private {
            None
        } else {
            self.transform_map.get(event)
        }
    }

    /// What to do with a keystroke that the system hands the hook with `code`; see
    /// [`reply_for`].
    pub fn process(&self, code: i32, event: &KeyEvent) -> (r: HookReply)
        ensures
            match r {
                HookReply::PassOn => reply_for(self.rules(), code, *event) is None,
                HookReply::Replace(inputs) => reply_for(self.rules(), code, *event) == Some(
                    inputs@,
                ),
            },
    {
        proof {
            use_type_invariant(self);
        }
        if code != HC_ACTION {
            return HookReply::PassOn;
        }
        match self.rule_for(event) {
            Some(rule) => {
                assert(self.rules().contains_key(rule@.0));
                assert forall|i: int| 0 <= i < rule.actions@.len() implies (
                #[trigger] rule.actions@[i]).key.scan_code < 136 by {
                    assert(in_table(self.rules()[rule@.0][i]));
                }
                HookReply::Replace(rule.actions.create_input())
            },
            None => HookReply::PassOn,
        }
    }
}

/// The map of rules whose actions can all be sent has actions that can all be sent.
proof fn lemma_rules_map_sendable(rules: Seq<(KeyTrigger, Seq<KeyAction>)>)
    requires
        forall|i: int, j: int|
            0 <= i < rules.len() && 0 <= j < rules[i].1.len() ==> in_table(
                #[trigger] rules[i].1[j],
            ),
    ensures
        all_sendable(rules_map(rules)),
    decreases rules.len(),
{
    if rules.len() > 0 {
        let init = rules.drop_last();
        assert forall|i: int, j: int|
            0 <= i < init.len() && 0 <= j < init[i].1.len() implies in_table(
            #[trigger] init[i].1[j],
        ) by {
            assert(init[i] == rules[i]);
        }
        lemma_rules_map_sendable(init);
        let last = rules.last();
        assert forall|t: KeyTrigger, i: int|
            rules_map(rules).contains_key(t) && 0 <= i < rules_map(rules)[t].len() implies in_table(
            #[trigger] rules_map(rules)[t][i],
        ) by {
            if t == last.0 {
                assert(in_table(rules[rules.len() - 1].1[i]));
            } else {
                assert(in_table(rules_map(init)[t][i]));
            }
        }
    }
}

impl Default for KeyboardHook {
    /// A hook with no rule, that tells about the keystrokes it sees.
    fn default() -> (r: Self)
        ensures
            r.rules() == Map::<KeyTrigger, Seq<KeyAction>>::empty(),
            !r.silent(),
    {
        Self::new()
    }
}

} // verus!
