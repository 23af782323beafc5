//! Transformation rules: a trigger and the actions that replace it.
use vstd::prelude::*;
use crate::keyboard::key_action::{actions_text, all_known, KeyAction, KeyActionSequence};
use crate::keyboard::key_trigger::{trigger_text, KeyTrigger};
use crate::keyboard::key::is_known_key;
use crate::text::{join, join_strings, push_str};

verus! {

impl View for KeyActionSequence {
    type V = Seq<KeyAction>;

    open spec fn view(&self) -> Seq<KeyAction> {
        self.actions@
    }
}

/// A rule: when the trigger happens, the actions are sent in its place.
#[derive(Clone, Debug, PartialEq, Eq)]
pub struct KeyTransformRule {
    pub trigger: KeyTrigger,
    pub actions: KeyActionSequence,
}

impl View for KeyTransformRule {
    type V = (KeyTrigger, Seq<KeyAction>);

    open spec fn view(&self) -> (KeyTrigger, Seq<KeyAction>) {
        (self.trigger, self.actions@)
    }
}

/// Whether the keys of a rule are all in the key table.
pub open spec fn rule_known(r: (KeyTrigger, Seq<KeyAction>)) -> bool {
    is_known_key(r.0.action.key) && all_known(r.1)
}

/// The text of a rule: its trigger and its actions separated by `" : "`.
pub open spec fn rule_text(r: (KeyTrigger, Seq<KeyAction>)) -> Seq<char> {
    trigger_text(r.0) + seq![' ', ':', ' '] + actions_text(r.1)
}

/// A list of rules.
#[derive(Debug, PartialEq, Eq)]
pub struct KeyTransformRules {
    pub items: Vec<KeyTransformRule>,
}

impl View for KeyTransformRules {
    type V = Seq<(KeyTrigger, Seq<KeyAction>)>;

    open spec fn view(&self) -> Seq<(KeyTrigger, Seq<KeyAction>)> {
        self.items@.map_values(|r: KeyTransformRule| r@)
    }
}

/// The texts of the rules.
pub open spec fn rule_texts(rules: Seq<(KeyTrigger, Seq<KeyAction>)>) -> Seq<Seq<char>> {
    rules.map_values(|r: (KeyTrigger, Seq<KeyAction>)| rule_text(r))
}

/// The text of a list of rules: one rule on each line.
pub open spec fn rules_text(rules: Seq<(KeyTrigger, Seq<KeyAction>)>) -> Seq<char> {
    join(rule_texts(rules), seq!['\n'])
}

/// Whether every rule of the list has its keys in the key table.
pub open spec fn rules_known(rules: Seq<(KeyTrigger, Seq<KeyAction>)>) -> bool {
    forall|i: int| 0 <= i < rules.len() ==> rule_known(#[trigger] rules[i])
}

impl KeyTransformRule {
    /// A copy of the rule.
    pub fn copy(&self) -> (r: Self)
        ensures
            r@ == self@,
    {
        KeyTransformRule { trigger: self.trigger, actions: self.actions.copy() }
    }

    /// Whether every key of the rule is in the key table; see [`rule_known`].
    pub fn is_known(&self) -> (r: bool)
        ensures
            r == rule_known(self@),
    {
        if self.trigger.action.key.table_index().is_none() {
            return false;
        }
        let actions = &self.actions.actions;
        assert(actions@ == self@.1);
        let mut j: usize = 0;
        while j < actions.len()
            invariant
                j <= actions.len(),
                actions@ == self@.1,
                forall|k: int| 0 <= k < j ==> is_known_key(#[trigger] actions@[k].key),
            decreases actions.len() - j,
        {
            if actions[j].key.table_index().is_none() {
                assert(!crate::keyboard::key_action::all_known(actions@));
                return false;
            }
            j = j + 1;
        }
        true
    }

    /// The text of the rule; see [`rule_text`].
    pub fn to_string(&self) -> (r: String)
        requires
            rule_known(self@),
        ensures
            r@ == rule_text(self@),
    {
        let mut r = self.trigger.to_string();
        push_str(&mut r, " : ");
        push_str(&mut r, &self.actions.to_string());
        proof {
            reveal_strlit(" : ");
            assert(" : "@ =~= seq![' ', ':', ' ']);
        }
        r
    }
}

impl KeyTransformRules {
    /// The list of the given rules.
    pub fn from(items: Vec<KeyTransformRule>) -> (r: Self)
        ensures
            r@ == items@.map_values(|r: KeyTransformRule| r@),
    {
        KeyTransformRules { items }
    }

    /// Whether every key of the rules is in the key table; see [`rules_known`].
    pub fn is_known(&self) -> (r: bool)
        ensures
            r == rules_known(self@),
    {
        let mut i: usize = 0;
        while i < self.items.len()
            invariant
                i <= self.items.len(),
                forall|k: int| 0 <= k < i ==> rule_known(#[trigger] self@[k]),
            decreases self.items.len() - i,
        {
            if !self.items[i].is_known() {
                assert(self@[i as int] == self.items@[i as int]@);
                return false;
            }
            assert(self@[i as int] == self.items@[i as int]@);
            i = i + 1;
        }
        true
    }

    /// The text of the list; see [`rules_text`].
    pub fn to_string(&self) -> (r: String)
        requires
            rules_known(self@),
        ensures
            r@ == rules_text(self@),
    {
        let mut texts: Vec<String> = Vec::new();
        let mut i: usize = 0;
        while i < self.items.len()
            invariant
                i <= self.items.len(),
                rules_known(self@),
                texts@.map_values(|s: String| s@) == rule_texts(self@.take(i as int)),
            decreases self.items.len() - i,
        {
            let ghost before = texts@.map_values(|s: String| s@);
            assert(rule_known(self@[i as int]));
            let t = self.items[i].to_string();
            texts.push(t);
            assert(texts@.map_values(|s: String| s@) =~= before.push(t@));
            assert(self@.take(i + 1) =~= self@.take(i as int).push(self@[i as int]));
            assert(rule_texts(self@.take(i + 1)) =~= rule_texts(self@.take(i as int)).push(
                rule_text(self@[i as int]),
            ));
            i = i + 1;
        }
        assert(self@.take(self.items.len() as int) =~= self@);
        let r = join_strings(&texts, "\n");
        proof {
            reveal_strlit("\n");
            assert("\n"@ =~= seq!['\n']);
        }
        r
    }
}

impl Default for KeyTransformRules {
    /// The empty list.
    fn default() -> (r: Self)
        ensures
            r@ == Seq::<(KeyTrigger, Seq<KeyAction>)>::empty(),
    {
        KeyTransformRules { items: Vec::new() }
    }
}

/// A titled list of rules.
#[derive(Debug, PartialEq, Eq)]
pub struct KeyTransformProfile {
    pub title: String,
    pub rules: KeyTransformRules,
}

/// The text of a profile: its title, then its rules from the next line on.
pub open spec fn profile_text(title: Seq<char>, rules: Seq<(KeyTrigger, Seq<KeyAction>)>) -> Seq<char> {
    title + seq!['\n'] + rules_text(rules)
}

impl KeyTransformProfile {
    /// The text of the profile; see [`profile_text`].
    pub fn to_string(&self) -> (r: String)
        requires
            rules_known(self.rules@),
        ensures
            r@ == profile_text(self.title@, self.rules@),
    {
        let mut r = self.title.clone();
        push_str(&mut r, "\n");
        push_str(&mut r, &self.rules.to_string());
        proof {
            reveal_strlit("\n");
            assert("\n"@ =~= seq!['\n']);
        }
        r
    }
}

impl Default for KeyTransformProfile {
    /// The profile titled `No profile`, with no rule.
    fn default() -> (r: Self)
        ensures
            r.title@ == "No profile"@,
            r.rules@ == Seq::<(KeyTrigger, Seq<KeyAction>)>::empty(),
    {
        KeyTransformProfile { title: "No profile".to_string(), rules: KeyTransformRules::default() }
    }
}

} // verus!
