//! Key actions (a key going down or up) and sequences of them.
use vstd::prelude::*;
pub use crate::key_transition::KeyTransition;
use crate::key_transition::transition_text;
use crate::keyboard::key::{is_known_key, key_name, Key};
use crate::keyboard::key_const::MAX_SCAN_CODE;
use crate::text::{join, join_strings, push_str};

verus! {

/// A key going down or coming up.
#[derive(Copy, Clone, Debug, PartialEq, Eq, Hash, Structural)]
pub struct KeyAction {
    pub key: Key,
    pub transition: KeyTransition,
}

/// What a key action asks of the keyboard input of the system: the virtual key, the scan code
/// (with the `0xE0` prefix when extended), whether the scan code is extended and whether the
/// key comes up. The input goes by scan code.
#[derive(Copy, Clone, Debug, PartialEq, Eq, Structural)]
pub struct KeyInput {
    pub virtual_key: u16,
    pub scan_code: u16,
    pub is_extended: bool,
    pub is_key_up: bool,
}

/// The text of an action: the name of its key and the arrow of its transition.
pub open spec fn action_text(a: KeyAction) -> Seq<char> {
    key_name(a.key) + transition_text(a.transition)
}

/// The input that sends an action.
pub open spec fn action_input(a: KeyAction) -> KeyInput {
    KeyInput {
        virtual_key: a.key.vk_code as u16,
        scan_code: (if a.key.is_ext_scan_code {
            0xE000 + a.key.scan_code
        } else {
            a.key.scan_code as int
        }) as u16,
        is_extended: a.key.is_ext_scan_code,
        is_key_up: a.transition == KeyTransition::Up,
    }
}

/// Whether every action of the sequence has a key of the key table.
pub open spec fn all_known(actions: Seq<KeyAction>) -> bool {
    forall|i: int| 0 <= i < actions.len() ==> is_known_key(#[trigger] actions[i].key)
}

/// The texts of the actions.
pub open spec fn action_texts(actions: Seq<KeyAction>) -> Seq<Seq<char>> {
    actions.map_values(|a: KeyAction| action_text(a))
}

/// The text of a sequence of actions: their texts joined with `" → "`.
pub open spec fn actions_text(actions: Seq<KeyAction>) -> Seq<char> {
    join(action_texts(actions), seq![' ', '→', ' '])
}

impl KeyAction {
    /// The text of the action; see [`action_text`].
    pub fn to_string(&self) -> (r: String)
        requires
            is_known_key(self.key),
        ensures
            r@ == action_text(*self),
    {
        let mut r = String::new();
        push_str(&mut r, self.key.name());
        push_str(&mut r, &self.transition.to_string());
        r
    }

    /// The keyboard input that sends the action; see [`action_input`].
    pub fn create_input(&self) -> (r: KeyInput)
        requires
            (self.key.scan_code as usize) < MAX_SCAN_CODE,
        ensures
            r == action_input(*self),
    {
        let virtual_key = self.key.virtual_key();
        let scan_code = self.key.scan_code();
        KeyInput {
            virtual_key: virtual_key.value as u16,
            scan_code: scan_code.ext_value(),
            is_extended: scan_code.is_extended,
            is_key_up: self.transition.is_up(),
        }
    }
}

/// A sequence of key actions.
#[derive(Clone, Debug, PartialEq, Eq)]
pub struct KeyActionSequence {
    pub actions: Vec<KeyAction>,
}

impl KeyActionSequence {
    /// The sequence of the given actions.
    pub fn from(actions: Vec<KeyAction>) -> (r: Self)
        ensures
            r.actions@ == actions@,
    {
        KeyActionSequence { actions }
    }

    /// A copy of the sequence.
    pub fn copy(&self) -> (r: Self)
        ensures
            r.actions@ == self.actions@,
    {
        KeyActionSequence { actions: self.actions.clone() }
    }

    /// The text of the sequence; see [`actions_text`].
    pub fn to_string(&self) -> (r: String)
        requires
            all_known(self.actions@),
        ensures
            r@ == actions_text(self.actions@),
    {
        let mut texts: Vec<String> = Vec::new();
        let mut i: usize = 0;
        while i < self.actions.len()
            invariant
                i <= self.actions.len(),
                all_known(self.actions@),
                texts@.map_values(|s: String| s@) == action_texts(self.actions@.take(i as int)),
            decreases self.actions.len() - i,
        {
            let ghost before = texts@.map_values(|s: String| s@);
            let t = self.actions[i].to_string();
            texts.push(t);
            assert(texts@.map_values(|s: String| s@) =~= before.push(t@));
            assert(self.actions@.take(i + 1) =~= self.actions@.take(i as int).push(
                self.actions@[i as int],
            ));
            assert(action_texts(self.actions@.take(i + 1)) =~= action_texts(
                self.actions@.take(i as int),
            ).push(action_text(self.actions@[i as int])));
            i = i + 1;
        }
        assert(self.actions@.take(self.actions.len() as int) =~= self.actions@);
        let r = join_strings(&texts, " → ");
        proof {
            reveal_strlit(" → ");
            assert(" → "@ =~= seq![' ', '→', ' ']);
        }
        r
    }

    /// The keyboard inputs that send the actions, in their order.
    pub fn create_input(&self) -> (r: Vec<KeyInput>)
        requires
            forall|i: int|
                0 <= i < self.actions@.len() ==> ((#[trigger] self.actions@[i]).key.scan_code as usize)
                    < MAX_SCAN_CODE,
        ensures
            r@ == self.actions@.map_values(|a: KeyAction| action_input(a)),
    {
        let mut r: Vec<KeyInput> = Vec::new();
        let mut i: usize = 0;
        while i < self.actions.len()
            invariant
                i <= self.actions.len(),
                forall|k: int|
                    0 <= k < self.actions@.len() ==> ((#[trigger] self.actions@[k]).key.scan_code as usize)
                        < MAX_SCAN_CODE,
                r@ == self.actions@.take(i as int).map_values(|a: KeyAction| action_input(a)),
            decreases self.actions.len() - i,
        {
            r.push(self.actions[i].create_input());
            assert(r@ =~= self.actions@.take(i + 1).map_values(|a: KeyAction| action_input(a)));
            i = i + 1;
        }
        assert(self.actions@.take(self.actions.len() as int) =~= self.actions@);
        r
    }
}

} // verus!
