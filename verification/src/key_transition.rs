//! Key transitions: a key goes down or comes up.
use vstd::prelude::*;
use crate::text::push_str;

verus! {

/// Whether a key went down or came up.
#[derive(Copy, Clone, Debug, PartialEq, Eq, Hash, Structural)]
pub enum KeyTransition {
    Up,
    Down,
}

/// The arrow that shows a transition: `↑` for up, `↓` for down.
pub open spec fn transition_text(t: KeyTransition) -> Seq<char> {
    match t {
        KeyTransition::Up => seq!['↑'],
        KeyTransition::Down => seq!['↓'],
    }
}

impl KeyTransition {
    /// Whether the key came up.
    pub fn is_up(&self) -> (r: bool)
        ensures
            r == (*self == KeyTransition::Up),
    {
        match self {
            KeyTransition::Up => true,
            KeyTransition::Down => false,
        }
    }

    /// The arrow of the transition: `↑` or `↓`.
    pub fn to_string(&self) -> (r: String)
        ensures
            r@ == transition_text(*self),
    {
        let mut r = String::new();
        match self {
            KeyTransition::Up => {
                push_str(&mut r, "↑");
                proof {
                    reveal_strlit("↑");
                }
            },
            KeyTransition::Down => {
                push_str(&mut r, "↓");
                proof {
                    reveal_strlit("↓");
                }
            },
        }
        assert(r@ =~= transition_text(*self));
        r
    }
}

impl Default for KeyTransition {
    /// A transition is up unless told otherwise.
    fn default() -> (r: KeyTransition)
        ensures
            r == KeyTransition::Up,
    {
        KeyTransition::Up
    }
}

} // verus!
