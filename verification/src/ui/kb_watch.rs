//! The state of the keyboard that the tray application watches: layout and lock keys.
use vstd::prelude::*;
use crate::text::{join, join_strings};

verus! {

/// The bit of the num lock.
pub const LOCK_NUM: u8 = 1;

/// The bit of the caps lock.
pub const LOCK_CAPS: u8 = 2;

/// The bit of the scroll lock.
pub const LOCK_SCROLL: u8 = 4;

/// The keyboard layout in use (its handle) and the lock keys that are on, one bit each.
#[derive(Copy, Clone, Debug, Default, PartialEq, Eq)]
pub struct KeyboardLayoutState {
    pub layout: isize,
    pub locks: u8,
}

/// The names of the lock keys that are on, in the order num, caps, scroll.
pub open spec fn lock_names(locks: u8) -> Seq<Seq<char>> {
    (if locks & LOCK_NUM != 0 {
        seq![seq!['n', 'u', 'm']]
    } else {
        Seq::empty()
    }) + (if locks & LOCK_CAPS != 0 {
        seq![seq!['c', 'a', 'p', 's']]
    } else {
        Seq::empty()
    }) + (if locks & LOCK_SCROLL != 0 {
        seq![seq!['s', 'c', 'r', 'o', 'l', 'l']]
    } else {
        Seq::empty()
    })
}

impl KeyboardLayoutState {
    /// The state of a layout with the given lock keys on.
    pub fn new(layout: isize, num_lock: bool, caps_lock: bool, scroll_lock: bool) -> (r: Self)
        ensures
            r.layout == layout,
            (r.locks & LOCK_NUM != 0) == num_lock,
            (r.locks & LOCK_CAPS != 0) == caps_lock,
            (r.locks & LOCK_SCROLL != 0) == scroll_lock,
            r.locks < 8,
    {
        let n: u8 = if num_lock {
            LOCK_NUM
        } else {
            0
        };
        let c: u8 = if caps_lock {
            LOCK_CAPS
        } else {
            0
        };
        let s: u8 = if scroll_lock {
            LOCK_SCROLL
        } else {
            0
        };
        let locks = n | c | s;
        assert((n | c | s) & 1 != 0 <==> n == 1) by (bit_vector)
            requires
                n == 0 || n == 1,
                c == 0 || c == 2,
                s == 0 || s == 4,
        ;
        assert((n | c | s) & 2 != 0 <==> c == 2) by (bit_vector)
            requires
                n == 0 || n == 1,
                c == 0 || c == 2,
                s == 0 || s == 4,
        ;
        assert((n | c | s) & 4 != 0 <==> s == 4) by (bit_vector)
            requires
                n == 0 || n == 1,
                c == 0 || c == 2,
                s == 0 || s == 4,
        ;
        assert((n | c | s) < 8) by (bit_vector)
            requires
                n == 0 || n == 1,
                c == 0 || c == 2,
                s == 0 || s == 4,
        ;
        KeyboardLayoutState { layout, locks }
    }

    /// The names of the lock keys that are on, joined with `_`: e.g. `num_caps`.
    pub fn locks(&self) -> (r: String)
        ensures
            r@ == join(lock_names(self.locks), seq!['_']),
    {
        proof {
            reveal_strlit("num");
            reveal_strlit("caps");
            reveal_strlit("scroll");
            reveal_strlit("_");
        }
        let mut names: Vec<String> = Vec::new();
        let ghost mut expect: Seq<Seq<char>> = Seq::empty();
        if self.locks & LOCK_NUM != 0 {
            let t = "num".to_string();
            assert(t@ =~= seq!['n', 'u', 'm']);
            let ghost before = names@.map_values(|s: String| s@);
            names.push(t);
            assert(names@.map_values(|s: String| s@) =~= before.push(t@));
            proof {
                expect = expect.push(seq!['n', 'u', 'm']);
            }
        }
        assert(names@.map_values(|s: String| s@) =~= expect);
        if self.locks & LOCK_CAPS != 0 {
            let t = "caps".to_string();
            assert(t@ =~= seq!['c', 'a', 'p', 's']);
            let ghost before = names@.map_values(|s: String| s@);
            names.push(t);
            assert(names@.map_values(|s: String| s@) =~= before.push(t@));
            proof {
                expect = expect.push(seq!['c', 'a', 'p', 's']);
            }
        }
        assert(names@.map_values(|s: String| s@) =~= expect);
        if self.locks & LOCK_SCROLL != 0 {
            let t = "scroll".to_string();
            assert(t@ =~= seq!['s', 'c', 'r', 'o', 'l', 'l']);
            let ghost before = names@.map_values(|s: String| s@);
            names.push(t);
            assert(names@.map_values(|s: String| s@) =~= before.push(t@));
            proof {
                expect = expect.push(seq!['s', 'c', 'r', 'o', 'l', 'l']);
            }
        }
        assert(names@.map_values(|s: String| s@) =~= expect);
        assert(expect =~= lock_names(self.locks));
        assert("_"@ =~= seq!['_']);
        join_strings(&names, "_")
    }
}

} // verus!
