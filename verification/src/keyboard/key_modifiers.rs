//! Modifier keys: the set of shift, control, alt and win keys that are held down.
use vstd::prelude::*;
use crate::text::{
    chars_eq, chars_of, has_no_sep, is_sep, is_trimmed, join, join_strings, lemma_join_trimmed,
    lemma_split_join_trim, lemma_trim_trimmed, push_char, push_str, split, split_chars, trim,
    trim_all, trim_chars,
};

use crate::keyboard::key::{key_by_name, law_key_table_round_trip};
use crate::keyboard::key_const::{key_name_spec, key_spec, lemma_modifier_keys_in_table};

verus! {

/// No modifier.
pub const KM_NONE: u8 = 0;

/// The left shift key.
pub const KM_LSHIFT: u8 = 1;

/// The right shift key.
pub const KM_RSHIFT: u8 = 2;

/// The left control key.
pub const KM_LCTRL: u8 = 4;

/// The right control key.
pub const KM_RCTRL: u8 = 8;

/// The left alt key.
pub const KM_LALT: u8 = 16;

/// The right alt key.
pub const KM_RALT: u8 = 32;

/// The left win key.
pub const KM_LWIN: u8 = 64;

/// The right win key.
pub const KM_RWIN: u8 = 128;

/// Every modifier.
pub const KM_ALL: u8 = 255;

/// A set of modifier keys, one bit for each of them.
#[derive(Copy, Clone, Debug, PartialEq, Eq, Hash, Structural)]
pub struct KeyModifiers(pub u8);

/// The set of modifiers that have bit `b` set.
pub open spec fn has_bits(m: KeyModifiers, b: u8) -> bool {
    m.0 & b == b
}

/// The names of the modifiers, in the order in which they are shown.
pub open spec fn modifier_name(i: int) -> Seq<char> {
    if i == 0 {
        seq!['L', 'E', 'F', 'T', '_', 'S', 'H', 'I', 'F', 'T']
    } else if i == 1 {
        seq!['R', 'I', 'G', 'H', 'T', '_', 'S', 'H', 'I', 'F', 'T']
    } else if i == 2 {
        seq!['L', 'E', 'F', 'T', '_', 'C', 'T', 'R', 'L']
    } else if i == 3 {
        seq!['R', 'I', 'G', 'H', 'T', '_', 'C', 'T', 'R', 'L']
    } else if i == 4 {
        seq!['L', 'E', 'F', 'T', '_', 'A', 'L', 'T']
    } else if i == 5 {
        seq!['R', 'I', 'G', 'H', 'T', '_', 'A', 'L', 'T']
    } else if i == 6 {
        seq!['L', 'E', 'F', 'T', '_', 'W', 'I', 'N']
    } else {
        seq!['R', 'I', 'G', 'H', 'T', '_', 'W', 'I', 'N']
    }
}

/// The bit of the `i`-th modifier.
pub open spec fn modifier_bit(i: int) -> u8 {
    if i == 0 {
        1
    } else if i == 1 {
        2
    } else if i == 2 {
        4
    } else if i == 3 {
        8
    } else if i == 4 {
        16
    } else if i == 5 {
        32
    } else if i == 6 {
        64
    } else {
        128
    }
}

/// The name of the `i`-th modifier if it is in the set, else nothing.
pub open spec fn name_if_held(m: KeyModifiers, i: int) -> Seq<Seq<char>> {
    if has_bits(m, modifier_bit(i)) {
        seq![modifier_name(i)]
    } else {
        Seq::empty()
    }
}

/// The names of the modifiers in the set, in their order.
pub open spec fn modifier_names(m: KeyModifiers) -> Seq<Seq<char>> {
    name_if_held(m, 0) + name_if_held(m, 1) + name_if_held(m, 2) + name_if_held(m, 3)
        + name_if_held(m, 4) + name_if_held(m, 5) + name_if_held(m, 6) + name_if_held(m, 7)
}

/// The text of a set of modifiers: their names joined with `" + "`.
pub open spec fn modifiers_text(m: KeyModifiers) -> Seq<char> {
    join(modifier_names(m), seq![' ', '+', ' '])
}

/// The bits that a name of modifiers stands for: one key, or both keys of a kind; 0 for
/// any other text.
pub open spec fn name_bits(p: Seq<char>) -> u8 {
    if p == seq!['L', 'E', 'F', 'T', '_', 'S', 'H', 'I', 'F', 'T'] {
        1
    } else if p == seq!['R', 'I', 'G', 'H', 'T', '_', 'S', 'H', 'I', 'F', 'T'] {
        2
    } else if p == seq!['S', 'H', 'I', 'F', 'T'] {
        3
    } else if p == seq!['L', 'E', 'F', 'T', '_', 'C', 'T', 'R', 'L'] {
        4
    } else if p == seq!['R', 'I', 'G', 'H', 'T', '_', 'C', 'T', 'R', 'L'] {
        8
    } else if p == seq!['C', 'T', 'R', 'L'] {
        12
    } else if p == seq!['L', 'E', 'F', 'T', '_', 'A', 'L', 'T'] {
        16
    } else if p == seq!['R', 'I', 'G', 'H', 'T', '_', 'A', 'L', 'T'] {
        32
    } else if p == seq!['A', 'L', 'T'] {
        48
    } else if p == seq!['L', 'E', 'F', 'T', '_', 'W', 'I', 'N'] {
        64
    } else if p == seq!['R', 'I', 'G', 'H', 'T', '_', 'W', 'I', 'N'] {
        128
    } else if p == seq!['W', 'I', 'N'] {
        192
    } else {
        0
    }
}

/// The union of the bits that the names stand for.
pub open spec fn names_bits(names: Seq<Seq<char>>) -> u8
    decreases names.len(),
{
    if names.len() == 0 {
        0
    } else {
        names_bits(names.drop_last()) | name_bits(names.last())
    }
}

/// The error of a text that names no modifier: the text, trimmed, in the message.
pub open spec fn modifiers_error(s: Seq<char>) -> Seq<char> {
    "Error parsing key modifiers: `"@ + trim(s) + "`"@
}

/// What reading a text as a set of modifiers gives: the empty set for a blank text, else
/// the union of the names between the `+` signs (names it does not know count for nothing),
/// and nothing when that union is empty (refused with [`modifiers_error`]).
pub open spec fn parse_modifiers(s: Seq<char>) -> Option<KeyModifiers> {
    let ts = trim(s);
    if ts.len() == 0 {
        Some(KeyModifiers(0))
    } else {
        let b = names_bits(trim_all(split(ts, '+', '+')));
        if b != 0 {
            Some(KeyModifiers(b))
        } else {
            None
        }
    }
}

/// The eight characters that show a set of modifiers in short: `S`, `C`, `A`, `W` for the
/// left keys from the left end and for the right keys from the right end, `.` elsewhere.
pub open spec fn modifiers_short_text(m: KeyModifiers) -> Seq<char> {
    seq![
        if has_bits(m, 1) { 'S' } else { '.' },
        if has_bits(m, 4) { 'C' } else { '.' },
        if has_bits(m, 16) { 'A' } else { '.' },
        if has_bits(m, 64) { 'W' } else { '.' },
        if has_bits(m, 128) { 'W' } else { '.' },
        if has_bits(m, 32) { 'A' } else { '.' },
        if has_bits(m, 8) { 'C' } else { '.' },
        if has_bits(m, 2) { 'S' } else { '.' },
    ]
}

/// The virtual key code of the `i`-th modifier key.
pub open spec fn modifier_vk_code(i: int) -> int {
    if i == 0 {
        0xA0
    } else if i == 1 {
        0xA1
    } else if i == 2 {
        0xA2
    } else if i == 3 {
        0xA3
    } else if i == 4 {
        0xA4
    } else if i == 5 {
        0xA5
    } else if i == 6 {
        0x5B
    } else {
        0x5C
    }
}

/// Whether the keyboard state tells the `i`-th modifier key is down (its high bit is set).
pub open spec fn modifier_down(keys: Seq<u8>, i: int) -> bool {
    keys[modifier_vk_code(i)] & 0x80 != 0
}

/// The modifiers that a keyboard state tells are down.
pub open spec fn state_modifiers(keys: Seq<u8>) -> u8 {
    (if modifier_down(keys, 0) { 1u8 } else { 0u8 }) | (if modifier_down(keys, 1) {
        2u8
    } else {
        0u8
    }) | (if modifier_down(keys, 2) { 4u8 } else { 0u8 }) | (if modifier_down(keys, 3) {
        8u8
    } else {
        0u8
    }) | (if modifier_down(keys, 4) { 16u8 } else { 0u8 }) | (if modifier_down(keys, 5) {
        32u8
    } else {
        0u8
    }) | (if modifier_down(keys, 6) { 64u8 } else { 0u8 }) | (if modifier_down(keys, 7) {
        128u8
    } else {
        0u8
    })
}

/// Appends `name` to the names when `held`.
fn push_name_if(r: &mut Vec<String>, held: bool, name: &str)
    ensures
        final(r)@.map_values(|s: String| s@) == old(r)@.map_values(|s: String| s@) + (if held {
            seq![name@]
        } else {
            Seq::empty()
        }),
{
    if held {
        r.push(name.to_string());
    }
    assert(final(r)@.map_values(|s: String| s@) =~= old(r)@.map_values(|s: String| s@) + (if held {
        seq![name@]
    } else {
        Seq::empty()
    }));
}

impl KeyModifiers {
    /// Whether every modifier of `other` is in this set.
    pub fn contains(&self, other: Self) -> (r: bool)
        ensures
            r == has_bits(*self, other.0),
    {
        self.0 & other.0 == other.0
    }

    /// The modifiers that a keyboard state (the 256 key states of `GetKeyboardState`) tells
    /// are down.
    pub fn from_keyboard_state(keys: [u8; 256]) -> (r: Self)
        ensures
            r.0 == state_modifiers(keys@),
    {
        let b0: u8 = if keys[0xA0] & 0x80 != 0 { 1 } else { 0 };
        let b1: u8 = if keys[0xA1] & 0x80 != 0 { 2 } else { 0 };
        let b2: u8 = if keys[0xA2] & 0x80 != 0 { 4 } else { 0 };
        let b3: u8 = if keys[0xA3] & 0x80 != 0 { 8 } else { 0 };
        let b4: u8 = if keys[0xA4] & 0x80 != 0 { 16 } else { 0 };
        let b5: u8 = if keys[0xA5] & 0x80 != 0 { 32 } else { 0 };
        let b6: u8 = if keys[0x5B] & 0x80 != 0 { 64 } else { 0 };
        let b7: u8 = if keys[0x5C] & 0x80 != 0 { 128 } else { 0 };
        KeyModifiers(b0 | b1 | b2 | b3 | b4 | b5 | b6 | b7)
    }

    /// The modifiers in short: eight characters, see [`modifiers_short_text`].
    pub fn to_string_short(&self) -> (r: String)
        ensures
            r@ == modifiers_short_text(*self),
    {
        let mut r = String::new();
        push_char(&mut r, if self.contains(KeyModifiers(KM_LSHIFT)) { 'S' } else { '.' });
        push_char(&mut r, if self.contains(KeyModifiers(KM_LCTRL)) { 'C' } else { '.' });
        push_char(&mut r, if self.contains(KeyModifiers(KM_LALT)) { 'A' } else { '.' });
        push_char(&mut r, if self.contains(KeyModifiers(KM_LWIN)) { 'W' } else { '.' });
        push_char(&mut r, if self.contains(KeyModifiers(KM_RWIN)) { 'W' } else { '.' });
        push_char(&mut r, if self.contains(KeyModifiers(KM_RALT)) { 'A' } else { '.' });
        push_char(&mut r, if self.contains(KeyModifiers(KM_RCTRL)) { 'C' } else { '.' });
        push_char(&mut r, if self.contains(KeyModifiers(KM_RSHIFT)) { 'S' } else { '.' });
        assert(r@ =~= modifiers_short_text(*self));
        r
    }

    /// The names of the modifiers in the set, in their order.
    pub fn names(&self) -> (r: Vec<String>)
        ensures
            r@.map_values(|s: String| s@) == modifier_names(*self),
    {
        let ghost m = *self;
        let mut r: Vec<String> = Vec::new();
        proof {
            reveal_strlit("LEFT_SHIFT");
            reveal_strlit("RIGHT_SHIFT");
            reveal_strlit("LEFT_CTRL");
            reveal_strlit("RIGHT_CTRL");
            assert("LEFT_SHIFT"@ =~= modifier_name(0));
            assert("RIGHT_SHIFT"@ =~= modifier_name(1));
            assert("LEFT_CTRL"@ =~= modifier_name(2));
            assert("RIGHT_CTRL"@ =~= modifier_name(3));
        }
        push_name_if(&mut r, self.contains(KeyModifiers(KM_LSHIFT)), "LEFT_SHIFT");
        push_name_if(&mut r, self.contains(KeyModifiers(KM_RSHIFT)), "RIGHT_SHIFT");
        push_name_if(&mut r, self.contains(KeyModifiers(KM_LCTRL)), "LEFT_CTRL");
        push_name_if(&mut r, self.contains(KeyModifiers(KM_RCTRL)), "RIGHT_CTRL");
        let ghost first = r@.map_values(|s: String| s@);
        assert(first =~= name_if_held(m, 0) + name_if_held(m, 1) + name_if_held(m, 2)
            + name_if_held(m, 3));
        proof {
            reveal_strlit("LEFT_ALT");
            reveal_strlit("RIGHT_ALT");
            reveal_strlit("LEFT_WIN");
            reveal_strlit("RIGHT_WIN");
            assert("LEFT_ALT"@ =~= modifier_name(4));
            assert("RIGHT_ALT"@ =~= modifier_name(5));
            assert("LEFT_WIN"@ =~= modifier_name(6));
            assert("RIGHT_WIN"@ =~= modifier_name(7));
        }
        push_name_if(&mut r, self.contains(KeyModifiers(KM_LALT)), "LEFT_ALT");
        push_name_if(&mut r, self.contains(KeyModifiers(KM_RALT)), "RIGHT_ALT");
        push_name_if(&mut r, self.contains(KeyModifiers(KM_LWIN)), "LEFT_WIN");
        push_name_if(&mut r, self.contains(KeyModifiers(KM_RWIN)), "RIGHT_WIN");
        assert(r@.map_values(|s: String| s@) =~= first + name_if_held(m, 4) + name_if_held(m, 5)
            + name_if_held(m, 6) + name_if_held(m, 7));
        assert(r@.map_values(|s: String| s@) =~= modifier_names(m));
        r
    }

    /// The text of the set: the names of its modifiers joined with `" + "`; empty for no
    /// modifier.
    pub fn to_string(&self) -> (r: String)
        ensures
            r@ == modifiers_text(*self),
    {
        let names = self.names();
        let r = join_strings(&names, " + ");
        proof {
            reveal_strlit(" + ");
            assert(" + "@ =~= seq![' ', '+', ' ']);
        }
        r
    }

    /// The bits that one name of modifiers stands for; 0 for a name it does not know.
    fn bits_of_name(p: &Vec<char>) -> (r: u8)
        ensures
            r == name_bits(p@),
    {
        proof {
            reveal_strlit("LEFT_SHIFT");
            assert("LEFT_SHIFT"@ =~= seq!['L', 'E', 'F', 'T', '_', 'S', 'H', 'I', 'F', 'T']);
            reveal_strlit("RIGHT_SHIFT");
            assert("RIGHT_SHIFT"@ =~= seq!['R', 'I', 'G', 'H', 'T', '_', 'S', 'H', 'I', 'F', 'T']);
            reveal_strlit("LEFT_CTRL");
            assert("LEFT_CTRL"@ =~= seq!['L', 'E', 'F', 'T', '_', 'C', 'T', 'R', 'L']);
            reveal_strlit("RIGHT_CTRL");
            assert("RIGHT_CTRL"@ =~= seq!['R', 'I', 'G', 'H', 'T', '_', 'C', 'T', 'R', 'L']);
            reveal_strlit("LEFT_ALT");
            assert("LEFT_ALT"@ =~= seq!['L', 'E', 'F', 'T', '_', 'A', 'L', 'T']);
            reveal_strlit("RIGHT_ALT");
            assert("RIGHT_ALT"@ =~= seq!['R', 'I', 'G', 'H', 'T', '_', 'A', 'L', 'T']);
            reveal_strlit("LEFT_WIN");
            assert("LEFT_WIN"@ =~= seq!['L', 'E', 'F', 'T', '_', 'W', 'I', 'N']);
            reveal_strlit("RIGHT_WIN");
            assert("RIGHT_WIN"@ =~= seq!['R', 'I', 'G', 'H', 'T', '_', 'W', 'I', 'N']);
            reveal_strlit("SHIFT");
            assert("SHIFT"@ =~= seq!['S', 'H', 'I', 'F', 'T']);
            reveal_strlit("CTRL");
            assert("CTRL"@ =~= seq!['C', 'T', 'R', 'L']);
            reveal_strlit("ALT");
            assert("ALT"@ =~= seq!['A', 'L', 'T']);
            reveal_strlit("WIN");
            assert("WIN"@ =~= seq!['W', 'I', 'N']);
        }
        if chars_eq(p, "LEFT_SHIFT") {
            1
        } else if chars_eq(p, "RIGHT_SHIFT") {
            2
        } else if chars_eq(p, "SHIFT") {
            3
        } else if chars_eq(p, "LEFT_CTRL") {
            4
        } else if chars_eq(p, "RIGHT_CTRL") {
            8
        } else if chars_eq(p, "CTRL") {
            12
        } else if chars_eq(p, "LEFT_ALT") {
            16
        } else if chars_eq(p, "RIGHT_ALT") {
            32
        } else if chars_eq(p, "ALT") {
            48
        } else if chars_eq(p, "LEFT_WIN") {
            64
        } else if chars_eq(p, "RIGHT_WIN") {
            128
        } else if chars_eq(p, "WIN") {
            192
        } else {
            0
        }
    }

    /// Reads a set of modifiers from characters; see [`parse_modifiers`].
    pub fn parse_chars(s: &Vec<char>) -> (r: Result<Self, String>)
        ensures
            match parse_modifiers(s@) {
                Some(m) => r == Ok::<Self, String>(m),
                None => r is Err && r->Err_0@ == modifiers_error(s@),
            },
    {
        let ts = trim_chars(s);
        if ts.len() == 0 {
            return Ok(KeyModifiers(KM_NONE));
        }
        let parts = split_chars(&ts, '+', '+');
        let ghost tparts = trim_all(split(ts@, '+', '+'));
        let mut bits: u8 = 0;
        let mut i: usize = 0;
        while i < parts.len()
            invariant
                i <= parts.len(),
                parts.len() == tparts.len(),
                tparts == trim_all(split(ts@, '+', '+')),
                forall|k: int| 0 <= k < parts.len() ==> (#[trigger] parts[k])@ == split(ts@, '+', '+')[k],
                bits == names_bits(tparts.take(i as int)),
            decreases parts.len() - i,
        {
            let p = trim_chars(&parts[i]);
            bits = bits | Self::bits_of_name(&p);
            assert(tparts.take(i + 1).drop_last() =~= tparts.take(i as int));
            i = i + 1;
        }
        assert(tparts.take(parts.len() as int) =~= tparts);
        if bits != 0 {
            Ok(KeyModifiers(bits))
        } else {
            let mut e = String::new();
            push_str(&mut e, "Error parsing key modifiers: `");
            push_str(&mut e, &crate::text::string_of(&ts));
            push_str(&mut e, "`");
            Err(e)
        }
    }

    /// Reads a set of modifiers from a text; see [`parse_modifiers`].
    pub fn from_text(s: &str) -> (r: Result<Self, String>)
        ensures
            match parse_modifiers(s@) {
                Some(m) => r == Ok::<Self, String>(m),
                None => r is Err && r->Err_0@ == modifiers_error(s@),
            },
    {
        Self::parse_chars(&chars_of(s))
    }
}

impl Default for KeyModifiers {
    /// No modifier.
    fn default() -> (r: KeyModifiers)
        ensures
            r.0 == 0,
    {
        KeyModifiers(KM_NONE)
    }
}

/// The union of two sets holds each of them, and a set holds another exactly when their union
/// is the first set.
pub proof fn law_union_contains(a: KeyModifiers, b: KeyModifiers)
    ensures
        has_bits(KeyModifiers(a.0 | b.0), a.0),
        has_bits(KeyModifiers(a.0 | b.0), b.0),
        has_bits(a, b.0) <==> (a.0 | b.0) == a.0,
{
    let x = a.0;
    let y = b.0;
    assert((x | y) & x == x) by (bit_vector);
    assert((x | y) & y == y) by (bit_vector);
    assert((x & y == y) <==> ((x | y) == x)) by (bit_vector);
}

impl core::ops::BitOr for KeyModifiers {
    type Output = Self;

    /// The union of two sets of modifiers.
    fn bitor(self, other: Self) -> (r: Self)
        ensures
            r.0 == self.0 | other.0,
    {
        KeyModifiers(self.0 | other.0)
    }
}

impl vstd::std_specs::ops::BitOrSpecImpl for KeyModifiers {
    open spec fn obeys_bitor_spec() -> bool {
        true
    }

    open spec fn bitor_req(self, rhs: Self) -> bool {
        true
    }

    open spec fn bitor_spec(self, rhs: Self) -> Self {
        KeyModifiers(self.0 | rhs.0)
    }
}

impl core::ops::BitOrAssign for KeyModifiers {
    /// Adds the modifiers of `other` to the set.
    fn bitor_assign(&mut self, other: Self)
        ensures
            final(self).0 == old(self).0 | other.0,
    {
        self.0 = self.0 | other.0;
    }
}

/// Up to eight sets of modifiers; the places not given hold the empty set.
#[derive(Copy, Clone, Debug, PartialEq, Eq)]
pub struct KeyModifiersMatrix {
    pub items: [KeyModifiers; 8],
}

/// The texts of the sets that are not empty, in their order.
pub open spec fn non_empty_texts(items: Seq<KeyModifiers>) -> Seq<Seq<char>>
    decreases items.len(),
{
    if items.len() == 0 {
        Seq::empty()
    } else {
        non_empty_texts(items.drop_last()) + (if items.last().0 != 0 {
            seq![modifiers_text(items.last())]
        } else {
            Seq::empty()
        })
    }
}

/// The text of a matrix: the texts of its non-empty sets joined with `", "`.
pub open spec fn matrix_text(mx: KeyModifiersMatrix) -> Seq<char> {
    join(non_empty_texts(mx.items@), seq![',', ' '])
}

impl KeyModifiersMatrix {
    /// The matrix of the given sets (at most eight), the other places empty.
    pub fn new(modifiers: &[KeyModifiers]) -> (r: Self)
        requires
            modifiers@.len() <= 8,
        ensures
            forall|i: int|
                0 <= i < 8 ==> r.items@[i] == (if i < modifiers@.len() {
                    modifiers@[i]
                } else {
                    KeyModifiers(0)
                }),
    {
        let mut items = [KeyModifiers(KM_NONE); 8];
        let mut i: usize = 0;
        while i < modifiers.len()
            invariant
                i <= modifiers@.len() <= 8,
                forall|k: int|
                    0 <= k < 8 ==> items@[k] == (if k < i {
                        modifiers@[k]
                    } else {
                        KeyModifiers(0)
                    }),
            decreases modifiers@.len() - i,
        {
            items[i] = modifiers[i];
            i = i + 1;
        }
        KeyModifiersMatrix { items }
    }

    /// Whether one of the sets holds every modifier of `item`.
    pub fn has_item(&self, item: KeyModifiers) -> (r: bool)
        ensures
            r == exists|i: int| 0 <= i < 8 && has_bits(#[trigger] self.items@[i], item.0),
    {
        let mut i: usize = 0;
        while i < 8
            invariant
                i <= 8,
                forall|k: int| 0 <= k < i ==> !has_bits(#[trigger] self.items@[k], item.0),
            decreases 8 - i,
        {
            if self.items[i].contains(item) {
                return true;
            }
            i = i + 1;
        }
        false
    }

    /// The text of the matrix; see [`matrix_text`].
    pub fn to_string(&self) -> (r: String)
        ensures
            r@ == matrix_text(*self),
    {
        let mut texts: Vec<String> = Vec::new();
        let mut i: usize = 0;
        assert(self.items@.take(0) =~= Seq::<KeyModifiers>::empty());
        while i < 8
            invariant
                i <= 8,
                texts@.map_values(|s: String| s@) == non_empty_texts(self.items@.take(i as int)),
            decreases 8 - i,
        {
            let m = self.items[i];
            let ghost before = texts@.map_values(|s: String| s@);
            if m.0 != KM_NONE {
                texts.push(m.to_string());
            }
            assert(self.items@.take(i + 1).drop_last() =~= self.items@.take(i as int));
            assert(texts@.map_values(|s: String| s@) =~= before + (if m.0 != 0 {
                seq![modifiers_text(m)]
            } else {
                Seq::empty()
            }));
            i = i + 1;
        }
        assert(self.items@.take(8) =~= self.items@);
        let r = join_strings(&texts, ", ");
        proof {
            reveal_strlit(", ");
            assert(", "@ =~= seq![',', ' ']);
        }
        r
    }
}

/// The modifiers that a trigger asks for: exactly a set, or any.
#[derive(Copy, Clone, Debug, PartialEq, Eq, Hash, Structural)]
pub enum TriggerModifiers {
    All(KeyModifiers),
    Any,
}

/// The text of the modifiers of a trigger: the set in brackets, or nothing for any.
pub open spec fn trigger_modifiers_text(t: TriggerModifiers) -> Seq<char> {
    match t {
        TriggerModifiers::All(m) => seq!['['] + modifiers_text(m) + seq![']'],
        TriggerModifiers::Any => Seq::empty(),
    }
}

/// What reading a text as the modifiers of a trigger gives: exactly the set it names.
pub open spec fn parse_trigger_modifiers(s: Seq<char>) -> Option<TriggerModifiers> {
    match parse_modifiers(s) {
        Some(m) => Some(TriggerModifiers::All(m)),
        None => None,
    }
}

impl TriggerModifiers {
    /// The text of the modifiers; see [`trigger_modifiers_text`].
    pub fn to_string(&self) -> (r: String)
        ensures
            r@ == trigger_modifiers_text(*self),
    {
        let mut r = String::new();
        match self {
            TriggerModifiers::All(m) => {
                push_char(&mut r, '[');
                push_str(&mut r, &m.to_string());
                push_char(&mut r, ']');
            },
            TriggerModifiers::Any => {},
        }
        assert(r@ =~= trigger_modifiers_text(*self));
        r
    }

    /// Reads the modifiers of a trigger from characters; see [`parse_trigger_modifiers`].
    pub fn parse_chars(s: &Vec<char>) -> (r: Result<Self, String>)
        ensures
            match parse_trigger_modifiers(s@) {
                Some(m) => r == Ok::<Self, String>(m),
                None => r is Err && r->Err_0@ == modifiers_error(s@),
            },
    {
        match KeyModifiers::parse_chars(s) {
            Ok(m) => Ok(TriggerModifiers::All(m)),
            Err(e) => Err(e),
        }
    }

    /// Reads the modifiers of a trigger from a text; see [`parse_trigger_modifiers`].
    pub fn from_text(s: &str) -> (r: Result<Self, String>)
        ensures
            match parse_trigger_modifiers(s@) {
                Some(m) => r == Ok::<Self, String>(m),
                None => r is Err && r->Err_0@ == modifiers_error(s@),
            },
    {
        Self::parse_chars(&chars_of(s))
    }
}

// ---------------------------------------------------------------------------
// Reading back what was written
// ---------------------------------------------------------------------------

proof fn lemma_names_bits_append(a: Seq<Seq<char>>, b: Seq<Seq<char>>)
    ensures
        names_bits(a + b) == names_bits(a) | names_bits(b),
    decreases b.len(),
{
    if b.len() == 0 {
        assert(a + b =~= a);
        let x = names_bits(a);
        assert(x | 0u8 == x) by (bit_vector);
    } else {
        lemma_names_bits_append(a, b.drop_last());
        assert((a + b).drop_last() =~= a + b.drop_last());
        assert((a + b).last() == b.last());
        let x = names_bits(a);
        let y = names_bits(b.drop_last());
        let z = name_bits(b.last());
        assert((x | y) | z == x | (y | z)) by (bit_vector);
    }
}

proof fn lemma_modifier_names_known(i: int)
    requires
        0 <= i < 8,
    ensures
        name_bits(modifier_name(i)) == modifier_bit(i),
        modifier_name(i).len() > 0,
        is_trimmed(modifier_name(i)),
        has_no_sep(modifier_name(i), '+', '+'),
{
    if i == 0 {
        let n = seq!['L', 'E', 'F', 'T', '_', 'S', 'H', 'I', 'F', 'T'];
        assert(modifier_name(i) == n);
        assert(!crate::text::is_ws(n[0]) && !crate::text::is_ws(n.last()));
        assert(has_no_sep(n, '+', '+'));
    } else if i == 1 {
        let n = seq!['R', 'I', 'G', 'H', 'T', '_', 'S', 'H', 'I', 'F', 'T'];
        assert(modifier_name(i) == n);
        assert(!crate::text::is_ws(n[0]) && !crate::text::is_ws(n.last()));
        assert(has_no_sep(n, '+', '+'));
        assert(n.len() != seq!['L', 'E', 'F', 'T', '_', 'S', 'H', 'I', 'F', 'T'].len());
    } else if i == 2 {
        let n = seq!['L', 'E', 'F', 'T', '_', 'C', 'T', 'R', 'L'];
        assert(modifier_name(i) == n);
        assert(!crate::text::is_ws(n[0]) && !crate::text::is_ws(n.last()));
        assert(has_no_sep(n, '+', '+'));
        assert(n.len() != seq!['L', 'E', 'F', 'T', '_', 'S', 'H', 'I', 'F', 'T'].len());
        assert(n.len() != seq!['R', 'I', 'G', 'H', 'T', '_', 'S', 'H', 'I', 'F', 'T'].len());
        assert(n.len() != seq!['S', 'H', 'I', 'F', 'T'].len());
    } else if i == 3 {
        let n = seq!['R', 'I', 'G', 'H', 'T', '_', 'C', 'T', 'R', 'L'];
        assert(modifier_name(i) == n);
        assert(!crate::text::is_ws(n[0]) && !crate::text::is_ws(n.last()));
        assert(has_no_sep(n, '+', '+'));
        assert(n[0] != seq!['L', 'E', 'F', 'T', '_', 'S', 'H', 'I', 'F', 'T'][0]);
        assert(n.len() != seq!['R', 'I', 'G', 'H', 'T', '_', 'S', 'H', 'I', 'F', 'T'].len());
        assert(n.len() != seq!['S', 'H', 'I', 'F', 'T'].len());
        assert(n.len() != seq!['L', 'E', 'F', 'T', '_', 'C', 'T', 'R', 'L'].len());
    } else if i == 4 {
        let n = seq!['L', 'E', 'F', 'T', '_', 'A', 'L', 'T'];
        assert(modifier_name(i) == n);
        assert(!crate::text::is_ws(n[0]) && !crate::text::is_ws(n.last()));
        assert(has_no_sep(n, '+', '+'));
        assert(n.len() != seq!['L', 'E', 'F', 'T', '_', 'S', 'H', 'I', 'F', 'T'].len());
        assert(n.len() != seq!['R', 'I', 'G', 'H', 'T', '_', 'S', 'H', 'I', 'F', 'T'].len());
        assert(n.len() != seq!['S', 'H', 'I', 'F', 'T'].len());
        assert(n.len() != seq!['L', 'E', 'F', 'T', '_', 'C', 'T', 'R', 'L'].len());
        assert(n.len() != seq!['R', 'I', 'G', 'H', 'T', '_', 'C', 'T', 'R', 'L'].len());
        assert(n.len() != seq!['C', 'T', 'R', 'L'].len());
    } else if i == 5 {
        let n = seq!['R', 'I', 'G', 'H', 'T', '_', 'A', 'L', 'T'];
        assert(modifier_name(i) == n);
        assert(!crate::text::is_ws(n[0]) && !crate::text::is_ws(n.last()));
        assert(has_no_sep(n, '+', '+'));
        assert(n.len() != seq!['L', 'E', 'F', 'T', '_', 'S', 'H', 'I', 'F', 'T'].len());
        assert(n.len() != seq!['R', 'I', 'G', 'H', 'T', '_', 'S', 'H', 'I', 'F', 'T'].len());
        assert(n.len() != seq!['S', 'H', 'I', 'F', 'T'].len());
        assert(n[0] != seq!['L', 'E', 'F', 'T', '_', 'C', 'T', 'R', 'L'][0]);
        assert(n.len() != seq!['R', 'I', 'G', 'H', 'T', '_', 'C', 'T', 'R', 'L'].len());
        assert(n.len() != seq!['C', 'T', 'R', 'L'].len());
        assert(n.len() != seq!['L', 'E', 'F', 'T', '_', 'A', 'L', 'T'].len());
    } else if i == 6 {
        let n = seq!['L', 'E', 'F', 'T', '_', 'W', 'I', 'N'];
        assert(modifier_name(i) == n);
        assert(!crate::text::is_ws(n[0]) && !crate::text::is_ws(n.last()));
        assert(has_no_sep(n, '+', '+'));
        assert(n.len() != seq!['L', 'E', 'F', 'T', '_', 'S', 'H', 'I', 'F', 'T'].len());
        assert(n.len() != seq!['R', 'I', 'G', 'H', 'T', '_', 'S', 'H', 'I', 'F', 'T'].len());
        assert(n.len() != seq!['S', 'H', 'I', 'F', 'T'].len());
        assert(n.len() != seq!['L', 'E', 'F', 'T', '_', 'C', 'T', 'R', 'L'].len());
        assert(n.len() != seq!['R', 'I', 'G', 'H', 'T', '_', 'C', 'T', 'R', 'L'].len());
        assert(n.len() != seq!['C', 'T', 'R', 'L'].len());
        assert(n[5] != seq!['L', 'E', 'F', 'T', '_', 'A', 'L', 'T'][5]);
        assert(n.len() != seq!['R', 'I', 'G', 'H', 'T', '_', 'A', 'L', 'T'].len());
        assert(n.len() != seq!['A', 'L', 'T'].len());
    } else if i == 7 {
        let n = seq!['R', 'I', 'G', 'H', 'T', '_', 'W', 'I', 'N'];
        assert(modifier_name(i) == n);
        assert(!crate::text::is_ws(n[0]) && !crate::text::is_ws(n.last()));
        assert(has_no_sep(n, '+', '+'));
        assert(n.len() != seq!['L', 'E', 'F', 'T', '_', 'S', 'H', 'I', 'F', 'T'].len());
        assert(n.len() != seq!['R', 'I', 'G', 'H', 'T', '_', 'S', 'H', 'I', 'F', 'T'].len());
        assert(n.len() != seq!['S', 'H', 'I', 'F', 'T'].len());
        assert(n[0] != seq!['L', 'E', 'F', 'T', '_', 'C', 'T', 'R', 'L'][0]);
        assert(n.len() != seq!['R', 'I', 'G', 'H', 'T', '_', 'C', 'T', 'R', 'L'].len());
        assert(n.len() != seq!['C', 'T', 'R', 'L'].len());
        assert(n.len() != seq!['L', 'E', 'F', 'T', '_', 'A', 'L', 'T'].len());
        assert(n[6] != seq!['R', 'I', 'G', 'H', 'T', '_', 'A', 'L', 'T'][6]);
        assert(n.len() != seq!['A', 'L', 'T'].len());
        assert(n.len() != seq!['L', 'E', 'F', 'T', '_', 'W', 'I', 'N'].len());
    }
}

proof fn lemma_name_if_held_bits(m: KeyModifiers, i: int)
    requires
        0 <= i < 8,
    ensures
        names_bits(name_if_held(m, i)) == (if has_bits(m, modifier_bit(i)) {
            modifier_bit(i)
        } else {
            0u8
        }),
{
    lemma_modifier_names_known(i);
    if has_bits(m, modifier_bit(i)) {
        let s = name_if_held(m, i);
        assert(s.drop_last() =~= Seq::<Seq<char>>::empty());
        assert(names_bits(Seq::<Seq<char>>::empty()) == 0);
        assert(s.last() == modifier_name(i));
        let b = modifier_bit(i);
        assert(0u8 | b == b) by (bit_vector);
        assert(names_bits(s) == names_bits(s.drop_last()) | name_bits(s.last()));
    } else {
        assert(name_if_held(m, i) =~= Seq::<Seq<char>>::empty());
        assert(names_bits(Seq::<Seq<char>>::empty()) == 0);
    }
}

/// Reading the text of a set of modifiers gives that set back.
pub proof fn law_modifiers_text_round_trip(m: KeyModifiers)
    ensures
        parse_modifiers(modifiers_text(m)) == Some(m),
{
    let names = modifier_names(m);
    assert forall|i: int| 0 <= i < names.len() implies (#[trigger] names[i]).len() > 0 && is_trimmed(
        names[i],
    ) && has_no_sep(names[i], '+', '+') by {
        let k = choose_index(m, i);
        lemma_modifier_names_known(k);
    }
    // the union of the names is the set
    lemma_names_bits_append(
        name_if_held(m, 0) + name_if_held(m, 1) + name_if_held(m, 2) + name_if_held(m, 3)
            + name_if_held(m, 4) + name_if_held(m, 5) + name_if_held(m, 6),
        name_if_held(m, 7),
    );
    lemma_names_bits_append(
        name_if_held(m, 0) + name_if_held(m, 1) + name_if_held(m, 2) + name_if_held(m, 3)
            + name_if_held(m, 4) + name_if_held(m, 5),
        name_if_held(m, 6),
    );
    lemma_names_bits_append(
        name_if_held(m, 0) + name_if_held(m, 1) + name_if_held(m, 2) + name_if_held(m, 3)
            + name_if_held(m, 4),
        name_if_held(m, 5),
    );
    lemma_names_bits_append(
        name_if_held(m, 0) + name_if_held(m, 1) + name_if_held(m, 2) + name_if_held(m, 3),
        name_if_held(m, 4),
    );
    lemma_names_bits_append(
        name_if_held(m, 0) + name_if_held(m, 1) + name_if_held(m, 2),
        name_if_held(m, 3),
    );
    lemma_names_bits_append(name_if_held(m, 0) + name_if_held(m, 1), name_if_held(m, 2));
    lemma_names_bits_append(name_if_held(m, 0), name_if_held(m, 1));
    lemma_name_if_held_bits(m, 0);
    lemma_name_if_held_bits(m, 1);
    lemma_name_if_held_bits(m, 2);
    lemma_name_if_held_bits(m, 3);
    lemma_name_if_held_bits(m, 4);
    lemma_name_if_held_bits(m, 5);
    lemma_name_if_held_bits(m, 6);
    lemma_name_if_held_bits(m, 7);
    let v = m.0;
    assert((if v & 1 == 1 { 1u8 } else { 0u8 }) | (if v & 2 == 2 { 2u8 } else { 0u8 }) | (if v
        & 4 == 4 { 4u8 } else { 0u8 }) | (if v & 8 == 8 { 8u8 } else { 0u8 }) | (if v & 16 == 16 {
        16u8
    } else {
        0u8
    }) | (if v & 32 == 32 { 32u8 } else { 0u8 }) | (if v & 64 == 64 { 64u8 } else { 0u8 }) | (if v
        & 128 == 128 { 128u8 } else { 0u8 }) == v) by (bit_vector);
    assert(names_bits(names) == v);
    if names.len() == 0 {
        assert(v == 0);
        assert(modifiers_text(m) =~= Seq::<char>::empty());
    } else {
        lemma_join_trimmed(names, seq![' ', '+', ' ']);
        lemma_trim_trimmed(modifiers_text(m));
        lemma_split_join_trim(names, '+', '+', '+');
        crate::text::lemma_join_ends(names, seq![' ', '+', ' ']);
        assert(v != 0) by {
            let k = choose_index(m, 0);
            lemma_modifier_names_known(k);
            assert(has_bits(m, modifier_bit(k)));
            let b = modifier_bit(k);
            assert(b != 0);
            assert(v & b == b && b != 0 ==> v != 0) by (bit_vector);
        }
    }
}

/// The text of a set of modifiers has none of the characters that separate the parts of a
/// trigger, a rule or a list of rules.
pub proof fn lemma_modifiers_text_chars(m: KeyModifiers)
    ensures
        has_no_sep(modifiers_text(m), ']', ':'),
        has_no_sep(modifiers_text(m), ',', '\n'),
{
    let names = modifier_names(m);
    assert forall|i: int| 0 <= i < names.len() implies has_no_sep(#[trigger] names[i], ']', ':')
        && has_no_sep(names[i], ',', '\n') by {
        let k = choose_index(m, i);
        let n = modifier_name(k);
        assert forall|j: int| 0 <= j < n.len() implies !is_sep(#[trigger] n[j], ']', ':')
            && !is_sep(n[j], ',', '\n') by {
            assert('A' <= n[j] <= 'Z' || n[j] == '_');
        }
    }
    let sep = seq![' ', '+', ' '];
    assert(has_no_sep(sep, ']', ':'));
    assert(has_no_sep(sep, ',', '\n'));
    crate::text::lemma_join_no_sep(names, sep, ']', ':');
    crate::text::lemma_join_no_sep(names, sep, ',', '\n');
}

/// The modifier whose name stands at position `i` of the names of the set.
proof fn choose_index(m: KeyModifiers, i: int) -> (k: int)
    requires
        0 <= i < modifier_names(m).len(),
    ensures
        0 <= k < 8,
        modifier_names(m)[i] == modifier_name(k),
        has_bits(m, modifier_bit(k)),
{
    let s0 = name_if_held(m, 0);
    let s1 = s0 + name_if_held(m, 1);
    let s2 = s1 + name_if_held(m, 2);
    let s3 = s2 + name_if_held(m, 3);
    let s4 = s3 + name_if_held(m, 4);
    let s5 = s4 + name_if_held(m, 5);
    let s6 = s5 + name_if_held(m, 6);
    let s7 = s6 + name_if_held(m, 7);
    assert(s7 == modifier_names(m));
    if i < s0.len() {
        0
    } else if i < s1.len() {
        assert(s1[i] == name_if_held(m, 1)[i - s0.len()]);
        1
    } else if i < s2.len() {
        assert(s2[i] == name_if_held(m, 2)[i - s1.len()]);
        assert(s7[i] == s2[i]);
        2
    } else if i < s3.len() {
        assert(s3[i] == name_if_held(m, 3)[i - s2.len()]);
        assert(s7[i] == s3[i]);
        3
    } else if i < s4.len() {
        assert(s4[i] == name_if_held(m, 4)[i - s3.len()]);
        assert(s7[i] == s4[i]);
        4
    } else if i < s5.len() {
        assert(s5[i] == name_if_held(m, 5)[i - s4.len()]);
        assert(s7[i] == s5[i]);
        5
    } else if i < s6.len() {
        assert(s6[i] == name_if_held(m, 6)[i - s5.len()]);
        assert(s7[i] == s6[i]);
        6
    } else {
        assert(s7[i] == name_if_held(m, 7)[i - s6.len()]);
        7
    }
}

// ---------------------------------------------------------------------------
// What the modifiers held and the names of modifiers mean
// ---------------------------------------------------------------------------

proof fn lemma_state_bits(
    x: u8,
    d0: bool,
    d1: bool,
    d2: bool,
    d3: bool,
    d4: bool,
    d5: bool,
    d6: bool,
    d7: bool,
)
    by (bit_vector)
    requires
        x == (if d0 { 1u8 } else { 0u8 }) | (if d1 { 2u8 } else { 0u8 }) | (if d2 { 4u8 } else {
            0u8
        }) | (if d3 { 8u8 } else { 0u8 }) | (if d4 { 16u8 } else { 0u8 }) | (if d5 { 32u8 } else {
            0u8
        }) | (if d6 { 64u8 } else { 0u8 }) | (if d7 { 128u8 } else { 0u8 }),
    ensures
        (x & 1u8 == 1u8) == d0,
        (x & 2u8 == 2u8) == d1,
        (x & 4u8 == 4u8) == d2,
        (x & 8u8 == 8u8) == d3,
        (x & 16u8 == 16u8) == d4,
        (x & 32u8 == 32u8) == d5,
        (x & 64u8 == 64u8) == d6,
        (x & 128u8 == 128u8) == d7,
{
}

/// The key of the key table that bears the name of a modifier has the modifier's virtual
/// key code.
proof fn lemma_modifier_key(i: int)
    requires
        0 <= i < 8,
    ensures
        key_by_name(modifier_name(i)) matches Some(k) && k.vk_code == modifier_vk_code(i),
{
    lemma_modifier_keys_in_table();
    lemma_modifier_names_known(i);
    lemma_trim_trimmed(modifier_name(i));
    let j: int = if i == 0 {
        110
    } else if i == 1 {
        174
    } else if i == 2 {
        109
    } else if i == 3 {
        173
    } else if i == 4 {
        106
    } else if i == 5 {
        170
    } else if i == 6 {
        111
    } else {
        176
    };
    law_key_table_round_trip(j);
    assert(key_name_spec(j as u8) == modifier_name(i));
}

/// The modifiers read from a keyboard state are exactly the modifier keys that it tells are
/// down: for each of the eight modifier keys, its bit is in the set exactly when the state of
/// its virtual key has its high bit set (left and right shift, control and alt at `0xA0` to
/// `0xA5`, the win keys at `0x5B` and `0x5C`). Each modifier has a bit of its own, and the key
/// of the key table that bears the modifier's name has the modifier's virtual key code.
pub proof fn law_keyboard_state_modifiers(keys: Seq<u8>)
    requires
        keys.len() == 256,
    ensures
        forall|i: int|
            0 <= i < 8 ==> (has_bits(KeyModifiers(state_modifiers(keys)), #[trigger] modifier_bit(i))
                <==> keys[modifier_vk_code(i)] & 0x80 != 0),
        forall|i: int, j: int|
            0 <= i < 8 && 0 <= j < 8 && i != j ==> #[trigger] modifier_bit(i) & #[trigger] modifier_bit(j)
                == 0,
        forall|i: int|
            0 <= i < 8 ==> ((#[trigger] key_by_name(modifier_name(i))) matches Some(k)
                && k.vk_code == modifier_vk_code(i)),
{
    lemma_state_bits(
        state_modifiers(keys),
        modifier_down(keys, 0),
        modifier_down(keys, 1),
        modifier_down(keys, 2),
        modifier_down(keys, 3),
        modifier_down(keys, 4),
        modifier_down(keys, 5),
        modifier_down(keys, 6),
        modifier_down(keys, 7),
    );
    assert forall|i: int, j: int|
        0 <= i < 8 && 0 <= j < 8 && i != j implies #[trigger] modifier_bit(i) & #[trigger] modifier_bit(j)
            == 0 by {
        let a = modifier_bit(i);
        let b = modifier_bit(j);
        assert(a == 1 || a == 2 || a == 4 || a == 8 || a == 16 || a == 32 || a == 64 || a == 128);
        assert(b == 1 || b == 2 || b == 4 || b == 8 || b == 16 || b == 32 || b == 64 || b == 128);
        assert(a != b);
        assert((a == 1 || a == 2 || a == 4 || a == 8 || a == 16 || a == 32 || a == 64 || a == 128)
            && (b == 1 || b == 2 || b == 4 || b == 8 || b == 16 || b == 32 || b == 64 || b == 128)
            && a != b ==> a & b == 0) by (bit_vector);
    }
    assert forall|i: int| 0 <= i < 8 implies ((#[trigger] key_by_name(modifier_name(i))) matches Some(k)
        && k.vk_code == modifier_vk_code(i)) by {
        lemma_modifier_key(i);
    }
}

/// The name of a kind of modifier (`SHIFT`, `CTRL`, `ALT`, `WIN`): the name of its left key
/// without `LEFT_`.
pub open spec fn modifier_kind_name(k: int) -> Seq<char> {
    modifier_name(2 * k).skip(5)
}

proof fn lemma_kind_name(k: int)
    requires
        0 <= k < 4,
    ensures
        modifier_name(2 * k) == seq!['L', 'E', 'F', 'T', '_'] + modifier_kind_name(k),
        modifier_name(2 * k + 1) == seq!['R', 'I', 'G', 'H', 'T', '_'] + modifier_kind_name(k),
        name_bits(modifier_kind_name(k)) == modifier_bit(2 * k) | modifier_bit(2 * k + 1),
        modifier_kind_name(k).len() > 0,
        is_trimmed(modifier_kind_name(k)),
        has_no_sep(modifier_kind_name(k), '+', '+'),
{
    let n = modifier_kind_name(k);
    if k == 0 {
        assert(n =~= seq!['S', 'H', 'I', 'F', 'T']);
        assert(1u8 | 2u8 == 3u8) by (bit_vector);
    } else if k == 1 {
        assert(n =~= seq!['C', 'T', 'R', 'L']);
        assert(n.len() != seq!['S', 'H', 'I', 'F', 'T'].len());
        assert(4u8 | 8u8 == 12u8) by (bit_vector);
    } else if k == 2 {
        assert(n =~= seq!['A', 'L', 'T']);
        assert(n.len() != seq!['S', 'H', 'I', 'F', 'T'].len());
        assert(n.len() != seq!['C', 'T', 'R', 'L'].len());
        assert(16u8 | 32u8 == 48u8) by (bit_vector);
    } else {
        assert(n =~= seq!['W', 'I', 'N']);
        assert(n.len() != seq!['S', 'H', 'I', 'F', 'T'].len());
        assert(n.len() != seq!['C', 'T', 'R', 'L'].len());
        assert(n[0] != seq!['A', 'L', 'T'][0]);
        assert(64u8 | 128u8 == 192u8) by (bit_vector);
    }
    assert(modifier_name(2 * k) =~= seq!['L', 'E', 'F', 'T', '_'] + n);
    assert(modifier_name(2 * k + 1) =~= seq!['R', 'I', 'G', 'H', 'T', '_'] + n);
    assert(!crate::text::is_ws(n[0]) && !crate::text::is_ws(n.last()));
    assert(has_no_sep(n, '+', '+'));
}

/// What reading names joined by `+` gives, for names that are not empty, trimmed and without
/// `+`: the union of the bits of the names, when it is not empty.
proof fn lemma_parse_joined_names(names: Seq<Seq<char>>)
    requires
        names.len() >= 1,
        forall|i: int|
            0 <= i < names.len() ==> (#[trigger] names[i]).len() > 0 && is_trimmed(names[i])
                && has_no_sep(names[i], '+', '+'),
    ensures
        parse_modifiers(join(names, seq!['+'])) == (if names_bits(names) != 0 {
            Some(KeyModifiers(names_bits(names)))
        } else {
            None::<KeyModifiers>
        }),
{
    let j = join(names, seq!['+']);
    lemma_join_trimmed(names, seq!['+']);
    lemma_trim_trimmed(j);
    crate::text::lemma_join_ends(names, seq!['+']);
    crate::text::lemma_split_join(names, '+', '+', '+');
    assert forall|i: int| 0 <= i < names.len() implies trim(#[trigger] names[i]) == names[i] by {
        lemma_trim_trimmed(names[i]);
    }
    assert(trim_all(names) =~= names);
}

/// A kind of modifier (`SHIFT`, `CTRL`, `ALT`, `WIN`) reads as both its keys, left and right:
/// after any names, the name of the kind gives what the names of its two keys give, and the
/// set read holds both keys.
pub proof fn law_modifier_kind_names(names: Seq<Seq<char>>, k: int)
    requires
        0 <= k < 4,
        forall|i: int|
            0 <= i < names.len() ==> (#[trigger] names[i]).len() > 0 && is_trimmed(names[i])
                && has_no_sep(names[i], '+', '+'),
    ensures
        modifier_name(2 * k) == seq!['L', 'E', 'F', 'T', '_'] + modifier_kind_name(k),
        modifier_name(2 * k + 1) == seq!['R', 'I', 'G', 'H', 'T', '_'] + modifier_kind_name(k),
        parse_modifiers(join(names.push(modifier_kind_name(k)), seq!['+'])) == parse_modifiers(
            join(names.push(modifier_name(2 * k)).push(modifier_name(2 * k + 1)), seq!['+']),
        ),
        parse_modifiers(join(names.push(modifier_kind_name(k)), seq!['+'])) matches Some(m)
            && has_bits(m, modifier_bit(2 * k)) && has_bits(m, modifier_bit(2 * k + 1)),
{
    lemma_kind_name(k);
    lemma_modifier_names_known(2 * k);
    lemma_modifier_names_known(2 * k + 1);
    let a = names.push(modifier_kind_name(k));
    let b = names.push(modifier_name(2 * k)).push(modifier_name(2 * k + 1));
    assert forall|i: int|
        0 <= i < a.len() implies (#[trigger] a[i]).len() > 0 && is_trimmed(a[i]) && has_no_sep(
        a[i],
        '+',
        '+',
    ) by {
        if i < names.len() {
            assert(a[i] == names[i]);
        }
    }
    assert forall|i: int|
        0 <= i < b.len() implies (#[trigger] b[i]).len() > 0 && is_trimmed(b[i]) && has_no_sep(
        b[i],
        '+',
        '+',
    ) by {
        if i < names.len() {
            assert(b[i] == names[i]);
        }
    }
    lemma_parse_joined_names(a);
    lemma_parse_joined_names(b);
    assert(a.drop_last() =~= names);
    assert(b.drop_last() =~= names.push(modifier_name(2 * k)));
    assert(b.drop_last().drop_last() =~= names);
    let x = names_bits(names);
    let l = modifier_bit(2 * k);
    let r = modifier_bit(2 * k + 1);
    assert(names_bits(a) == x | (l | r));
    assert(names_bits(b.drop_last()) == x | l);
    assert(b.last() == modifier_name(2 * k + 1));
    assert(names_bits(b) == (x | l) | r);
    assert((l == 1 && r == 2) || (l == 4 && r == 8) || (l == 16 && r == 32) || (l == 64 && r
        == 128));
    assert(((l == 1 && r == 2) || (l == 4 && r == 8) || (l == 16 && r == 32) || (l == 64 && r
        == 128)) ==> (x | (l | r)) == ((x | l) | r) && (x | (l | r)) != 0 && (x | (l | r)) & l == l
        && (x | (l | r)) & r == r) by (bit_vector);
}

} // verus!
