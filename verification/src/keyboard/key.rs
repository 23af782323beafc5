//! Keys, as a virtual key code with a (possibly extended) scan code.
use vstd::prelude::*;
use crate::keyboard::key_const::{
    key_at, key_name_at, key_name_spec, key_spec, lemma_key_names_distinct, lemma_keys_distinct,
    scan_code_name, scan_code_name_spec, virtual_key_name, virtual_key_name_spec, MAX_KEYS,
    MAX_SCAN_CODE,
};
use crate::text::{chars_eq, chars_of, push_str, string_of, trim, trim_chars};

verus! {

/// A key: a virtual key code and a scan code, plain or extended.
#[derive(Copy, Clone, Debug, PartialEq, Eq, Hash, Structural)]
pub struct Key {
    pub vk_code: u8,
    pub scan_code: u8,
    pub is_ext_scan_code: bool,
}

/// A virtual key: its code and its name.
#[derive(Copy, Clone, Debug, PartialEq, Eq)]
pub struct VirtualKey {
    pub value: u8,
    pub name: &'static str,
}

/// A scan code: its value, whether it is extended, and its name.
#[derive(Copy, Clone, Debug, PartialEq, Eq)]
pub struct ScanCode {
    pub value: u8,
    pub is_extended: bool,
    pub name: &'static str,
}

/// The first position, from `i` on, of the key table whose name is `name`; -1 if there is none.
pub closed spec fn name_index_from(name: Seq<char>, i: int) -> int
    decreases MAX_KEYS - i,
{
    if i < 0 || i >= MAX_KEYS {
        -1
    } else if key_name_spec(i as u8) == name {
        i
    } else {
        name_index_from(name, i + 1)
    }
}

/// The first position, from `i` on, of the key table that holds `key`; -1 if there is none.
pub closed spec fn key_index_from(key: Key, i: int) -> int
    decreases MAX_KEYS - i,
{
    if i < 0 || i >= MAX_KEYS {
        -1
    } else if key_spec(i as u8) == key {
        i
    } else {
        key_index_from(key, i + 1)
    }
}

/// The position of the key table whose name is `name`; -1 if there is none.
pub open spec fn name_index(name: Seq<char>) -> int {
    name_index_from(name, 0)
}

/// The position of the key table that holds `key`; -1 if there is none.
pub open spec fn key_index(key: Key) -> int {
    key_index_from(key, 0)
}

/// The key whose name is `name` once trimmed, if the table has one.
pub open spec fn key_by_name(name: Seq<char>) -> Option<Key> {
    let i = name_index(trim(name));
    if i >= 0 {
        Some(key_spec(i as u8))
    } else {
        None
    }
}

/// The error of a name that no key of the table has: the name, trimmed, in the message.
pub open spec fn key_name_error(name: Seq<char>) -> Seq<char> {
    "Illegal key name: `"@ + trim(name) + "`."@
}

/// Whether the key table holds the key.
pub open spec fn is_known_key(key: Key) -> bool {
    key_index(key) >= 0
}

/// The name of a key of the table.
pub open spec fn key_name(key: Key) -> Seq<char> {
    key_name_spec(key_index(key) as u8)
}

proof fn lemma_name_index_from(name: Seq<char>, i: int)
    requires
        0 <= i,
    ensures
        -1 <= name_index_from(name, i) < MAX_KEYS,
        name_index_from(name, i) >= 0 ==> name_index_from(name, i) >= i
            && key_name_spec(name_index_from(name, i) as u8) == name,
    decreases MAX_KEYS - i,
{
    if i < MAX_KEYS && key_name_spec(i as u8) != name {
        lemma_name_index_from(name, i + 1);
    }
}

proof fn lemma_key_index_from(key: Key, i: int)
    requires
        0 <= i,
    ensures
        -1 <= key_index_from(key, i) < MAX_KEYS,
        key_index_from(key, i) >= 0 ==> key_index_from(key, i) >= i
            && key_spec(key_index_from(key, i) as u8) == key,
    decreases MAX_KEYS - i,
{
    if i < MAX_KEYS && key_spec(i as u8) != key {
        lemma_key_index_from(key, i + 1);
    }
}

/// A position found by name, or by key, holds that name, or that key.
pub proof fn lemma_index_bounds(name: Seq<char>, key: Key)
    ensures
        -1 <= name_index(name) < MAX_KEYS,
        name_index(name) >= 0 ==> key_name_spec(name_index(name) as u8) == name,
        -1 <= key_index(key) < MAX_KEYS,
        key_index(key) >= 0 ==> key_spec(key_index(key) as u8) == key,
{
    lemma_name_index_from(name, 0);
    lemma_key_index_from(key, 0);
}

proof fn lemma_name_found_at(i: int, j: int)
    requires
        0 <= j <= i < MAX_KEYS,
    ensures
        name_index_from(key_name_spec(i as u8), j) == i,
    decreases i - j,
{
    if j < i {
        lemma_key_names_distinct(j, i);
        lemma_name_found_at(i, j + 1);
    }
}

proof fn lemma_key_found_at(i: int, j: int)
    requires
        0 <= j <= i < MAX_KEYS,
    ensures
        key_index_from(key_spec(i as u8), j) == i,
    decreases i - j,
{
    if j < i {
        lemma_keys_distinct(j, i);
        lemma_key_found_at(i, j + 1);
    }
}

/// The key table is a one-to-one correspondence of names and keys: the entry at position `i`
/// is found again both by its name and by its key, and the name of its key is its name.
pub proof fn law_key_table_round_trip(i: int)
    requires
        0 <= i < MAX_KEYS,
    ensures
        name_index(key_name_spec(i as u8)) == i,
        key_index(key_spec(i as u8)) == i,
        is_known_key(key_spec(i as u8)),
        key_name(key_spec(i as u8)) == key_name_spec(i as u8),
{
    lemma_name_found_at(i, 0);
    lemma_key_found_at(i, 0);
}

/// A key of the table has a scan code below the number of scan codes.
pub proof fn lemma_known_key_scan_code(key: Key)
    requires
        is_known_key(key),
    ensures
        (key.scan_code as usize) < MAX_SCAN_CODE,
{
    lemma_index_bounds(Seq::empty(), key);
    crate::keyboard::key_const::lemma_key_scan_codes(key_index(key));
}

/// Looking a key up by its name gives the key back, for every key of the table; and the name
/// of the key found for a name is that name.
pub proof fn law_name_of_key_round_trip(key: Key, name: Seq<char>)
    ensures
        is_known_key(key) ==> name_index(key_name(key)) >= 0 && key_spec(
            name_index(key_name(key)) as u8,
        ) == key,
        name_index(name) >= 0 ==> key_name(key_spec(name_index(name) as u8)) == name,
{
    lemma_index_bounds(name, key);
    if is_known_key(key) {
        law_key_table_round_trip(key_index(key));
    }
    if name_index(name) >= 0 {
        law_key_table_round_trip(name_index(name));
    }
}

impl Key {
    /// The key whose name is `name` (surrounding whitespace ignored).
    pub fn from_name(name: &str) -> (r: Result<Key, String>)
        ensures
            match key_by_name(name@) {
                Some(k) => r == Ok::<Key, String>(k),
                None => r is Err && r->Err_0@ == key_name_error(name@),
            },
    {
        Self::parse_chars(&chars_of(name))
    }

    /// The key whose name is given by the characters (surrounding whitespace ignored).
    pub fn parse_chars(name: &Vec<char>) -> (r: Result<Key, String>)
        ensures
            match key_by_name(name@) {
                Some(k) => r == Ok::<Key, String>(k),
                None => r is Err && r->Err_0@ == key_name_error(name@),
            },
    {
        let t = trim_chars(name);
        match Self::find_by_name(&t) {
            Some(k) => Ok(k),
            None => {
                let mut e = String::new();
                push_str(&mut e, "Illegal key name: `");
                push_str(&mut e, &string_of(&t));
                push_str(&mut e, "`.");
                Err(e)
            },
        }
    }

    /// The key whose name is exactly `name`, if the key table has one.
    pub fn find_by_name(name: &Vec<char>) -> (r: Option<Key>)
        ensures
            r == (if name_index(name@) >= 0 {
                Some(key_spec(name_index(name@) as u8))
            } else {
                None::<Key>
            }),
    {
        let mut i: u8 = 0;
        while (i as usize) < MAX_KEYS
            invariant
                i <= MAX_KEYS,
                name_index(name@) == name_index_from(name@, i as int),
            decreases MAX_KEYS - i,
        {
            if chars_eq(name, key_name_at(i)) {
                return Some(key_at(i));
            }
            i = i + 1;
        }
        None
    }

    /// The position of the key in the key table, if it is there.
    pub fn table_index(&self) -> (r: Option<u8>)
        ensures
            r == (if key_index(*self) >= 0 {
                Some(key_index(*self) as u8)
            } else {
                None::<u8>
            }),
    {
        let mut i: u8 = 0;
        while (i as usize) < MAX_KEYS
            invariant
                i <= MAX_KEYS,
                key_index(*self) == key_index_from(*self, i as int),
            decreases MAX_KEYS - i,
        {
            if key_at(i) == *self {
                return Some(i);
            }
            i = i + 1;
        }
        None
    }

    /// The name of the key, for a key of the key table.
    pub fn name(&self) -> (r: &'static str)
        requires
            is_known_key(*self),
        ensures
            r@ == key_name(*self),
    {
        proof {
            lemma_index_bounds(Seq::empty(), *self);
        }
        match self.table_index() {
            Some(i) => key_name_at(i),
            None => "",
        }
    }

    /// The virtual key of the key.
    pub fn virtual_key(&self) -> (r: VirtualKey)
        ensures
            r.value == self.vk_code,
            r.name@ == virtual_key_name_spec(self.vk_code),
    {
        VirtualKey { value: self.vk_code, name: virtual_key_name(self.vk_code) }
    }

    /// The scan code of the key.
    pub fn scan_code(&self) -> (r: ScanCode)
        requires
            (self.scan_code as usize) < MAX_SCAN_CODE,
        ensures
            r.value == self.scan_code,
            r.is_extended == self.is_ext_scan_code,
            r.name@ == scan_code_name_spec(self.scan_code, self.is_ext_scan_code),
    {
        ScanCode {
            value: self.scan_code,
            is_extended: self.is_ext_scan_code,
            name: scan_code_name(self.scan_code, self.is_ext_scan_code),
        }
    }
}

impl ScanCode {
    /// The scan code with the extended prefix `0xE0` in its high byte when it is extended.
    pub fn ext_value(&self) -> (r: u16)
        ensures
            r == (if self.is_extended {
                0xE000 + self.value
            } else {
                self.value as int
            }),
    {
        if self.is_extended {
            0xE000u16 + self.value as u16
        } else {
            self.value as u16
        }
    }
}

} // verus!
