//! Keyboard events, as the low-level keyboard hook of the system reports them.
use vstd::prelude::*;
use crate::keyboard::key::Key;
use crate::keyboard::key_action::{KeyAction, KeyTransition};
use crate::keyboard::key_modifiers::{state_modifiers, KeyModifiers};

verus! {

/// The flag of a keystroke whose scan code is extended.
pub const LLKHF_EXTENDED: u32 = 0x01;

/// The flag of a keystroke that some program injected.
pub const LLKHF_INJECTED: u32 = 0x10;

/// The flag of a key that comes up.
pub const LLKHF_UP: u32 = 0x80;

/// What the low-level keyboard hook reports of a keystroke: its virtual key code, its scan code,
/// its flags, its time stamp and the extra information that the sender attached.
#[derive(Copy, Clone, Debug, PartialEq, Eq, Structural)]
pub struct KeyboardInput {
    pub vk_code: u32,
    pub scan_code: u32,
    pub flags: u32,
    pub time: u32,
    pub extra_info: usize,
}

/// A keystroke: the action, the modifiers held at the time, when it happened, whether some
/// program injected it, and whether this library sent it itself.
#[derive(Copy, Clone, Debug, PartialEq, Eq, Structural)]
pub struct KeyEvent {
    pub action: KeyAction,
    pub modifiers_state: KeyModifiers,
    pub time: u32,
    pub is_injected: bool,
    pub is_private: bool,
}

/// Whether the flags have the given flag set.
pub open spec fn has_flag(flags: u32, flag: u32) -> bool {
    flags & flag != 0
}

/// The key of a keystroke: the low bytes of its virtual key code and scan code, and whether the
/// scan code is extended.
pub open spec fn input_key(input: KeyboardInput) -> Key {
    Key {
        vk_code: input.vk_code as u8,
        scan_code: input.scan_code as u8,
        is_ext_scan_code: has_flag(input.flags, LLKHF_EXTENDED),
    }
}

/// The transition of a keystroke: up when the flags say so, down otherwise.
pub open spec fn input_transition(input: KeyboardInput) -> KeyTransition {
    if has_flag(input.flags, LLKHF_UP) {
        KeyTransition::Up
    } else {
        KeyTransition::Down
    }
}

impl Key {
    /// The key of a keystroke; see [`input_key`].
    pub fn from_keyboard_input(input: &KeyboardInput) -> (r: Key)
        ensures
            r == input_key(*input),
    {
        Key {
            vk_code: input.vk_code as u8,
            scan_code: input.scan_code as u8,
            is_ext_scan_code: input.flags & LLKHF_EXTENDED != 0,
        }
    }
}

impl KeyTransition {
    /// The transition of a keystroke; see [`input_transition`].
    pub fn from_keyboard_input(input: &KeyboardInput) -> (r: KeyTransition)
        ensures
            r == input_transition(*input),
    {
        if input.flags & LLKHF_UP != 0 {
            KeyTransition::Up
        } else {
            KeyTransition::Down
        }
    }
}

impl KeyAction {
    /// The action of a keystroke: its key and its transition.
    pub fn from_keyboard_input(input: &KeyboardInput) -> (r: KeyAction)
        ensures
            r == (KeyAction { key: input_key(*input), transition: input_transition(*input) }),
    {
        KeyAction {
            key: Key::from_keyboard_input(input),
            transition: KeyTransition::from_keyboard_input(input),
        }
    }
}

impl KeyEvent {
    /// The event of a keystroke, given the state of the keyboard at the time (the 256 key
    /// states) and the marker that this library attaches to the keystrokes it sends itself.
    pub fn new(input: &KeyboardInput, keyboard_state: [u8; 256], self_marker: usize) -> (r:
        KeyEvent)
        ensures
            r.action == (KeyAction { key: input_key(*input), transition: input_transition(*input) }),
            r.modifiers_state.0 == state_modifiers(keyboard_state@),
            r.time == input.time,
            r.is_injected == has_flag(input.flags, LLKHF_INJECTED),
            r.is_private == (input.extra_info == self_marker),
    {
        KeyEvent {
            action: KeyAction::from_keyboard_input(input),
            modifiers_state: KeyModifiers::from_keyboard_state(keyboard_state),
            time: input.time,
            is_injected: input.flags & LLKHF_INJECTED != 0,
            is_private: input.extra_info == self_marker,
        }
    }
}

} // verus!
