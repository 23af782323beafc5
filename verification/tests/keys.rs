use keympostor::key_transition::KeyTransition;
use keympostor::key_transition::KeyTransition::{Down, Up};
use keympostor::keyboard::key::Key;
use keympostor::keyboard::key_action::{KeyAction, KeyActionSequence};
use keympostor::keyboard::key_const::{key_at, key_name_at, MAX_KEYS};
use keympostor::keyboard::key_event::{
    KeyEvent, KeyboardInput, LLKHF_EXTENDED, LLKHF_INJECTED, LLKHF_UP,
};
use keympostor::keyboard::key_modifiers::{
    KeyModifiers, KeyModifiersMatrix, TriggerModifiers, KM_LALT, KM_LCTRL, KM_LSHIFT, KM_LWIN,
    KM_NONE, KM_RALT, KM_RCTRL, KM_RSHIFT, KM_RWIN,
};
use keympostor::keyboard::key_trigger::KeyTrigger;

fn key(name: &str) -> Key {
    Key::from_name(name).unwrap()
}

fn action(text: &str) -> KeyAction {
    KeyAction::from_text(text).unwrap()
}

fn km(bits: u8) -> KeyModifiers {
    KeyModifiers(bits)
}

#[test]
fn key_modifiers() {
    let mut modifiers = km(KM_NONE);

    modifiers |= km(KM_LSHIFT);
    assert!(modifiers.contains(km(KM_LSHIFT)));
    assert!(!modifiers.contains(km(KM_LALT)));

    modifiers |= km(KM_LALT);
    assert!(modifiers.contains(km(KM_LSHIFT)));
    assert!(modifiers.contains(km(KM_LALT)));
    assert!(modifiers.contains(km(KM_LALT) | km(KM_LSHIFT)));
    assert!(!modifiers.contains(km(KM_LCTRL) | km(KM_LSHIFT)));
}

#[test]
fn key_transition_display() {
    assert_eq!("↓", KeyTransition::Down.to_string());
    assert_eq!("↑", KeyTransition::Up.to_string());
}

#[test]
fn test_key_transition_display() {
    assert_eq!("↓", Down.to_string());
    assert_eq!("↑", Up.to_string());
}

#[test]
fn test_key_transition_basics() {
    assert_eq!(Up, KeyTransition::default());
    assert_eq!(Up, if true { Up } else { Down });
    assert!(Up.is_up());
    assert!(!Down.is_up());
}

#[test]
fn test_key_action_display() {
    let actual = KeyAction { key: key("ENTER"), transition: Down };
    assert_eq!("ENTER↓", actual.to_string());

    let actual = KeyAction { key: key("NUM_ENTER"), transition: Up };
    assert_eq!("NUM_ENTER↑", actual.to_string());
}

#[test]
fn test_key_action_create_input() {
    let actual = action("ENTER*").create_input();
    assert_eq!(0x0D, actual.virtual_key);
    assert_eq!(key("ENTER").scan_code().ext_value(), actual.scan_code);
    assert_eq!(0x1C, actual.scan_code);
    assert!(!actual.is_extended);
    assert!(!actual.is_key_up);

    let actual = action("NUM_ENTER^").create_input();
    assert_eq!(0x0D, actual.virtual_key);
    assert_eq!(key("NUM_ENTER").scan_code().ext_value(), actual.scan_code);
    assert_eq!(0xE01C, actual.scan_code);
    assert!(actual.is_extended);
    assert!(actual.is_key_up);
}

#[test]
fn test_key_action_sequence_display() {
    let actual = KeyActionSequence::from_text("ENTER↓ → SHIFT↑").unwrap();

    assert_eq!("ENTER↓ → SHIFT↑", actual.to_string());
}

#[test]
fn key_action_sequence_create_input_keeps_order() {
    let inputs = KeyActionSequence::from_text("LEFT_WIN↓ → SPACE↓ → SPACE↑")
        .unwrap()
        .create_input();
    assert_eq!(3, inputs.len());
    assert_eq!(0x5B, inputs[0].virtual_key);
    assert!(!inputs[0].is_key_up);
    assert_eq!(0x20, inputs[1].virtual_key);
    assert!(inputs[2].is_key_up);
}

#[test]
fn test_key_by_name() {
    for i in 0..MAX_KEYS {
        let i = i as u8;
        assert_eq!(Some(key_at(i)), Key::find_by_name(&key_name_at(i).chars().collect::<Vec<char>>()));
    }
}

#[test]
fn test_key_name() {
    for i in 0..MAX_KEYS {
        let i = i as u8;
        assert_eq!(key_name_at(i), key_at(i).name());
    }
}

#[test]
fn test_key_vk() {
    for i in 0..MAX_KEYS {
        key_at(i as u8).virtual_key(); /* should not panic */
    }
}

#[test]
fn test_key_sc() {
    for i in 0..MAX_KEYS {
        key_at(i as u8).scan_code(); /* should not panic */
    }
}

#[test]
fn key_names_and_codes() {
    assert_eq!("VK_RETURN", key("ENTER").virtual_key().name);
    assert_eq!("SC_ENTER", key("ENTER").scan_code().name);
    assert_eq!("SC_NUM_ENTER", key("NUM_ENTER").scan_code().name);
    assert_eq!(0x1C, key("ENTER").scan_code().value);
    assert!(key("NUM_ENTER").scan_code().is_extended);
}

#[test]
fn test_key_from_str() {
    assert_eq!(
        Key { vk_code: 0x0D, scan_code: 0x1C, is_ext_scan_code: false },
        Key::from_name("ENTER").unwrap()
    );
    assert_eq!(
        Key { vk_code: 0x0D, scan_code: 0x1C, is_ext_scan_code: true },
        Key::from_name("NUM_ENTER").unwrap()
    );
    assert_eq!(
        Key { vk_code: 0x72, scan_code: 0x3D, is_ext_scan_code: false },
        Key::from_name("F3").unwrap()
    );
}

#[test]
fn test_key_from_str_fails() {
    assert!(Key::from_name("BANANA").is_err());
}

#[test]
fn key_from_name_trims_and_reports() {
    assert_eq!(key("ENTER"), Key::from_name("  ENTER \n").unwrap());
    assert_eq!(Err("Illegal key name: `BANANA`.".to_string()), Key::from_name(" BANANA "));
}

#[test]
fn test_key_modifiers_display() {
    assert_eq!("", km(KM_NONE).to_string());
    assert_eq!("LEFT_SHIFT + RIGHT_WIN", km(KM_LSHIFT | KM_RWIN).to_string());
    assert_eq!("RIGHT_CTRL + LEFT_ALT", km(KM_LALT | KM_RCTRL).to_string());
}

#[test]
fn test_key_modifiers_display_short() {
    assert_eq!("........", km(KM_NONE).to_string_short());
    assert_eq!("S...W...", km(KM_LSHIFT | KM_RWIN).to_string_short());
    assert_eq!("..A...C.", km(KM_LALT | KM_RCTRL).to_string_short());
    assert_eq!(
        "SCAWWACS",
        km(KM_LSHIFT | KM_RSHIFT | KM_LWIN | KM_RWIN | KM_LALT | KM_RALT | KM_LCTRL | KM_RCTRL)
            .to_string_short()
    );
}

#[test]
fn test_key_modifiers_capture() {
    let mut keys = [0u8; 256];
    assert_eq!(km(KM_NONE), KeyModifiers::from_keyboard_state(keys));

    keys[0xA0] = 0x80; /* left shift */
    keys[0xA1] = 0x80; /* right shift */
    keys[0xA2] = 0x80; /* left control */
    keys[0x5C] = 0x80; /* right windows */

    assert_eq!(
        km(KM_LSHIFT | KM_RSHIFT | KM_LCTRL | KM_RWIN),
        KeyModifiers::from_keyboard_state(keys)
    );
}

#[test]
fn test_key_modifiers_matrix_display() {
    let actual = KeyModifiersMatrix::new(&[
        km(KM_LALT),
        km(KM_RSHIFT),
        km(KM_RCTRL),
        km(KM_NONE),
        km(KM_RCTRL | KM_RWIN),
        km(KM_NONE),
    ])
    .to_string();

    assert_eq!("LEFT_ALT, RIGHT_SHIFT, RIGHT_CTRL, RIGHT_CTRL + RIGHT_WIN", actual);
}

#[test]
fn test_key_modifiers_matrix_contains() {
    let matrix = KeyModifiersMatrix::new(&[
        km(KM_LALT),
        km(KM_RSHIFT),
        km(KM_RCTRL),
        km(KM_RCTRL | KM_RWIN),
    ]);

    assert!(matrix.has_item(km(KM_LALT)));
    assert!(!matrix.has_item(km(KM_RALT)));
    assert!(matrix.has_item(km(KM_RSHIFT)));
    assert!(!matrix.has_item(km(KM_LSHIFT)));
    assert!(matrix.has_item(km(KM_RCTRL | KM_RWIN)));
    assert!(!matrix.has_item(km(KM_RALT | KM_LWIN)));

    let matrix = KeyModifiersMatrix::new(&[
        km(KM_LALT),
        km(KM_RSHIFT),
        km(KM_RCTRL),
        km(KM_RCTRL | KM_RWIN),
    ]);
    assert!(!matrix.has_item(km(KM_RALT | KM_RSHIFT)));
}

#[test]
fn test_key_modifiers_from_str() {
    assert_eq!(TriggerModifiers::All(km(KM_NONE)), TriggerModifiers::from_text("").unwrap());
    assert_eq!(
        TriggerModifiers::All(km(KM_LSHIFT | KM_RSHIFT | KM_RWIN)),
        TriggerModifiers::from_text("LEFT_SHIFT + RIGHT_SHIFT + RIGHT_WIN").unwrap()
    );
}

#[test]
fn test_key_modifiers_from_str_fails() {
    assert!(TriggerModifiers::from_text("BANANA").is_err());
}

#[test]
fn key_modifiers_text_round_trip() {
    let m = km(KM_LSHIFT | KM_RCTRL | KM_LWIN);
    assert_eq!(Ok(m), KeyModifiers::from_text(&m.to_string()));
    assert_eq!(Ok(km(KM_NONE)), KeyModifiers::from_text(&km(KM_NONE).to_string()));
}

#[test]
fn test_key_trigger_display() {
    let actual = KeyTrigger { action: action("A↓"), modifiers: TriggerModifiers::All(km(KM_LSHIFT)) };
    assert_eq!("[LEFT_SHIFT]A↓", actual.to_string());

    let actual = KeyTrigger { action: action("A↓"), modifiers: TriggerModifiers::All(km(KM_NONE)) };
    assert_eq!("[]A↓", actual.to_string());

    let actual = KeyTrigger { action: action("A↓"), modifiers: TriggerModifiers::Any };
    assert_eq!("A↓", actual.to_string());

    let actual = KeyTrigger { action: action("A↓"), modifiers: TriggerModifiers::All(km(KM_LSHIFT)) };
    assert_eq!("|      [LEFT_SHIFT]A↓|", format!("|{:>20}|", actual.to_string()));
}

#[test]
fn test_key_event_basics() {
    let marker: usize = 0xBA7A7A;
    let actual = KeyEvent::new(
        &KeyboardInput {
            vk_code: 0x0D,
            scan_code: 0x1C,
            flags: LLKHF_UP | LLKHF_INJECTED | LLKHF_EXTENDED,
            time: 1000,
            extra_info: marker,
        },
        [0; 256],
        marker,
    );

    assert_eq!(1000, actual.time);
    assert_eq!("SC_NUM_ENTER", actual.action.key.scan_code().name);
    assert_eq!("VK_RETURN", actual.action.key.virtual_key().name);
    assert_eq!(Up, actual.action.transition);
    assert!(actual.is_private);
    assert!(actual.is_injected);
}

#[test]
fn key_event_from_other_sender() {
    let actual = KeyEvent::new(
        &KeyboardInput { vk_code: 0x41, scan_code: 0x1E, flags: 0, time: 7, extra_info: 1 },
        [0; 256],
        2,
    );
    assert_eq!(action("A↓"), actual.action);
    assert!(!actual.is_private);
    assert!(!actual.is_injected);
    assert_eq!(km(KM_NONE), actual.modifiers_state);
}
