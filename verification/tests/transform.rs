use keympostor::keyboard::key_action::KeyAction;
use keympostor::keyboard::key_event::KeyEvent;
use keympostor::keyboard::key_hook::{HookReply, KeyboardHook, HC_ACTION};
use keympostor::keyboard::key_modifiers::KeyModifiers;
use keympostor::keyboard::transform_map::KeyTransformMap;
use keympostor::keyboard::transform_matrix::KeyTransformMatrix;
use keympostor::keyboard::transform_rules::{KeyTransformProfile, KeyTransformRule};

const KS_ALL_UP: [u8; 256] = [0u8; 256];

fn state(keys: &[usize]) -> [u8; 256] {
    let mut s = KS_ALL_UP;
    for k in keys {
        s[*k] = 0x80;
    }
    s
}

fn ks_lshift() -> [u8; 256] {
    state(&[0xA0])
}

fn ks_lctrl() -> [u8; 256] {
    state(&[0xA2])
}

fn ks_lalt() -> [u8; 256] {
    state(&[0xA4])
}

fn ks_lctrl_lalt() -> [u8; 256] {
    state(&[0xA2, 0xA4])
}

fn rule(text: &str) -> KeyTransformRule {
    KeyTransformRule::from_text(text).unwrap()
}

fn event(action: &str, keys: [u8; 256]) -> KeyEvent {
    KeyEvent {
        action: KeyAction::from_text(action).unwrap(),
        modifiers_state: KeyModifiers::from_keyboard_state(keys),
        time: 0,
        is_injected: false,
        is_private: false,
    }
}

#[test]
fn transform_map_test_put_get_normal() {
    let mut map = KeyTransformMap::default();
    map.put(rule("[LEFT_SHIFT] A↓ : B↓"));
    map.put(rule("[LEFT_ALT + LEFT_CTRL] A↓ : C↓"));

    assert_eq!(&rule("[LEFT_SHIFT] A↓ : B↓"), map.get(&event("A↓", ks_lshift())).unwrap());
    assert_eq!(
        &rule("[LEFT_ALT + LEFT_CTRL]A↓ : C↓"),
        map.get(&event("A↓", ks_lctrl_lalt())).unwrap()
    );

    assert!(map.get(&event("A↓", KS_ALL_UP)).is_none());
    assert!(map.get(&event("A↑", ks_lshift())).is_none());
    assert!(map.get(&event("LEFT_ALT↓", ks_lalt())).is_none());
    assert!(map.get(&event("LEFT_SHIFT↓", ks_lshift())).is_none());
    assert!(map.get(&event("LEFT_CTRL↓", ks_lctrl())).is_none());
}

#[test]
fn transform_map_test_get_no_modifiers() {
    let mut map = KeyTransformMap::default();
    map.put(rule("[] A↓ : B↓"));

    assert_eq!(&rule("[] A↓ : B↓"), map.get(&event("A↓", KS_ALL_UP)).unwrap());
    assert!(map.get(&event("A↓", ks_lshift())).is_none());
    assert!(map.get(&event("A↓", ks_lctrl())).is_none());
    assert!(map.get(&event("A↓", ks_lalt())).is_none());
    assert!(map.get(&event("A↓", ks_lctrl_lalt())).is_none());
}

#[test]
fn transform_map_test_get_ignore_modifiers() {
    let mut map = KeyTransformMap::default();
    map.put(rule("A↓ : B↓"));

    let expected = &rule("A↓ : B↓");
    assert_eq!(expected, map.get(&event("A↓", KS_ALL_UP)).unwrap());
    assert_eq!(expected, map.get(&event("A↓", ks_lshift())).unwrap());
    assert_eq!(expected, map.get(&event("A↓", ks_lctrl())).unwrap());
    assert_eq!(expected, map.get(&event("A↓", ks_lalt())).unwrap());
    assert_eq!(expected, map.get(&event("A↓", ks_lctrl_lalt())).unwrap());
}

#[test]
fn transform_map_put_duplicates() {
    let mut map = KeyTransformMap::default();
    map.put(rule("[LEFT_SHIFT] A↓ : B↓"));
    map.put(rule("[LEFT_SHIFT] A↓ : B↓"));
    map.put(rule("[LEFT_SHIFT] A↓ : B↓"));

    assert_eq!(&rule("[LEFT_SHIFT] A↓ : B↓"), map.get(&event("A↓", ks_lshift())).unwrap());
}

#[test]
fn transform_map_later_rule_replaces_earlier() {
    let mut map = KeyTransformMap::new();
    map.put(rule("[LEFT_SHIFT] A↓ : B↓"));
    map.put(rule("[LEFT_SHIFT] A↓ : C↓"));
    assert_eq!(&rule("[LEFT_SHIFT] A↓ : C↓"), map.get(&event("A↓", ks_lshift())).unwrap());
}

#[test]
fn transform_map_exact_modifiers_before_any() {
    let mut map = KeyTransformMap::new();
    map.put(rule("A↓ : C↓"));
    map.put(rule("[LEFT_SHIFT] A↓ : B↓"));
    assert_eq!(&rule("[LEFT_SHIFT] A↓ : B↓"), map.get(&event("A↓", ks_lshift())).unwrap());
    assert_eq!(&rule("A↓ : C↓"), map.get(&event("A↓", ks_lctrl())).unwrap());
}

#[test]
fn transform_map_from_profile() {
    let profile = KeyTransformProfile::from_text(
        "
        Test
        [LEFT_SHIFT]CAPS_LOCK↓ : CAPS_LOCK↓ → CAPS_LOCK↑
        []CAPS_LOCK↓ : LEFT_WIN↓ → SPACE↓ → SPACE↑ → LEFT_WIN↑
        ",
    )
    .unwrap();
    let map = KeyTransformMap::from_profile(profile);
    assert_eq!(
        &rule("[]CAPS_LOCK↓ : LEFT_WIN↓ → SPACE↓ → SPACE↑ → LEFT_WIN↑"),
        map.get(&event("CAPS_LOCK↓", KS_ALL_UP)).unwrap()
    );
    assert_eq!(
        &rule("[LEFT_SHIFT]CAPS_LOCK↓ : CAPS_LOCK↓ → CAPS_LOCK↑"),
        map.get(&event("CAPS_LOCK↓", ks_lshift())).unwrap()
    );
    assert!(map.get(&event("CAPS_LOCK↑", KS_ALL_UP)).is_none());
}

#[test]
fn transform_matrix_test_put_get_normal() {
    let mut map = KeyTransformMatrix::default();
    map.put(rule("[LEFT_SHIFT] A↓ : B↓"));
    map.put(rule("[LEFT_ALT + LEFT_CTRL] A↓ : C↓"));

    assert_eq!(&rule("[LEFT_SHIFT] A↓ : B↓"), map.get(&event("A↓", ks_lshift())).unwrap());
    assert_eq!(
        &rule("[LEFT_ALT + LEFT_CTRL]A↓ : C↓"),
        map.get(&event("A↓", ks_lctrl_lalt())).unwrap()
    );

    assert!(map.get(&event("A↓", KS_ALL_UP)).is_none());
    assert!(map.get(&event("A↑", ks_lshift())).is_none());
    assert!(map.get(&event("LEFT_ALT↓", ks_lalt())).is_none());
    assert!(map.get(&event("LEFT_SHIFT↓", ks_lshift())).is_none());
    assert!(map.get(&event("LEFT_CTRL↓", ks_lctrl())).is_none());
}

#[test]
fn transform_matrix_test_get_no_modifiers() {
    let mut map = KeyTransformMatrix::default();
    map.put(rule("[] A↓ : B↓"));

    assert_eq!(&rule("[] A↓ : B↓"), map.get(&event("A↓", KS_ALL_UP)).unwrap());
    assert!(map.get(&event("A↓", ks_lshift())).is_none());
    assert!(map.get(&event("A↓", ks_lctrl())).is_none());
    assert!(map.get(&event("A↓", ks_lalt())).is_none());
    assert!(map.get(&event("A↓", ks_lctrl_lalt())).is_none());
}

#[test]
fn transform_matrix_test_get_ignore_modifiers() {
    let mut map = KeyTransformMatrix::default();
    map.put(rule("A↓ : B↓"));

    let expected = &rule("A↓ : B↓");
    assert_eq!(expected, map.get(&event("A↓", KS_ALL_UP)).unwrap());
    assert_eq!(expected, map.get(&event("A↓", ks_lshift())).unwrap());
    assert_eq!(expected, map.get(&event("A↓", ks_lctrl())).unwrap());
    assert_eq!(expected, map.get(&event("A↓", ks_lalt())).unwrap());
    assert_eq!(expected, map.get(&event("A↓", ks_lctrl_lalt())).unwrap());
}

#[test]
fn transform_matrix_from_profile() {
    let profile = KeyTransformProfile::from_text("Test\nA↓ : B↓\nA↓ : C↓").unwrap();
    let map = KeyTransformMatrix::from_profile(profile);
    assert_eq!(&rule("A↓ : C↓"), map.get(&event("A↓", KS_ALL_UP)).unwrap());
}

fn hook_with(profile: &str) -> KeyboardHook {
    let mut hook = KeyboardHook::new();
    hook.load_profile(KeyTransformProfile::from_text(profile).unwrap());
    hook
}

#[test]
fn hook_replaces_keystroke_of_a_rule() {
    let hook = hook_with("Test\n[LEFT_SHIFT] A↓ : B↓ → B↑");
    match hook.process(HC_ACTION, &event("A↓", ks_lshift())) {
        HookReply::Replace(inputs) => {
            assert_eq!(2, inputs.len());
            assert_eq!(0x42, inputs[0].virtual_key);
            assert!(!inputs[0].is_key_up);
            assert!(inputs[1].is_key_up);
        }
        HookReply::PassOn => panic!("the keystroke should have been replaced"),
    }
    assert_eq!(HookReply::PassOn, hook.process(HC_ACTION, &event("A↓", KS_ALL_UP)));
}

#[test]
fn hook_passes_on_its_own_keystrokes() {
    let hook = hook_with("Test\nA↓ : B↓");
    let mut own = event("A↓", KS_ALL_UP);
    own.is_injected = true;
    own.is_private = true;
    assert_eq!(HookReply::PassOn, hook.process(HC_ACTION, &own));
    assert!(hook.rule_for(&own).is_none());

    let mut injected_by_other = event("A↓", KS_ALL_UP);
    injected_by_other.is_injected = true;
    assert!(hook.rule_for(&injected_by_other).is_some());
}

#[test]
fn hook_passes_on_other_codes() {
    let hook = hook_with("Test\nA↓ : B↓");
    assert_eq!(HookReply::PassOn, hook.process(3, &event("A↓", KS_ALL_UP)));
}

#[test]
fn hook_silence() {
    let mut hook = KeyboardHook::default();
    assert!(!hook.is_silent());
    assert!(hook.notifies(true));
    hook.set_silent(true);
    assert!(hook.is_silent());
    assert!(!hook.notifies(true));
    assert!(!hook.notifies(false));
}

#[test]
fn test_get() {
    let target = rule("[] A↑ : B↑");

    let mut map = KeyTransformMap::new();
    map.put(target.clone());

    assert_eq!(Some(&target), map.get(&event("A↑", KS_ALL_UP)));

    /* another key */
    assert!(map.get(&event("C↑", KS_ALL_UP)).is_none());
    /* another transition */
    assert!(map.get(&event("A↓", KS_ALL_UP)).is_none());
    /* other modifiers */
    assert!(map.get(&event("A↑", ks_lshift())).is_none());
}

#[test]
fn test_any_modifier() {
    let target = rule("A↑ : B↑");

    let mut map = KeyTransformMap::new();
    map.put(target.clone());

    assert_eq!(Some(&target), map.get(&event("A↑", KS_ALL_UP)));
    assert_eq!(Some(&target), map.get(&event("A↑", ks_lshift())));
    assert_eq!(Some(&target), map.get(&event("A↑", state(&[0xA0, 0x5C]))));
}

#[test]
fn transform_matrix_last_exact_rule_then_last_any_rule() {
    let mut map = KeyTransformMatrix::default();
    map.put(rule("A↓ : B↓"));
    map.put(rule("[LEFT_SHIFT] A↓ : C↓"));
    map.put(rule("A↓ : D↓"));
    map.put(rule("[LEFT_SHIFT] A↓ : E↓"));
    assert_eq!(&rule("[LEFT_SHIFT] A↓ : E↓"), map.get(&event("A↓", ks_lshift())).unwrap());
    assert_eq!(&rule("A↓ : D↓"), map.get(&event("A↓", ks_lctrl())).unwrap());
    assert!(map.get(&event("B↓", ks_lshift())).is_none());
}

#[test]
fn transform_rule_is_known() {
    assert!(rule("[LEFT_SHIFT] A↓ : B↓ → B↑").is_known());
    assert!(KeyTransformRule::from_text("A↓ : B↓").unwrap().is_known());
}
