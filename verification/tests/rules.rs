use keympostor::key_transition::KeyTransition::{Down, Up};
use keympostor::keyboard::key::Key;
use keympostor::keyboard::key_action::{KeyAction, KeyActionSequence};
use keympostor::keyboard::key_modifiers::{
    KeyModifiers, TriggerModifiers, KM_LSHIFT, KM_NONE,
};
use keympostor::keyboard::key_trigger::KeyTrigger;
use keympostor::keyboard::transform_rules::{
    KeyTransformProfile, KeyTransformRule, KeyTransformRules,
};
use keympostor::profile::Profile;

fn chars(s: &str) -> Vec<char> {
    s.chars().collect()
}

fn key(name: &str) -> Key {
    Key::from_name(name).unwrap()
}

fn action(text: &str) -> KeyAction {
    KeyAction::from_text(text).unwrap()
}

fn seq(text: &str) -> KeyActionSequence {
    KeyActionSequence::from_text(text).unwrap()
}

fn trigger(text: &str) -> KeyTrigger {
    KeyTrigger::from_text(text).unwrap()
}

fn rule(text: &str) -> KeyTransformRule {
    KeyTransformRule::from_text(text).unwrap()
}

fn rules(text: &str) -> KeyTransformRules {
    KeyTransformRules::from_text(text).unwrap()
}

#[test]
fn test_key_action_from_str() {
    assert_eq!(KeyAction { key: key("ENTER"), transition: Down }, action("ENTER↓"));
    assert_eq!(KeyAction { key: key("F3"), transition: Down }, action("    F3\n*"));
}

#[test]
fn test_key_action_from_str_expand() {
    assert_eq!(
        vec![KeyAction { key: key("A"), transition: Down }],
        KeyAction::parse_expand(&chars("A↓")).unwrap()
    );
    assert_eq!(
        vec![KeyAction { key: key("B"), transition: Up }],
        KeyAction::parse_expand(&chars("B^")).unwrap()
    );
    let both = vec![
        KeyAction { key: key("A"), transition: Down },
        KeyAction { key: key("A"), transition: Up },
    ];
    assert_eq!(both, KeyAction::parse_expand(&chars("A*^")).unwrap());
    assert_eq!(both, KeyAction::parse_expand(&chars("A↓↑")).unwrap());
    assert_eq!(both, KeyAction::parse_expand(&chars("A")).unwrap());
}

#[test]
fn key_action_from_str_fails() {
    assert!(KeyAction::from_text("BANANA↓").is_err());
    assert!(KeyAction::from_text("").is_err());
}

#[test]
fn test_key_action_sequence_from_str_list() {
    assert_eq!(
        vec![KeyActionSequence::from(vec![action("A↓")])],
        KeyActionSequence::parse_list(&chars("A↓")).unwrap()
    );
    assert_eq!(
        vec![KeyActionSequence::from(vec![action("A↓"), action("B↑"), action("C↓")])],
        KeyActionSequence::parse_list(&chars("A↓ → B↑ → C↓")).unwrap()
    );
}

#[test]
fn test_key_action_sequence_from_str_list_expand() {
    assert_eq!(vec![seq("A↓"), seq("A↑")], KeyActionSequence::parse_list(&chars("A")).unwrap());
    assert_eq!(vec![seq("A↓"), seq("A↑")], KeyActionSequence::parse_list(&chars("A↓↑")).unwrap());
    assert_eq!(
        vec![seq("A↓ → B↓"), seq("A↑ → B↑")],
        KeyActionSequence::parse_list(&chars("A → B")).unwrap()
    );
    assert_eq!(
        vec![seq("A↓ → B↓ → C↓"), seq("A↑ → B↑ → C↓")],
        KeyActionSequence::parse_list(&chars("A → B → C↓")).unwrap()
    );
    assert_eq!(
        vec![seq("C↓ → A↓ → B↓"), seq("C↓ → A↑ → B↑")],
        KeyActionSequence::parse_list(&chars("C↓ → A → B")).unwrap()
    );
}

#[test]
fn key_action_sequence_accepts_both_arrows() {
    assert_eq!(seq("A↓ → B↑"), seq("A* > B^"));
}

#[test]
fn test_key_trigger_from_str_all_modifiers() {
    assert_eq!(
        KeyTrigger {
            action: action("A*"),
            modifiers: TriggerModifiers::All(KeyModifiers::from_text("LEFT_SHIFT").unwrap()),
        },
        trigger("[LEFT_SHIFT] A*")
    );
}

#[test]
fn test_key_trigger_from_str_no_modifiers() {
    assert_eq!(
        KeyTrigger { action: action("A*"), modifiers: TriggerModifiers::All(KeyModifiers(KM_NONE)) },
        trigger("[] A*")
    );
}

#[test]
fn test_key_trigger_from_str_any_modifiers() {
    assert_eq!(KeyTrigger { action: action("A*"), modifiers: TriggerModifiers::Any }, trigger("A*"));
    assert_eq!(KeyTrigger { action: action("A*"), modifiers: TriggerModifiers::Any }, trigger("A*"));
}

#[test]
fn key_trigger_from_str_fails() {
    assert!(KeyTrigger::from_text("[BANANA] A*").is_err());
    assert!(KeyTrigger::from_text("[LEFT_SHIFT] BANANA").is_err());
}

#[test]
fn test_key_trigger_from_str_list() {
    assert_eq!(
        vec![vec![trigger("A*")], vec![trigger("[LEFT_CTRL]B^")], vec![trigger("C*")]],
        KeyTrigger::parse_list(&chars("A*, [LEFT_CTRL]B^, C*")).unwrap()
    );
    assert_eq!(vec![vec![trigger("A*")]], KeyTrigger::parse_list(&chars("A*")).unwrap());
}

#[test]
fn test_key_trigger_from_str_expand() {
    assert_eq!(
        vec![vec![trigger("A↓"), trigger("A↑")]],
        KeyTrigger::parse_list(&chars("A↓↑")).unwrap()
    );
    assert_eq!(vec![vec![trigger("A↓"), trigger("A↑")]], KeyTrigger::parse_list(&chars("A")).unwrap());
    assert_eq!(
        vec![vec![trigger("[LEFT_CTRL]A↓"), trigger("[LEFT_CTRL]A↑")]],
        KeyTrigger::parse_list(&chars("[LEFT_CTRL]A↓↑")).unwrap()
    );
    assert_eq!(
        vec![vec![trigger("[LEFT_CTRL]A↓"), trigger("[LEFT_CTRL]A↑")]],
        KeyTrigger::parse_list(&chars("[LEFT_CTRL]A")).unwrap()
    );
}

#[test]
fn test_key_trigger_from_str_list_expand() {
    assert_eq!(
        vec![vec![trigger("A↓"), trigger("A↑")], vec![trigger("B↓"), trigger("B↑")]],
        KeyTrigger::parse_list(&chars("A,B")).unwrap()
    );
    assert_eq!(
        vec![
            vec![trigger("[LEFT_SHIFT]A↓"), trigger("[LEFT_SHIFT]A↑")],
            vec![trigger("[LEFT_CTRL + LEFT_ALT]B↓"), trigger("[LEFT_CTRL + LEFT_ALT]B↑")],
        ],
        KeyTrigger::parse_list(&chars("[LEFT_SHIFT] A, [LEFT_CTRL + LEFT_ALT] B")).unwrap()
    );
}

#[test]
fn test_key_transform_rule_from_str() {
    assert_eq!(
        KeyTransformRule { trigger: trigger("[LEFT_SHIFT] ENTER↓"), actions: seq("A↓") },
        rule("[LEFT_SHIFT] ENTER↓ : A↓")
    );
}

#[test]
fn test_key_transform_rule_from_str_list() {
    assert_eq!(
        vec![rule("NUM_DOT↓ : LEFT_ALT↓"), rule("NUM_DELETE↓ : LEFT_ALT↓")],
        KeyTransformRule::parse_list(&chars("NUM_DOT↓, NUM_DELETE↓ : LEFT_ALT↓")).unwrap()
    );
    assert_eq!(
        vec![rule("A* : ENTER*"), rule("[LEFT_CTRL]B* : ENTER*"), rule("C^ : ENTER*")],
        KeyTransformRule::parse_list(&chars("A*, [LEFT_CTRL]B*, C^ : ENTER*")).unwrap()
    );
}

#[test]
fn key_transform_rule_from_str_fails() {
    assert!(KeyTransformRule::from_text("A↓ B↓").is_err());
    assert!(KeyTransformRule::from_text("A↓ : BANANA").is_err());
}

#[test]
fn test_key_transform_rules_from_str_expand_no_trigger_transition() {
    assert_eq!(
        rules(
            r#"
                A↓ : B↓
                A↑ : B↓
                "#
        ),
        rules(
            r#"
                A : B↓
                "#
        )
    );
}

#[test]
fn test_key_transform_rules_from_str_expand_no_action_transition() {
    assert_eq!(
        rules(
            r#"
                A↓ : B↓
                A↓ : B↑
                "#
        ),
        rules(
            r#"
                A↓ : B
                "#
        )
    );
}

#[test]
fn test_key_transform_rules_from_str_expand_no_any_transition() {
    assert_eq!(
        rules(
            r#"
                A↓ : B↓
                A↑ : B↑
                "#
        ),
        rules(
            "
                A : B
                "
        )
    );
}

#[test]
fn test_key_transform_rules_from_str_expand_list_no_any_transition() {
    assert_eq!(
        rules(
            r#"
                A↓ : C↓
                A↑ : C↑
                B↓ : C↓
                B↑ : C↑
                "#
        ),
        rules(
            r#"
                    A,B : C
                    "#
        )
    );
}

#[test]
fn test_key_transform_rules_from_str_expand_multiple_actions() {
    assert_eq!(
        rules(
            r#"
                A↓ : B↓ → C↑
                A↑ : B↑ → C↑
                "#
        ),
        rules(
            "
                A : B → C↑
                "
        )
    );
}

#[test]
fn test_key_transform_rules_from_str_expand() {
    assert_eq!(
        rules(
            r#"
                A↓ : B↓
                A↑ : B↓
                C↓ : D↓
                C↓ : D↑
                E↓ : F↓
                E↑ : F↑
                "#
        ),
        rules(
            r#"
                A : B↓
                C↓ : D
                E : F
                "#
        )
    );
}

#[test]
fn test_key_transform_rules_from_str_list() {
    assert_eq!(
        rules(
            r#"
                A↓ : C↓
                B↓ : C↓
                "#
        ),
        rules("A↓, B↓ : C↓")
    );
}

#[test]
fn test_key_transform_rule_display() {
    let actual = KeyTransformRule { trigger: trigger("[LEFT_SHIFT] ENTER ↓"), actions: seq("ENTER↓") };
    assert_eq!("|        [LEFT_SHIFT]ENTER↓ : ENTER↓|", format!("|{:>35}|", actual.to_string()));
}

#[test]
fn test_key_transform_rule_trigger() {
    assert_eq!(
        trigger("[LEFT_CTRL + LEFT_SHIFT] ENTER↓"),
        rule("[LEFT_CTRL + LEFT_SHIFT] ENTER↓ : ENTER↓").trigger
    );
}

#[test]
fn key_transform_rules_display() {
    let actual = rules(
        "
        [LEFT_SHIFT]CAPS_LOCK↓ : CAPS_LOCK↓ → CAPS_LOCK↑
        []CAPS_LOCK↓ : LEFT_WIN↓ → SPACE↓ → SPACE↑ → LEFT_WIN↑
        ",
    );
    assert_eq!(
        "[LEFT_SHIFT]CAPS_LOCK↓ : CAPS_LOCK↓ → CAPS_LOCK↑\n[]CAPS_LOCK↓ : LEFT_WIN↓ → SPACE↓ → SPACE↑ → LEFT_WIN↑",
        actual.to_string()
    );
}

#[test]
fn key_transform_rule_text_round_trip() {
    let r = rule("[LEFT_CTRL + LEFT_SHIFT] ENTER↓ : ENTER↓ → ENTER↑");
    assert_eq!(r, rule(&r.to_string()));
    let r = rule("A↑ : B↓");
    assert_eq!(r, rule(&r.to_string()));
}

#[test]
fn test_key_transform_profile_from_str() {
    assert_eq!(
        KeyTransformProfile {
            title: "Test profile".to_string(),
            rules: KeyTransformRules::from(vec![
                rule("A↓ : LEFT_WIN↓ → SPACE↓ → SPACE↑ → LEFT_WIN↑"),
                rule("[LEFT_CTRL + LEFT_SHIFT] ENTER↓: ENTER↓ → ENTER↑"),
            ]),
        },
        KeyTransformProfile::from_text(
            r#"
                Test profile
                A↓ : LEFT_WIN↓ → SPACE↓ → SPACE↑ → LEFT_WIN↑
                [LEFT_CTRL + LEFT_SHIFT] ENTER↓ : ENTER↓ → ENTER↑
                "#
        )
        .unwrap()
    );
}

#[test]
fn key_transform_profile_from_blank_text_fails() {
    assert_eq!(Err("Error parsing title.".to_string()), KeyTransformProfile::from_text("  \n "));
}

#[test]
fn key_transform_profile_default() {
    let p = KeyTransformProfile::default();
    assert_eq!("No profile", p.title);
    assert!(p.rules.items.is_empty());
}

#[test]
fn test_profile_from_str() {
    assert_eq!(
        Profile {
            title: "Test profile".to_string(),
            rules: KeyTransformRules::from(vec![
                rule("A↓ : LEFT_WIN↓ → SPACE↓ → SPACE↑ → LEFT_WIN↑"),
                rule("[LEFT_CTRL + LEFT_SHIFT] ENTER↓: ENTER↓ → ENTER↑"),
            ]),
            ..Default::default()
        },
        Profile::from_text(
            r#"
                Test profile
                A↓ : LEFT_WIN↓ → SPACE↓ → SPACE↑ → LEFT_WIN↑
                [LEFT_CTRL + LEFT_SHIFT] ENTER↓ : ENTER↓ → ENTER↑
                "#
        )
        .unwrap()
    );
}

#[test]
fn test_profile_display() {
    let profile = Profile::from_text(
        "
        Test profile
        [LEFT_SHIFT]CAPS_LOCK↓ : CAPS_LOCK↓ → CAPS_LOCK↑
        A↓ : B↓
        ",
    )
    .unwrap();
    assert_eq!(
        "Test profile\n[LEFT_SHIFT]CAPS_LOCK↓ : CAPS_LOCK↓ → CAPS_LOCK↑\nA↓ : B↓",
        profile.to_string()
    );
    assert_eq!("No profile\n", Profile::default().to_string());
}

#[test]
fn profile_shift_rule_has_shift() {
    let r = rule("[LEFT_SHIFT] A↓ : B↓");
    assert_eq!(TriggerModifiers::All(KeyModifiers(KM_LSHIFT)), r.trigger.modifiers);
}

#[test]
fn key_transform_rules_text_pairs() {
    let rs = rules(
        "
        [LEFT_SHIFT]CAPS_LOCK↓ : CAPS_LOCK↓ → CAPS_LOCK↑
        []CAPS_LOCK↓ : LEFT_WIN↓ → SPACE↓ → SPACE↑ → LEFT_WIN↑
        ",
    );
    let pairs = rs.to_text_pairs();
    assert_eq!(
        vec![
            ("[LEFT_SHIFT]CAPS_LOCK↓".to_string(), "CAPS_LOCK↓ → CAPS_LOCK↑".to_string()),
            ("[]CAPS_LOCK↓".to_string(), "LEFT_WIN↓ → SPACE↓ → SPACE↑ → LEFT_WIN↑".to_string()),
        ],
        pairs
    );
    assert!(!KeyTransformRules::pairs_would_panic(&pairs));
    assert_eq!(rs, KeyTransformRules::from_text_pairs(&pairs).unwrap());
    assert!(rs.is_known());
}

#[test]
fn key_transform_rules_bad_text_pairs() {
    let bad = vec![("A↓".to_string(), "BANANA".to_string())];
    assert!(!KeyTransformRules::pairs_would_panic(&bad));
    assert!(KeyTransformRules::from_text_pairs(&bad).is_err());

    let unclosed = vec![("[LEFT_SHIFT".to_string(), "B↓".to_string())];
    assert!(KeyTransformRules::pairs_would_panic(&unclosed));
    let unreadable = vec![("[LEFT_SHIFT A↓".to_string(), "B↓".to_string())];
    assert!(!KeyTransformRules::pairs_would_panic(&unreadable));
    assert!(KeyTransformRules::from_text_pairs(&unreadable).is_err());

    let error_first = vec![
        ("BANANA↓".to_string(), "B↓".to_string()),
        ("[LEFT_SHIFT".to_string(), "B↓".to_string()),
    ];
    assert!(!KeyTransformRules::pairs_would_panic(&error_first));
    assert!(KeyTransformRules::from_text_pairs(&error_first).is_err());
}

#[test]
fn key_trigger_unclosed_modifiers() {
    assert!(KeyTrigger::has_unclosed_modifiers("[LEFT_SHIFT"));
    assert!(KeyTrigger::has_unclosed_modifiers(" [ "));
    assert!(!KeyTrigger::has_unclosed_modifiers("[LEFT_SHIFT A↓"));
    assert!(!KeyTrigger::has_unclosed_modifiers("[BANANA"));
    assert!(!KeyTrigger::has_unclosed_modifiers("[LEFT_SHIFT] A↓"));
    assert!(!KeyTrigger::has_unclosed_modifiers("A↓"));
}

#[test]
fn key_transform_rules_is_known() {
    let unknown = Key { vk_code: 0xFF, scan_code: 0xFF, is_ext_scan_code: true };
    let r = KeyTransformRule {
        trigger: KeyTrigger { action: KeyAction { key: unknown, transition: Down }, modifiers: TriggerModifiers::Any },
        actions: seq("A↓"),
    };
    assert!(!KeyTransformRules::from(vec![r]).is_known());
}

#[test]
fn readers_give_the_error_texts() {
    assert_eq!(Err("Illegal key name: `BANANA`.".to_string()), Key::from_name("  BANANA "));
    assert_eq!(Err("Illegal key name: `BANANA`.".to_string()), KeyAction::from_text(" BANANA* "));
    assert_eq!(Err("Illegal key name: `BANANA`.".to_string()), KeyAction::from_text("BANANA↓↑"));
    assert_eq!(
        Err("Illegal key name: `BAD`.".to_string()),
        KeyActionSequence::from_text("A↓ → BAD↑ → WORSE")
    );
    assert_eq!(
        Err("Error parsing key modifiers: `FOO + BAR`".to_string()),
        KeyModifiers::from_text("  FOO + BAR ")
    );
    assert_eq!(
        Err("Error parsing key modifiers: `FOO`".to_string()),
        KeyTrigger::from_text("[ FOO ] A↓")
    );
    assert_eq!(Err("Illegal key name: `BAD`.".to_string()), KeyTrigger::from_text("[SHIFT] BAD↓"));
    assert_eq!(Err("Missing target part.".to_string()), KeyTransformRule::from_text("A↓ B↓"));
    assert_eq!(
        Err("Illegal key name: `BAD`.".to_string()),
        KeyTransformRule::from_text("A↓, BAD↓ : B↓")
    );
    assert_eq!(
        Err("Illegal key name: `NOPE`.".to_string()),
        KeyTransformRule::from_text("A↓ : B↓ → NOPE")
    );
    assert_eq!(
        Err("Error parsing title.".to_string()),
        KeyTransformProfile::from_text("  \n  ").map(|p| p.title)
    );
    assert_eq!(
        Err("Missing target part.".to_string()),
        KeyTransformProfile::from_text("Title\nA↓ : B↓\nC↓").map(|p| p.title)
    );
    let pairs = vec![("A↓".to_string(), "B↓".to_string()), ("A↑".to_string(), "ZZZ↑".to_string())];
    assert_eq!(
        Err("Illegal key name: `ZZZ`.".to_string()),
        KeyTransformRules::from_text_pairs(&pairs).map(|r| r.items.len())
    );
}
