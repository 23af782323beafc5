use keympostor::keyboard::key::Key;
use keympostor::keyboard::key_modifiers::KeyModifiers;
use keympostor::keyboard::transform_rules::{KeyTransformProfile, KeyTransformRules};

fn profile_to_toml(profile: &KeyTransformProfile) -> String {
    let mut rules = toml::Table::new();
    for (trigger, actions) in profile.rules.to_text_pairs() {
        rules.insert(trigger, toml::Value::String(actions));
    }
    let mut root = toml::Table::new();
    root.insert("title".to_string(), toml::Value::String(profile.title.clone()));
    root.insert("rules".to_string(), toml::Value::Table(rules));
    toml::to_string_pretty(&root).unwrap()
}

fn profile_from_toml(text: &str) -> KeyTransformProfile {
    let root: toml::Table = toml::from_str(text).unwrap();
    let title = root["title"].as_str().unwrap().to_string();
    let pairs: Vec<(String, String)> = root["rules"]
        .as_table()
        .unwrap()
        .iter()
        .map(|(k, v)| (k.clone(), v.as_str().unwrap().to_string()))
        .collect();
    assert!(!KeyTransformRules::pairs_would_panic(&pairs));
    KeyTransformProfile { title, rules: KeyTransformRules::from_text_pairs(&pairs).unwrap() }
}

fn value_round_trip(value: &str) -> String {
    let mut root = toml::Table::new();
    root.insert("value".to_string(), toml::Value::String(value.to_string()));
    let text = toml::to_string_pretty(&root).unwrap();
    let back: toml::Table = toml::from_str(&text).unwrap();
    back["value"].as_str().unwrap().to_string()
}

#[test]
fn test_key_transform_profile_serialize() {
    let profile = KeyTransformProfile::from_text(
        r#"
            Test profile
            [LEFT_SHIFT]CAPS_LOCK↓ : CAPS_LOCK↓ → CAPS_LOCK↑
            []CAPS_LOCK↓ : LEFT_WIN↓ → SPACE↓ → SPACE↑ → LEFT_WIN↑
            "#,
    )
    .unwrap();
    let expected = r#"
            title = "Test profile"
            [rules]
            "[LEFT_SHIFT]CAPS_LOCK↓" = "CAPS_LOCK↓ → CAPS_LOCK↑"
            "[]CAPS_LOCK↓" = "LEFT_WIN↓ → SPACE↓ → SPACE↑ → LEFT_WIN↑"
            "#;

    let actual = profile_to_toml(&profile);

    assert_eq!(
        expected.split_whitespace().collect::<String>(),
        actual.split_whitespace().collect::<String>()
    );
}

#[test]
fn test_key_transform_profile_deserialize() {
    let actual = profile_from_toml(
        r#"
            title = "Test profile"
            [rules]
            "[LEFT_SHIFT]CAPS_LOCK↓" = "CAPS_LOCK↓ → CAPS_LOCK↑"
            "[]CAPS_LOCK↓" = "LEFT_WIN↓ → SPACE↓ → SPACE↑ → LEFT_WIN↑"
            "#,
    );

    /* the rules come back in the order of their triggers */
    let expected = KeyTransformProfile::from_text(
        r#"
            Test profile
            [LEFT_SHIFT]CAPS_LOCK↓ : CAPS_LOCK↓ → CAPS_LOCK↑
            []CAPS_LOCK↓ : LEFT_WIN↓ → SPACE↓ → SPACE↑ → LEFT_WIN↑
            "#,
    )
    .unwrap();

    assert_eq!(expected, actual);
}

#[test]
fn key_transform_profile_toml_round_trip() {
    let profile = KeyTransformProfile::from_text(
        "Sample\n[LEFT_CTRL + LEFT_SHIFT] ENTER↓ : ENTER↓ → ENTER↑\nA↑ : NUM_ENTER↓",
    )
    .unwrap();
    let back = profile_from_toml(&profile_to_toml(&profile));
    assert_eq!(profile.title, back.title);
    let mut sorted = profile.rules.to_text_pairs();
    sorted.sort();
    assert_eq!(sorted, back.rules.to_text_pairs());
}

#[test]
fn test_key_serialize() {
    for name in ["ENTER", "NUM_ENTER"] {
        let source = Key::from_name(name).unwrap();
        let actual = Key::from_name(&value_round_trip(source.name())).unwrap();
        assert_eq!(source, actual);
    }
}

#[test]
fn key_modifiers_test_key_modifiers_serialize() {
    let source = KeyModifiers::from_text("LEFT_SHIFT + RIGHT_SHIFT + RIGHT_WIN").unwrap();
    let actual = KeyModifiers::from_text(&value_round_trip(&source.to_string())).unwrap();
    assert_eq!(source, actual);
}

#[test]
fn serialize_test_key_modifiers_serialize() {
    let source = KeyModifiers::from_text("LEFT_SHIFT + RIGHT_SHIFT + RIGHT_WIN").unwrap();
    let text = value_round_trip(&source.to_string());
    assert_eq!("LEFT_SHIFT + RIGHT_SHIFT + RIGHT_WIN", text);
    assert_eq!(source, KeyModifiers::from_text(&text).unwrap());
}
