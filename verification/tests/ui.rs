use keympostor::config::{AppState, ConfigDefaults};
use keympostor::keyboard::key_modifiers::{KeyModifiers, KM_NONE};
use keympostor::keyboard::transform_rules::{KeyTransformRule, KeyTransformRules};
use keympostor::ui::kb_light::{parse_color_text, ColorsData, KeyboardZoneColors};
use keympostor::ui::kb_watch::KeyboardLayoutState;
use keympostor::ui::layout::{serde_untitled, KeyTransformLayout, TransformLayouts};
use keympostor::ui::profile::{find_profile_match, ActivationPattern, Profile};
use keympostor::ui::log_view::append_log_row;
use keympostor::ui::utils::{dos_line_endings, RelaxedAtomicBool};
use keympostor::ui::win_watch::detect_profile_change;

fn layout(name: &str) -> KeyTransformLayout {
    KeyTransformLayout { name: name.to_string(), ..Default::default() }
}

fn create_test_layouts() -> TransformLayouts {
    TransformLayouts(vec![layout("layout_1"), layout("layout_2"), layout("layout_3")])
}

#[test]
fn test_layouts_find() {
    let layouts = create_test_layouts();

    assert_eq!(Some(&layout("layout_2")), layouts.try_get("layout_2"));
    assert_eq!(None, layouts.try_get("layout_4"));
    assert_eq!(None, layouts.try_get(""));
}

#[test]
fn test_layouts_cyclic_next() {
    let layouts = create_test_layouts();

    assert_eq!(&layout("layout_3"), layouts.cyclic_next("layout_2"));
    assert_eq!(&layout("layout_1"), layouts.cyclic_next(""));
}

#[test]
fn layouts_cyclic_next_goes_round() {
    let layouts = create_test_layouts();
    assert_eq!(&layout("layout_1"), layouts.cyclic_next("layout_3"));
}

#[test]
fn layouts_contains_and_get() {
    let layouts = create_test_layouts();
    assert!(layouts.contains("layout_1"));
    assert!(!layouts.contains("layout"));
    assert_eq!(&layout("layout_2"), layouts.get("layout_2"));
}

#[test]
fn layouts_default_added_once() {
    let mut layouts = create_test_layouts();
    layouts.ensure_default();
    assert_eq!(4, layouts.0.len());
    assert_eq!("default", layouts.0[0].name);
    assert_eq!("Default", layouts.0[0].title);
    layouts.ensure_default();
    assert_eq!(4, layouts.0.len());
}

#[test]
fn layout_untitled_and_display() {
    assert_eq!("Untitled layout", serde_untitled());
    let l = KeyTransformLayout {
        name: "test".to_string(),
        title: "Test layout".to_string(),
        rules: Some(KeyTransformRules::from(vec![
            KeyTransformRule::from_text("[LEFT_SHIFT]CAPS_LOCK↓ : CAPS_LOCK↓ → CAPS_LOCK↑").unwrap(),
        ])),
        ..Default::default()
    };
    assert_eq!("Test layout\n[LEFT_SHIFT]CAPS_LOCK↓ : CAPS_LOCK↓ → CAPS_LOCK↑", l.to_string());
    assert_eq!("\n", KeyTransformLayout::default().to_string());
}

#[test]
fn test_regex_parsing() {
    let profile = Profile { activation_rule: Some("".to_string()), ..Default::default() };
    assert!(profile.rule_regex().unwrap().is_match("test"));
}

#[test]
fn profile_rule_regex_refuses_bad_pattern() {
    let profile = Profile { activation_rule: Some("(unclosed".to_string()), ..Default::default() };
    assert!(profile.rule_regex().is_none());
    assert!(Profile::default().rule_regex().is_none());
    let profile = Profile { activation_rule: Some("Chrome".to_string()), ..Default::default() };
    let re = profile.rule_regex().unwrap();
    assert!(re.is_match("Google Chrome"));
    assert!(!re.is_match("Firefox"));
}

#[test]
fn keyboard_zone_colors_text() {
    let colors = KeyboardZoneColors { right: 0xF, center: 0xB, left: 0x123456, game: 0x1234567 };
    assert_eq!(vec!["#00000F", "#00000B", "#123456", "#1234567"], colors.to_strings());
    assert_eq!(colors, KeyboardZoneColors::from_strings(&colors.to_strings()));
}

#[test]
fn keyboard_zone_colors_parse() {
    let texts: Vec<String> =
        vec!["#0".to_string(), "##ff".to_string(), "+A".to_string(), "#+1b".to_string()];
    let colors = KeyboardZoneColors::from_strings(&texts);
    assert_eq!(KeyboardZoneColors { right: 0, center: 0xFF, left: 0xA, game: 0x1B }, colors);
    assert_eq!(None, parse_color_text("#"));
    assert_eq!(None, parse_color_text("#G0"));
    assert_eq!(None, parse_color_text("#+"));
    assert_eq!(None, parse_color_text("#10000000000000000"));
    assert_eq!(Some(u64::MAX), parse_color_text("#FFFFFFFFFFFFFFFF"));
}

#[test]
fn colors_data_default() {
    let c = ColorsData::default();
    assert_eq!(ColorsData { right: 0, center: 0, left: 0, game: 0 }, c);
}

#[test]
fn keyboard_layout_state_locks() {
    assert_eq!("", KeyboardLayoutState::new(0, false, false, false).locks());
    assert_eq!("num", KeyboardLayoutState::new(0, true, false, false).locks());
    assert_eq!("num_caps", KeyboardLayoutState::new(0, true, true, false).locks());
    assert_eq!("caps_scroll", KeyboardLayoutState::new(0, false, true, true).locks());
    assert_eq!("num_caps_scroll", KeyboardLayoutState::new(1, true, true, true).locks());
}

#[test]
fn window_watch_decisions() {
    let mut last = None;
    assert_eq!(Some(Some("chrome".to_string())), detect_profile_change(&mut last, Some((7, "chrome".to_string()))));
    assert_eq!(Some(7), last);
    assert_eq!(None, detect_profile_change(&mut last, Some((7, "chrome".to_string()))));
    assert_eq!(Some(Some("tc".to_string())), detect_profile_change(&mut last, Some((9, "tc".to_string()))));
    assert_eq!(Some(None), detect_profile_change(&mut last, None));
    assert_eq!(None, last);
    assert_eq!(None, detect_profile_change(&mut last, None));
}

#[test]
fn dos_line_endings_of_all_breaks() {
    assert_eq!("a\r\nb\r\nc\r\nd", dos_line_endings("a\nb\r\nc\rd"));
    assert_eq!("\r\n\r\n", dos_line_endings("\r\r\n"));
    assert_eq!("", dos_line_endings(""));
    let once = dos_line_endings("x\ny\r");
    assert_eq!(once, dos_line_endings(&once));
}

#[test]
fn relaxed_atomic_bool() {
    let flag = RelaxedAtomicBool::default();
    assert!(!flag.load());
    flag.store(true);
    assert!(flag.load());
    flag.toggle();
    assert!(!flag.load());
}

#[test]
fn config_defaults() {
    assert!(ConfigDefaults::bool_true());
    assert_eq!(
        AppState { key_processing_enabled: true, silent_key_processing: true },
        ConfigDefaults::app_state()
    );
    assert_eq!(KeyModifiers(KM_NONE), ConfigDefaults::km_none());
}

fn titled(name: &str, title: &str) -> KeyTransformLayout {
    KeyTransformLayout { name: name.to_string(), title: title.to_string(), ..Default::default() }
}

#[test]
fn layouts_sort_by_title_is_stable() {
    let mut layouts = TransformLayouts(vec![
        titled("b", "Beta"),
        titled("a2", "Alpha"),
        titled("z", ""),
        titled("a1", "Alpha"),
        titled("c", "Alph"),
        titled("u", "Übung"),
    ]);
    layouts.sort_by_title();
    let names: Vec<&str> = layouts.0.iter().map(|l| l.name.as_str()).collect();
    assert_eq!(vec!["z", "c", "a2", "a1", "b", "u"], names);
}

#[test]
fn window_watch_single_rule() {
    let mut last = None;
    assert_eq!(Some((5, true)), keympostor::ui::win_watch::watch_window(&mut last, Some(5)));
    assert_eq!(None, keympostor::ui::win_watch::watch_window(&mut last, Some(5)));
    assert_eq!(Some((6, true)), keympostor::ui::win_watch::watch_window(&mut last, Some(6)));
    assert_eq!(Some((6, false)), keympostor::ui::win_watch::watch_window(&mut last, None));
    assert_eq!(None, keympostor::ui::win_watch::watch_window(&mut last, None));
}

fn log_event(action: &str, keys: &[usize], injected: bool, private: bool, time: u32) -> keympostor::keyboard::key_event::KeyEvent {
    let mut state = [0u8; 256];
    for k in keys {
        state[*k] = 0x80;
    }
    keympostor::keyboard::key_event::KeyEvent {
        action: keympostor::keyboard::key_action::KeyAction::from_text(action).unwrap(),
        modifiers_state: KeyModifiers::from_keyboard_state(state),
        time,
        is_injected: injected,
        is_private: private,
    }
}

#[test]
fn log_view_row() {
    let rule = KeyTransformRule::from_text("[LEFT_SHIFT] NUM_ENTER↓ : A↓").unwrap();
    let event = log_event("NUM_ENTER↓", &[0xA0], false, false, 1234);
    assert_eq!(
        vec!["[LEFT_SHIFT]NUM_ENTER↓", "[LEFT_SHIFT]NUM_ENTER↓ : A↓", "[LEFT_SHIFT]", "NUM_ENTER", "↓", "0x0D", "0xE01C", "1234", "R--"],
        keympostor::ui::log_view::log_row_texts(&event, Some(&rule))
    );
    let event = log_event("A↑", &[], true, true, 0);
    assert_eq!(
        vec!["[]A↑", "", "[]", "A", "↑", "0x41", "0x001E", "0", "-IP"],
        keympostor::ui::log_view::log_row_texts(&event, None)
    );
    assert_eq!(Some(0xAAAAAA), keympostor::ui::log_view::log_row_color(&event, true));
    assert_eq!(Some(0xCC0000), keympostor::ui::log_view::log_row_color(&event, false));
    let injected = log_event("A↑", &[], true, false, 0);
    assert_eq!(Some(0xCC00AA), keympostor::ui::log_view::log_row_color(&injected, false));
    let plain = log_event("A↑", &[], false, false, 0);
    assert_eq!(None, keympostor::ui::log_view::log_row_color(&plain, false));
}

#[test]
fn log_text_keeps_last_lines() {
    let trim = keympostor::ui::log_view::trim_log_text;
    assert_eq!("a\r\nb\r\n", trim("a\nb"));
    assert_eq!("a\r\nb\r\n", trim("a\r\nb\r\n"));
    assert_eq!("", trim(""));
    assert_eq!("\r\n", trim("\n"));
    assert_eq!("x\r\r\n", trim("x\r"));
    let long: String = (0..300).map(|i| format!("line {}\n", i)).collect();
    let kept = trim(&long);
    assert_eq!(256, kept.lines().count());
    assert!(kept.starts_with("line 44\r\n"));
    assert!(kept.ends_with("line 299\r\n"));
}

fn rule_profile(rule: Option<&str>) -> Profile {
    Profile { activation_rule: rule.map(|r| r.to_string()), ..Default::default() }
}

#[test]
fn activation_pattern_matches_title_or_path() {
    assert!(ActivationPattern::new("(unclosed").is_none());
    let p = ActivationPattern::new("^Total").unwrap();
    assert!(p.matches_window(Some("Total Commander"), None));
    assert!(p.matches_window(None, Some("Total.exe")));
    assert!(p.matches_window(Some("Notepad"), Some("Total.exe")));
    assert!(!p.matches_window(Some("Notepad"), Some("C:\\Total.exe")));
    assert!(!p.matches_window(None, None));
    assert_eq!(Some(42), p.active_window_match(42, Some("Total Commander"), None));
    assert_eq!(None, p.active_window_match(42, Some("My Total"), None));
}

#[test]
fn find_profile_match_takes_first_matching_profile() {
    let profiles = vec![
        ("bad".to_string(), rule_profile(Some("(unclosed"))),
        ("none".to_string(), rule_profile(None)),
        ("chrome".to_string(), rule_profile(Some("Chrome"))),
        ("browser".to_string(), rule_profile(Some("Chrome|Firefox"))),
        ("tc".to_string(), rule_profile(Some("TOTALCMD64\\.EXE$"))),
    ];
    assert_eq!(
        Some((7, "chrome".to_string())),
        find_profile_match(&profiles, 7, Some("Google Chrome"), None)
    );
    assert_eq!(
        Some((8, "browser".to_string())),
        find_profile_match(&profiles, 8, Some("Mozilla Firefox"), None)
    );
    assert_eq!(
        Some((9, "tc".to_string())),
        find_profile_match(&profiles, 9, None, Some("C:\\TC\\TOTALCMD64.EXE"))
    );
    assert_eq!(None, find_profile_match(&profiles, 9, Some("Notepad"), Some("notepad.exe")));
    assert_eq!(None, find_profile_match(&Vec::new(), 9, Some("Chrome"), None));
}

#[test]
fn log_rows_keep_the_last_ones() {
    let mut rows: Vec<u32> = (0..256).collect();
    append_log_row(&mut rows, 256);
    assert_eq!(257, rows.len());
    assert_eq!(0, rows[0]);
    assert_eq!(256, rows[256]);
    append_log_row(&mut rows, 257);
    assert_eq!(257, rows.len());
    assert_eq!(1, rows[0]);
    assert_eq!(257, rows[256]);
    let mut few = vec![1u32, 2];
    append_log_row(&mut few, 3);
    assert_eq!(vec![1, 2, 3], few);
}

#[test]
fn window_watch_over_successive_looks() {
    let looks = [Some(5), Some(5), Some(6), None, None, Some(6)];
    let expected = [Some((5, true)), None, Some((6, true)), Some((6, false)), None, Some((6, true))];
    let mut last = None;
    for (look, want) in looks.iter().zip(expected.iter()) {
        assert_eq!(*want, keympostor::ui::win_watch::watch_window(&mut last, *look));
    }
    assert_eq!(Some(6), last);
}
