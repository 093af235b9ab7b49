use wayscriber::config::keybindings::{Action, KeyBinding, KeybindingsConfig};

#[test]
fn test_parse_simple_key() {
    let binding = KeyBinding::parse("Escape").unwrap();
    assert_eq!(binding.key, "Escape");
    assert!(!binding.ctrl);
    assert!(!binding.shift);
    assert!(!binding.alt);
}

#[test]
fn test_parse_ctrl_key() {
    let binding = KeyBinding::parse("Ctrl+Z").unwrap();
    assert_eq!(binding.key, "Z");
    assert!(binding.ctrl);
    assert!(!binding.shift);
    assert!(!binding.alt);
}

#[test]
fn test_parse_ctrl_shift_key() {
    let binding = KeyBinding::parse("Ctrl+Shift+W").unwrap();
    assert_eq!(binding.key, "W");
    assert!(binding.ctrl);
    assert!(binding.shift);
    assert!(!binding.alt);
}

#[test]
fn test_parse_all_modifiers() {
    let binding = KeyBinding::parse("Ctrl+Shift+Alt+A").unwrap();
    assert_eq!(binding.key, "A");
    assert!(binding.ctrl);
    assert!(binding.shift);
    assert!(binding.alt);
}

#[test]
fn test_parse_case_insensitive() {
    let binding = KeyBinding::parse("ctrl+shift+w").unwrap();
    assert_eq!(binding.key, "w");
    assert!(binding.ctrl);
    assert!(binding.shift);
}

#[test]
fn test_parse_with_spaces() {
    let binding = KeyBinding::parse("Ctrl + Shift + W").unwrap();
    assert_eq!(binding.key, "W");
    assert!(binding.ctrl);
    assert!(binding.shift);
}

#[test]
fn test_matches() {
    let binding = KeyBinding::parse("Ctrl+Shift+W").unwrap();
    assert!(binding.matches("W", true, true, false));
    assert!(binding.matches("w", true, true, false)); // Case insensitive
    assert!(!binding.matches("W", false, true, false)); // Missing ctrl
    assert!(!binding.matches("W", true, false, false)); // Missing shift
    assert!(!binding.matches("A", true, true, false)); // Wrong key
}

#[test]
fn test_parse_modifier_order_independence() {
    let binding1 = KeyBinding::parse("Ctrl+Shift+W").unwrap();
    let binding2 = KeyBinding::parse("Shift+Ctrl+W").unwrap();

    assert_eq!(binding1.key, "W");
    assert_eq!(binding2.key, "W");
    assert_eq!(binding1.ctrl, binding2.ctrl);
    assert_eq!(binding1.shift, binding2.shift);
    assert_eq!(binding1.alt, binding2.alt);
    assert!(binding1.ctrl);
    assert!(binding1.shift);

    let binding3 = KeyBinding::parse("Ctrl+Alt+Shift+W").unwrap();
    let binding4 = KeyBinding::parse("Shift+Alt+Ctrl+W").unwrap();
    let binding5 = KeyBinding::parse("Alt+Shift+Ctrl+W").unwrap();

    assert_eq!(binding3.key, "W");
    assert_eq!(binding4.key, "W");
    assert_eq!(binding5.key, "W");
    assert!(binding3.ctrl && binding3.shift && binding3.alt);
    assert!(binding4.ctrl && binding4.shift && binding4.alt);
    assert!(binding5.ctrl && binding5.shift && binding5.alt);
}

#[test]
fn test_build_action_map() {
    let config = KeybindingsConfig::default();
    let map = config.build_action_map().unwrap();

    let escape = KeyBinding::parse("Escape").unwrap();
    assert_eq!(map.get(&escape), Some(&Action::Exit));

    let ctrl_z = KeyBinding::parse("Ctrl+Z").unwrap();
    assert_eq!(map.get(&ctrl_z), Some(&Action::Undo));
}

#[test]
fn test_duplicate_keybinding_detection() {
    let mut config = KeybindingsConfig::default();
    config.exit = vec!["Ctrl+Z".to_string()];
    config.undo = vec!["Ctrl+Z".to_string()];

    let result = config.build_action_map();
    assert!(result.is_err());
    let err_msg = result.unwrap_err();
    assert!(err_msg.contains("Duplicate keybinding"));
    assert!(err_msg.contains("Ctrl+Z"));
}

#[test]
fn test_duplicate_with_different_modifier_order() {
    let mut config = KeybindingsConfig::default();
    config.exit = vec!["Ctrl+Shift+W".to_string()];
    config.toggle_whiteboard = vec!["Shift+Ctrl+W".to_string()];

    let result = config.build_action_map();
    assert!(result.is_err());
    let err_msg = result.unwrap_err();
    assert!(err_msg.contains("Duplicate keybinding"));
}

// ---------------------------------------------------------------------------
// Further cases
// ---------------------------------------------------------------------------

#[test]
fn parse_rejects_empty_and_blank_text() {
    assert_eq!(KeyBinding::parse("").unwrap_err(), "Empty keybinding string");
    assert_eq!(KeyBinding::parse("   \t").unwrap_err(), "Empty keybinding string");
}

#[test]
fn parse_rejects_modifiers_without_key() {
    assert_eq!(
        KeyBinding::parse(" Ctrl+Shift ").unwrap_err(),
        "No key specified in: Ctrl+Shift"
    );
}

#[test]
fn parse_plus_key_forms() {
    let b = KeyBinding::parse("Ctrl+Shift++").unwrap();
    assert_eq!(b.key, "+");
    assert!(b.ctrl && b.shift && !b.alt);
    let b = KeyBinding::parse("+").unwrap();
    assert_eq!(b.key, "+");
    let b = KeyBinding::parse("Ctrl+").unwrap();
    assert_eq!(b.key, "+");
    let b = KeyBinding::parse("Control+x").unwrap();
    assert_eq!(b.key, "x");
    assert!(b.ctrl);
}

#[test]
fn parse_trims_unicode_whitespace() {
    let b = KeyBinding::parse("\u{3000}Alt+F10\n").unwrap();
    assert_eq!(b.key, "F10");
    assert!(b.alt && !b.ctrl && !b.shift);
}

#[test]
fn duplicate_message_is_exact() {
    let mut config = KeybindingsConfig::default();
    config.exit = vec!["Ctrl+Z".to_string()];
    config.undo = vec!["Ctrl+Z".to_string()];
    assert_eq!(
        config.build_action_map().unwrap_err(),
        "Duplicate keybinding 'Ctrl+Z' assigned to both Exit and Undo"
    );
}

#[test]
fn invalid_binding_text_fails_the_build() {
    let mut config = KeybindingsConfig::default();
    config.toggle_help = vec!["Shift".to_string()];
    assert_eq!(
        config.build_action_map().unwrap_err(),
        "No key specified in: Shift"
    );
}

#[test]
fn default_map_holds_every_default_binding() {
    let config = KeybindingsConfig::default();
    let map = config.build_action_map().unwrap();
    assert_eq!(map.len(), 36);
    let f10 = KeyBinding::parse("F10").unwrap();
    assert_eq!(map.get(&f10), Some(&Action::ToggleHelp));
    let plus = KeyBinding::parse("Ctrl+Shift++").unwrap();
    assert_eq!(map.get(&plus), Some(&Action::IncreaseFontSize));
    let unknown = KeyBinding::parse("Ctrl+Alt+Q").unwrap();
    assert_eq!(map.get(&unknown), None);
    assert_eq!(map.find_match("z", true, false, false), Some(Action::Undo));
    assert_eq!(map.find_match("r", false, false, false), Some(Action::SetColorRed));
    assert_eq!(map.find_match("z", false, false, false), None);
    assert_eq!(map.find_match("F11", false, false, false), Some(Action::OpenConfigurator));
    assert_eq!(map.find_match("F12", false, false, false), Some(Action::ToggleStatusBar));
    assert_eq!(map.find_match("c", true, false, false), Some(Action::CaptureClipboardFull));
    assert_eq!(map.find_match("p", true, true, false), Some(Action::CaptureFullScreen));
}

#[test]
fn matches_law_case_variants() {
    let b = KeyBinding::parse("Alt+F10").unwrap();
    assert!(b.matches("f10", false, false, true));
    assert!(b.matches("F10", false, false, true));
    assert!(!b.matches("F1", false, false, true));
}

#[test]
fn modifiers_in_any_order_and_repeated() {
    let expected = KeyBinding::parse("Ctrl+Alt+Shift+W").unwrap();
    for text in ["Shift+Alt+Ctrl+W", "Alt+Shift+Ctrl+W", "Ctrl+Shift+Alt+Ctrl+W", "alt+CONTROL+shift+W"] {
        assert_eq!(KeyBinding::parse(text).unwrap(), expected, "{text}");
    }
    assert!(expected.ctrl && expected.shift && expected.alt);
    assert_eq!(expected.key, "W");
}
