use wayscriber::config::keybindings::KeybindingsConfig;
use wayscriber::configurator::fields::{BoardModeOption, FontStyleOption, FontWeightOption};
use wayscriber::configurator::keybindings::{parse_keybinding_list, KeybindingField, KeybindingsDraft};
use wayscriber::configurator::parse::{parse_u64_field, parse_usize_field};

#[test]
fn keybinding_list_is_split_and_trimmed() {
    assert_eq!(
        parse_keybinding_list(" Ctrl+Z , ,Escape,").unwrap(),
        vec!["Ctrl+Z".to_string(), "Escape".to_string()]
    );
    assert_eq!(parse_keybinding_list("").unwrap(), Vec::<String>::new());
}

#[test]
fn keybindings_draft_round_trip() {
    let config = KeybindingsConfig::default();
    let mut draft = KeybindingsDraft::from_config(&config);
    assert_eq!(draft.entries.len(), 30);
    assert_eq!(draft.entries[0].field, KeybindingField::Exit);
    assert_eq!(draft.entries[0].value, "Escape, Ctrl+Q");
    let open = draft.entries.iter().find(|e| e.field == KeybindingField::OpenConfigurator).unwrap();
    assert_eq!(open.value, "F11");

    let back = draft.to_config().unwrap();
    assert_eq!(back.exit, config.exit);
    assert_eq!(back.increase_font_size, config.increase_font_size);

    draft.set(KeybindingField::Undo, " Ctrl+U ,Ctrl+Z".to_string());
    draft.set(KeybindingField::CaptureFileRegion, "Ctrl+R".to_string());
    let changed = draft.to_config().unwrap();
    assert_eq!(changed.undo, vec!["Ctrl+U".to_string(), "Ctrl+Z".to_string()]);
    assert_eq!(changed.set_color_red, config.set_color_red);
    assert_eq!(changed.capture_file_region, vec!["Ctrl+R".to_string()]);
    assert_eq!(KeybindingField::CaptureFileRegion.get(&changed), &changed.capture_file_region);
    assert_eq!(KeybindingField::Undo.get(&changed), &changed.undo);
    assert_eq!(changed.toggle_status_bar, vec!["F12".to_string()]);
}

#[test]
fn keybinding_field_labels_and_keys() {
    assert_eq!(KeybindingField::all().len(), 30);
    assert_eq!(KeybindingField::ToggleHelp.field_key(), "toggle_help");
    assert_eq!(KeybindingField::CaptureFullScreen.field_key(), "capture_full_screen");
}

#[test]
fn integer_fields_report_errors() {
    let mut errors = Vec::new();
    assert_eq!(parse_usize_field(" 42 ", "session.max_shapes_per_frame", &mut errors), Some(42));
    assert!(errors.is_empty());
    assert_eq!(parse_usize_field("4x", "session.max_shapes_per_frame", &mut errors), None);
    assert_eq!(errors.len(), 1);
    assert_eq!(errors[0].field, "session.max_shapes_per_frame");
    assert_eq!(errors[0].message, "invalid digit found in string");
    assert_eq!(parse_u64_field("  ", "session.max_file_size_mb", &mut errors), None);
    assert_eq!(errors[1].message, "cannot parse integer from empty string");
    assert_eq!(parse_u64_field("18446744073709551616", "x", &mut errors), None);
    assert_eq!(errors[2].message, "number too large to fit in target type");
    assert_eq!(parse_u64_field("+7", "x", &mut errors), Some(7));
}

#[test]
fn font_options_from_values() {
    let (w, v) = FontWeightOption::from_value(" BOLD ");
    assert_eq!(w, FontWeightOption::Bold);
    assert_eq!(v, "bold");
    let (w, v) = FontWeightOption::from_value("600");
    assert_eq!(w, FontWeightOption::Custom);
    assert_eq!(v, "600");
    let (s, v) = FontStyleOption::from_value("Italic");
    assert_eq!(s, FontStyleOption::Italic);
    assert_eq!(v, "italic");
    assert_eq!(BoardModeOption::from_str("whiteboard"), Some(BoardModeOption::Whiteboard));
    assert_eq!(BoardModeOption::from_str("Whiteboard"), None);
}

#[test]
fn editor_round_trip_keeps_every_binding() {
    let mut config = KeybindingsConfig::default();
    config.undo = vec!["Ctrl+U".to_string(), "Ctrl+Z".to_string()];
    config.clear_canvas = Vec::new();
    config.capture_file_region = vec!["Alt+R".to_string()];
    let back = KeybindingsDraft::from_config(&config).to_config().unwrap();
    for field in KeybindingField::all() {
        assert_eq!(field.get(&back), field.get(&config), "{}", field.field_key());
    }
    assert_eq!(back.toggle_status_bar, vec!["F12".to_string()]);
}

#[test]
fn editor_round_trip_splits_a_binding_with_a_comma() {
    let mut config = KeybindingsConfig::default();
    config.undo = vec!["Ctrl+,".to_string()];
    let back = KeybindingsDraft::from_config(&config).to_config().unwrap();
    assert_eq!(back.undo, vec!["Ctrl+".to_string()]);
}

#[test]
fn keybinding_list_reads_back_its_join() {
    let list = vec!["Ctrl+Z".to_string(), "Escape".to_string(), "Shift+Alt+K".to_string()];
    assert_eq!(parse_keybinding_list(&list.join(", ")).unwrap(), list);
    assert_eq!(
        parse_keybinding_list(" Escape , Ctrl+Q,, ").unwrap(),
        vec!["Escape".to_string(), "Ctrl+Q".to_string()]
    );
}
