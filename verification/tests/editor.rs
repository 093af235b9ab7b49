use std::path::PathBuf;

use wayscriber::config::keybindings::KeybindingsConfig;
use wayscriber::config::types::{SessionConfig, SessionStorageMode};
use wayscriber::configurator::app_state::{ConfiguratorApp, EditorCommand, Message, StatusMessage};
use wayscriber::configurator::draft::{
    ColorInput, ColorMode, ColorQuadInput, ColorTripletInput, ConfigDraft, NamedColorOption,
};
use wayscriber::configurator::error::FormError;
use wayscriber::configurator::fields::{
    BoardModeOption, FontStyleOption, FontWeightOption, SessionCompressionOption, SessionStorageModeOption,
    StatusPositionOption, TextField, ToggleField,
};
use wayscriber::configurator::keybindings::{KeybindingField, KeybindingsDraft};
use wayscriber::configurator::tab::TabId;

fn strings(values: &[&str]) -> Vec<String> {
    values.iter().map(|v| v.to_string()).collect()
}

fn sample_draft() -> ConfigDraft {
    ConfigDraft {
        drawing_color: ColorInput {
            mode: ColorMode::Named,
            name: "red".to_string(),
            selected_named: NamedColorOption::Red,
            rgb: strings(&["255", "0", "0"]),
        },
        drawing_default_thickness: "3".to_string(),
        drawing_default_font_size: "32".to_string(),
        drawing_font_family: "Sans".to_string(),
        drawing_font_weight: "bold".to_string(),
        drawing_font_style: "normal".to_string(),
        drawing_text_background_enabled: false,
        drawing_font_style_option: FontStyleOption::Normal,
        drawing_font_weight_option: FontWeightOption::Bold,
        arrow_length: "20".to_string(),
        arrow_angle: "30".to_string(),
        performance_buffer_count: 3,
        performance_enable_vsync: true,
        ui_show_status_bar: true,
        ui_status_position: StatusPositionOption::BottomLeft,
        status_font_size: "14".to_string(),
        status_padding: "10".to_string(),
        status_bar_bg_color: ColorQuadInput { components: strings(&["0", "0", "0", "0.7"]) },
        status_bar_text_color: ColorQuadInput { components: strings(&["1", "1", "1", "1"]) },
        status_dot_radius: "4".to_string(),
        help_font_size: "16".to_string(),
        help_line_height: "22".to_string(),
        help_padding: "20".to_string(),
        help_bg_color: ColorQuadInput { components: strings(&["0", "0", "0", "0.85"]) },
        help_border_color: ColorQuadInput { components: strings(&["0.3", "0.6", "1", "0.9"]) },
        help_border_width: "2".to_string(),
        help_text_color: ColorQuadInput { components: strings(&["1", "1", "1", "1"]) },
        board_enabled: true,
        board_default_mode: BoardModeOption::Transparent,
        board_whiteboard_color: ColorTripletInput { components: strings(&["0.992", "0.992", "0.992"]) },
        board_blackboard_color: ColorTripletInput { components: strings(&["0.067", "0.067", "0.067"]) },
        board_whiteboard_pen: ColorTripletInput { components: strings(&["0", "0", "0"]) },
        board_blackboard_pen: ColorTripletInput { components: strings(&["1", "1", "1"]) },
        board_auto_adjust_pen: true,
        capture_enabled: true,
        capture_save_directory: "~/Pictures/Wayscriber".to_string(),
        capture_filename_template: "screenshot_%Y-%m-%d_%H%M%S".to_string(),
        capture_format: "png".to_string(),
        capture_copy_to_clipboard: true,
        session_persist_transparent: false,
        session_persist_whiteboard: false,
        session_persist_blackboard: false,
        session_restore_tool_state: true,
        session_per_output: true,
        session_storage_mode: SessionStorageModeOption::Auto,
        session_custom_directory: String::new(),
        session_max_shapes_per_frame: "10000".to_string(),
        session_max_file_size_mb: "10".to_string(),
        session_compression: SessionCompressionOption::Auto,
        session_auto_compress_threshold_kb: "100".to_string(),
        session_backup_retention: "1".to_string(),
        keybindings: KeybindingsDraft::from_config(&KeybindingsConfig::default()),
    }
}

fn status_text(status: &StatusMessage) -> (&'static str, String) {
    match status {
        StatusMessage::Idle => ("idle", String::new()),
        StatusMessage::Info(m) => ("info", m.clone()),
        StatusMessage::Success(m) => ("success", m.clone()),
        StatusMessage::Error(m) => ("error", m.clone()),
    }
}

fn loaded_app() -> ConfiguratorApp {
    let (mut app, _) = ConfiguratorApp::new(sample_draft(), None);
    app.update(Message::ConfigLoaded(Ok(sample_draft())));
    app
}

#[test]
fn editor_opens_loading_the_configuration() {
    let (app, cmd) = ConfiguratorApp::new(sample_draft(), Some(PathBuf::from("/tmp/config.toml")));
    assert_eq!(cmd, EditorCommand::LoadConfig);
    assert!(app.is_loading);
    assert!(!app.is_dirty);
    assert_eq!(app.active_tab, TabId::Drawing);
    assert_eq!(status_text(&app.status), ("info", "Loading configuration...".to_string()));
}

#[test]
fn loading_sets_draft_and_baseline() {
    let app = loaded_app();
    assert!(!app.is_loading);
    assert!(!app.is_dirty);
    assert!(app.draft.same_as(&app.baseline));
    assert_eq!(status_text(&app.status), ("success", "Configuration loaded from disk.".to_string()));
}

#[test]
fn load_failure_is_reported() {
    let (mut app, _) = ConfiguratorApp::new(sample_draft(), None);
    let cmd = app.update(Message::ConfigLoaded(Err("no such file".to_string())));
    assert_eq!(cmd, EditorCommand::Nothing);
    assert!(!app.is_loading);
    assert_eq!(
        status_text(&app.status),
        ("error", "Failed to load config from disk: no such file".to_string())
    );
}

#[test]
fn editing_marks_dirty_until_undone() {
    let mut app = loaded_app();
    app.update(Message::TextChanged(TextField::DrawingThickness, "5".to_string()));
    assert!(app.is_dirty);
    assert_eq!(app.draft.drawing_default_thickness, "5");
    assert_eq!(status_text(&app.status).0, "idle");
    app.update(Message::TextChanged(TextField::DrawingThickness, "3".to_string()));
    assert!(!app.is_dirty);
    app.update(Message::ToggleChanged(ToggleField::BoardEnabled, false));
    assert!(app.is_dirty);
    assert!(!app.draft.board_enabled);
}

#[test]
fn reload_only_when_idle() {
    let mut app = loaded_app();
    assert_eq!(app.update(Message::ReloadRequested), EditorCommand::LoadConfig);
    assert!(app.is_loading);
    assert_eq!(status_text(&app.status), ("info", "Reloading configuration...".to_string()));
    assert_eq!(app.update(Message::ReloadRequested), EditorCommand::Nothing);
}

#[test]
fn reset_to_defaults_is_unsaved() {
    let mut app = loaded_app();
    let mut defaults = sample_draft();
    defaults.arrow_length = "25".to_string();
    app.update(Message::ResetToDefaults(defaults));
    assert!(app.is_dirty);
    assert_eq!(app.draft.arrow_length, "25");
    assert_eq!(
        status_text(&app.status),
        ("info", "Loaded default configuration (not saved).".to_string())
    );
}

#[test]
fn invalid_draft_is_not_saved() {
    let mut app = loaded_app();
    let errors = vec![
        FormError::new("arrow.length".to_string(), "invalid float literal".to_string()),
        FormError::new("session.backup_retention".to_string(), "invalid digit found in string".to_string()),
    ];
    let cmd = app.update(Message::SaveRequested(Err(errors)));
    assert_eq!(cmd, EditorCommand::Nothing);
    assert!(!app.is_saving);
    assert_eq!(
        status_text(&app.status),
        (
            "error",
            "Cannot save due to validation errors:\narrow.length: invalid float literal\nsession.backup_retention: invalid digit found in string"
                .to_string()
        )
    );
}

#[test]
fn saving_runs_once_and_reports_backup() {
    let mut app = loaded_app();
    app.update(Message::TextChanged(TextField::ArrowAngle, "45".to_string()));
    assert_eq!(app.update(Message::SaveRequested(Ok(()))), EditorCommand::SaveConfig);
    assert!(app.is_saving);
    assert_eq!(status_text(&app.status), ("info", "Saving configuration...".to_string()));
    assert_eq!(app.update(Message::SaveRequested(Ok(()))), EditorCommand::Nothing);

    let mut saved = sample_draft();
    saved.arrow_angle = "45".to_string();
    let backup = b"/tmp/config.toml.bak".to_vec();
    app.update(Message::ConfigSaved(Ok((Some(backup.clone()), saved))));
    assert!(!app.is_saving);
    assert!(!app.is_dirty);
    assert_eq!(app.last_backup_path, Some(backup));
    assert_eq!(
        status_text(&app.status),
        (
            "success",
            "Configuration saved successfully.\nBackup created at /tmp/config.toml.bak".to_string()
        )
    );
}

#[test]
fn save_failure_is_reported() {
    let mut app = loaded_app();
    app.update(Message::SaveRequested(Ok(())));
    app.update(Message::ConfigSaved(Err("disk full".to_string())));
    assert!(!app.is_saving);
    assert_eq!(status_text(&app.status), ("error", "Failed to save configuration: disk full".to_string()));
}

#[test]
fn saved_without_backup() {
    let mut app = loaded_app();
    app.update(Message::ConfigSaved(Ok((None, sample_draft()))));
    assert_eq!(status_text(&app.status), ("success", "Configuration saved successfully.".to_string()));
}

#[test]
fn color_pickers_follow_the_name() {
    let mut app = loaded_app();
    app.update(Message::ColorModeChanged(ColorMode::Rgb));
    assert_eq!(app.draft.drawing_color.mode, ColorMode::Rgb);
    app.update(Message::TextChanged(TextField::DrawingColorName, "  ".to_string()));
    assert_eq!(app.draft.drawing_color.selected_named, NamedColorOption::Custom);
    app.update(Message::ColorModeChanged(ColorMode::Named));
    assert_eq!(app.draft.drawing_color.selected_named, NamedColorOption::Red);
    assert_eq!(app.draft.drawing_color.name, "red");

    app.update(Message::TextChanged(TextField::DrawingColorName, " Blue ".to_string()));
    assert_eq!(app.draft.drawing_color.selected_named, NamedColorOption::Blue);
    app.update(Message::NamedColorSelected(NamedColorOption::Pink));
    assert_eq!(app.draft.drawing_color.name, "pink");
    app.update(Message::NamedColorSelected(NamedColorOption::Custom));
    assert_eq!(app.draft.drawing_color.name, "pink");
    assert!(app.draft.drawing_color.selected_named_is_custom());
}

#[test]
fn option_pickers_fill_in_values() {
    let mut app = loaded_app();
    app.update(Message::FontStyleOptionSelected(FontStyleOption::Italic));
    assert_eq!(app.draft.drawing_font_style, "italic");
    app.update(Message::FontWeightOptionSelected(FontWeightOption::Custom));
    assert_eq!(app.draft.drawing_font_weight, "bold");
    assert_eq!(app.draft.drawing_font_weight_option, FontWeightOption::Custom);
    app.update(Message::BufferCountChanged(4));
    assert_eq!(app.draft.performance_buffer_count, 4);
    app.update(Message::SessionCompressionChanged(SessionCompressionOption::On));
    assert_eq!(app.draft.session_compression, SessionCompressionOption::On);
    app.update(Message::KeybindingChanged(KeybindingField::Undo, "Ctrl+U".to_string()));
    let undo = app.draft.keybindings.entries.iter().find(|e| e.field == KeybindingField::Undo).unwrap();
    assert_eq!(undo.value, "Ctrl+U");
    assert!(app.is_dirty);
    app.update(Message::TabSelected(TabId::Keybindings));
    assert_eq!(app.active_tab, TabId::Keybindings);
}

#[test]
fn named_colors_by_name() {
    assert_eq!(NamedColorOption::for_name("GREEN"), NamedColorOption::Green);
    assert_eq!(NamedColorOption::for_name("teal"), NamedColorOption::Custom);
    assert_eq!(NamedColorOption::Black.as_value(), "black");
    assert_eq!(NamedColorOption::list().len(), 9);
}

#[test]
fn backup_path_with_invalid_utf8_is_shown_lossily() {
    let mut app = loaded_app();
    app.update(Message::ConfigSaved(Ok((Some(b"/tmp/caf\xe9.bak".to_vec()), sample_draft()))));
    assert_eq!(
        status_text(&app.status),
        ("success", "Configuration saved successfully.\nBackup created at /tmp/caf\u{FFFD}.bak".to_string())
    );
}

#[test]
fn session_settings_read_in_field_order() {
    let mut draft = sample_draft();
    draft.session_max_shapes_per_frame = " 250 ".to_string();
    draft.session_max_file_size_mb = "ten".to_string();
    draft.session_backup_retention = "".to_string();
    draft.session_custom_directory = "  /srv/sessions  ".to_string();
    draft.session_storage_mode = SessionStorageModeOption::Custom;
    let mut session = SessionConfig::default();
    let before = session.max_file_size_mb;
    let mut errors = vec![FormError::new("arrow.length".to_string(), "Expected a numeric value".to_string())];
    draft.apply_session(&mut session, &mut errors);
    assert_eq!(session.max_shapes_per_frame, 250);
    assert_eq!(session.max_file_size_mb, before);
    assert_eq!(session.auto_compress_threshold_kb, 100);
    assert_eq!(session.custom_directory, Some("/srv/sessions".to_string()));
    assert_eq!(session.storage, SessionStorageMode::Custom);
    let pairs: Vec<(String, String)> = errors.into_iter().map(|e| (e.field, e.message)).collect();
    assert_eq!(
        pairs,
        vec![
            ("arrow.length".to_string(), "Expected a numeric value".to_string()),
            ("session.max_file_size_mb".to_string(), "invalid digit found in string".to_string()),
            ("session.backup_retention".to_string(), "cannot parse integer from empty string".to_string()),
        ]
    );
}
