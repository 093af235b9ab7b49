use wayscriber::capture::uri::portal_file_path;
use wayscriber::capture::plan::{
    capture_notification_body, capture_request, clipboard_failure_message, copy_after_save, delivery_outcome,
    friendly_capture_error, needs_save_config,
    plan_delivery, portal_flags, portal_reply, read_step, record_outcome, window_geometry,
    PortalReply, ReadStep, MAX_READ_ATTEMPTS,
};
use wayscriber::capture::types::{CaptureDestination, CaptureOutcome, CaptureResult, CaptureStatus, CaptureType};
use wayscriber::config::keybindings::{Action, KeybindingsConfig};
use wayscriber::config::types::{SessionConfig, SessionStorageMode};
use wayscriber::config::validation::{
    clamp_buffer_count, clamp_highlight_duration_ms, is_valid_font_style, is_valid_font_weight, validate_keybindings,
    validate_session, validated_board_mode, validated_font_style, validated_font_weight,
};

#[test]
fn delivery_follows_destination() {
    let p = plan_delivery(CaptureDestination::ClipboardAndFile, true, false);
    assert!(p.save_file && p.copy_clipboard);
    let p = plan_delivery(CaptureDestination::FileOnly, true, true);
    assert!(!p.save_file && !p.copy_clipboard);
    let p = plan_delivery(CaptureDestination::ClipboardOnly, true, false);
    assert!(!p.save_file && p.copy_clipboard);
    assert!(!needs_save_config(CaptureDestination::ClipboardOnly));
    assert!(needs_save_config(CaptureDestination::FileOnly));
}

#[test]
fn capture_shortcuts_pick_type_and_destination() {
    let region = CaptureType::Selection { x: 0, y: 0, width: 0, height: 0 };
    assert_eq!(
        capture_request(Action::CaptureFullScreen, true),
        Some((CaptureType::FullScreen, CaptureDestination::ClipboardAndFile))
    );
    assert_eq!(
        capture_request(Action::CaptureActiveWindow, false),
        Some((CaptureType::ActiveWindow, CaptureDestination::FileOnly))
    );
    assert_eq!(capture_request(Action::CaptureSelection, false), Some((region, CaptureDestination::FileOnly)));
    assert_eq!(
        capture_request(Action::CaptureClipboardFull, false),
        Some((CaptureType::FullScreen, CaptureDestination::ClipboardOnly))
    );
    assert_eq!(capture_request(Action::CaptureFileRegion, true), Some((region, CaptureDestination::FileOnly)));
    assert_eq!(capture_request(Action::CaptureClipboardRegion, false), Some((region, CaptureDestination::ClipboardOnly)));
    assert_eq!(capture_request(Action::Undo, true), None);
    assert_eq!(capture_request(Action::OpenConfigurator, false), None);
}

#[test]
fn outcomes_are_recorded() {
    let res = CaptureResult { image_data: vec![1, 2], saved_path: None, copied_to_clipboard: true };
    let (status, outcome) = record_outcome(Ok(res));
    assert_eq!(status, CaptureStatus::Success);
    assert!(matches!(outcome, CaptureOutcome::Success(r) if r.image_data == vec![1, 2] && r.copied_to_clipboard));
    let (status, outcome) = record_outcome(Err("boom".to_string()));
    assert_eq!(status, CaptureStatus::Failed("boom".to_string()));
    assert!(matches!(outcome, CaptureOutcome::Failed(m) if m == "boom"));
}

#[test]
fn test_build_portal_options_full_screen() {
    assert_eq!(portal_flags(CaptureType::FullScreen), (false, false));
}

#[test]
fn test_build_portal_options_selection() {
    let (modal, interactive) = portal_flags(CaptureType::Selection { x: 0, y: 0, width: 100, height: 100 });
    assert!(!modal);
    assert!(interactive);
    assert_eq!(portal_flags(CaptureType::ActiveWindow), (false, true));
}

#[test]
fn portal_replies_and_read_steps() {
    assert_eq!(portal_reply(0), PortalReply::Captured);
    assert_eq!(portal_reply(1), PortalReply::Denied);
    assert_eq!(portal_reply(2), PortalReply::Failed("Portal returned error code 2".to_string()));
    assert_eq!(read_step(0, true), ReadStep::Done);
    assert_eq!(read_step(0, false), ReadStep::Retry);
    assert_eq!(read_step(MAX_READ_ATTEMPTS - 1, false), ReadStep::GiveUp);
}

#[test]
fn capture_texts() {
    assert_eq!(window_geometry(-5, 10, 640, 480), "-5,10 640x480");
    assert_eq!(clipboard_failure_message("a", "b"), "wl-copy failed: a ; wl-clipboard-rs failed: b");
    assert_eq!(friendly_capture_error("Portal: RequestCancelled"), "Screen capture cancelled by user");
    assert_eq!(
        friendly_capture_error("PERMISSION denied"),
        "Permission denied. Enable screen sharing in system settings."
    );
    assert_eq!(friendly_capture_error("device busy"), "Screen capture in progress. Try again in a moment.");
    assert_eq!(friendly_capture_error("oops"), "Screen capture failed. Please try again.");
    assert_eq!(capture_notification_body(Some("a.png"), true), "Saved as a.png • Copied to clipboard");
    assert_eq!(capture_notification_body(Some("a.png"), false), "Saved as a.png");
    assert_eq!(capture_notification_body(None, true), "Copied to clipboard");
    assert_eq!(capture_notification_body(None, false), "Screenshot captured");
}

#[test]
fn validation_clamps_and_falls_back() {
    assert_eq!(clamp_buffer_count(0), 2);
    assert_eq!(clamp_buffer_count(3), 3);
    assert_eq!(clamp_buffer_count(9), 4);
    assert_eq!(clamp_highlight_duration_ms(1), 150);
    assert_eq!(clamp_highlight_duration_ms(60_000), 1500);
    assert!(is_valid_font_weight("Bold"));
    assert!(is_valid_font_weight("700"));
    assert!(!is_valid_font_weight("950"));
    assert!(!is_valid_font_weight("thin"));
    assert!(is_valid_font_style("ITALIC"));
    assert!(!is_valid_font_style("slanted"));
    assert_eq!(validated_font_weight("950".to_string()), "bold");
    assert_eq!(validated_font_weight("light".to_string()), "light");
    assert_eq!(validated_font_style("slanted".to_string()), "normal");
    assert_eq!(validated_board_mode("Blackboard".to_string()), "Blackboard");
    assert_eq!(validated_board_mode("chalk".to_string()), "transparent");
}

#[test]
fn invalid_keybindings_fall_back_to_defaults() {
    let mut config = KeybindingsConfig::default();
    config.undo = vec!["Ctrl+Q".to_string()];
    validate_keybindings(&mut config);
    assert_eq!(config.undo, vec!["Ctrl+Z".to_string()]);
    assert_eq!(config.exit, vec!["Escape".to_string(), "Ctrl+Q".to_string()]);
}

#[test]
fn session_validation() {
    let mut session = SessionConfig::default();
    session.max_shapes_per_frame = 0;
    session.max_file_size_mb = 5000;
    session.auto_compress_threshold_kb = 0;
    session.storage = SessionStorageMode::Custom;
    session.custom_directory = Some("   ".to_string());
    validate_session(&mut session);
    assert_eq!(session.max_shapes_per_frame, 1);
    assert_eq!(session.max_file_size_mb, 1024);
    assert_eq!(session.auto_compress_threshold_kb, 1);
    assert_eq!(session.storage, SessionStorageMode::Auto);
    assert_eq!(session.custom_directory, None);

    let mut kept = SessionConfig::default();
    kept.storage = SessionStorageMode::Custom;
    kept.custom_directory = Some("/tmp/s".to_string());
    validate_session(&mut kept);
    assert_eq!(kept.storage, SessionStorageMode::Custom);
    assert_eq!(kept.custom_directory, Some("/tmp/s".to_string()));
}

#[test]
fn portal_uri_names_a_local_file() {
    assert_eq!(portal_file_path("file:///tmp/shot%20one.png").unwrap(), b"/tmp/shot one.png".to_vec());
    assert_eq!(portal_file_path("file://localhost/tmp/x.png").unwrap(), b"/tmp/x.png".to_vec());
    assert_eq!(
        portal_file_path("not a uri").unwrap_err(),
        "Invalid file URI 'not a uri': relative URL without a base"
    );
    assert_eq!(
        portal_file_path("http://example.com/x.png").unwrap_err(),
        "Cannot convert URI to path: http://example.com/x.png"
    );
}

#[test]
fn failed_save_ends_capture_failed_copy_does_not() {
    let plan = plan_delivery(CaptureDestination::ClipboardAndFile, true, false);
    assert!(copy_after_save(plan, false));
    assert!(!copy_after_save(plan, true));

    let err: Result<CaptureResult, String> =
        delivery_outcome(vec![1, 2, 3], Some(Err("disk full".to_string())), None);
    assert_eq!(err.unwrap_err(), "disk full");

    let res = delivery_outcome::<String>(
        vec![1, 2, 3],
        Some(Ok(std::path::PathBuf::from("/tmp/a.png"))),
        Some(Err("no clipboard".to_string())),
    )
    .unwrap();
    assert_eq!(res.image_data, vec![1, 2, 3]);
    assert_eq!(res.saved_path, Some(std::path::PathBuf::from("/tmp/a.png")));
    assert!(!res.copied_to_clipboard);

    let res = delivery_outcome::<String>(vec![9], None, Some(Ok(()))).unwrap();
    assert!(res.saved_path.is_none());
    assert!(res.copied_to_clipboard);
}
