use std::cell::Cell;
use std::path::PathBuf;
use std::rc::Rc;

use wayscriber::backend::capture_state::CaptureState;
use wayscriber::backend::handlers::{key_for_keysym, mouse_button_for, scroll_direction};
use wayscriber::backend::session::SessionState;
use wayscriber::backend::surface::SurfaceState;
use wayscriber::config::source::{
    config_backup_name, migration_backup_name, plan_migration, select_config_source, ConfigSource, MigrationPlan,
};
use wayscriber::daemon::{daemon_step, tray_icon_pixels, Daemon, DaemonStep, OverlayControl, OverlayState};
use wayscriber::input::events::{Key, MouseButton};
use wayscriber::backend::event_loop::apply_configure;
use wayscriber::config::keybindings::KeybindingsConfig;
use wayscriber::input::board_mode::BoardSettings;
use wayscriber::input::highlight::ClickHighlightState;
use wayscriber::input::state::{InputState, PenColors};

#[test]
fn toggle_overlay_invokes_backend_when_hidden() {
    let counter = Rc::new(Cell::new(0usize));
    let seen = counter.clone();
    let runner = move |mode: Option<String>| -> Result<(), String> {
        assert_eq!(mode.as_deref(), Some("whiteboard"));
        seen.set(seen.get() + 1);
        Ok(())
    };
    let mut daemon = Daemon::with_backend_runner(Some("whiteboard".into()), runner);
    daemon.toggle_overlay().unwrap();
    assert_eq!(counter.get(), 1);
    assert_eq!(daemon.test_state(), OverlayState::Hidden);
}

#[test]
fn hide_overlay_is_idempotent() {
    let runner = |_: Option<String>| -> Result<(), String> { Ok(()) };
    let mut daemon = Daemon::with_backend_runner(None, runner);
    daemon.hide_overlay().unwrap();
    assert_eq!(daemon.test_state(), OverlayState::Hidden);

    daemon.overlay_state = OverlayState::Visible;
    daemon.toggle_overlay().unwrap();
    assert_eq!(daemon.test_state(), OverlayState::Hidden);
}

#[test]
fn backend_errors_pass_through_a_toggle() {
    let runner = |_: Option<String>| -> Result<(), String> { Err("no display".to_string()) };
    let mut daemon = Daemon::with_backend_runner(None, runner);
    assert_eq!(daemon.toggle_overlay(), Err("no display".to_string()));
    assert_eq!(daemon.test_state(), OverlayState::Hidden);
    daemon.overlay_state = OverlayState::Visible;
    assert_eq!(daemon.show_overlay(), Ok(()));
    assert_eq!(daemon.test_state(), OverlayState::Visible);
}

#[test]
fn overlay_control_and_loop_steps() {
    let mut control = OverlayControl::new();
    assert_eq!(control.state(), OverlayState::Hidden);
    assert!(control.toggle_shows());
    assert!(control.begin_show());
    assert!(!control.begin_show());
    assert!(!control.toggle_shows());
    control.end_show();
    assert_eq!(control.state(), OverlayState::Hidden);
    control.hide_overlay();
    assert_eq!(control.state(), OverlayState::Hidden);

    assert_eq!(daemon_step(true, true), DaemonStep::Quit);
    assert_eq!(daemon_step(false, true), DaemonStep::Toggle);
    assert_eq!(daemon_step(false, false), DaemonStep::Wait);
}

#[test]
fn tray_icon_is_a_small_pen() {
    let data = tray_icon_pixels();
    assert_eq!(data.len(), 22 * 22 * 4);
    assert_eq!(&data[0..4], &[0, 0, 0, 0]);
    let at = |x: usize, y: usize| -> [u8; 4] {
        let i = (y * 22 + x) * 4;
        [data[i], data[i + 1], data[i + 2], data[i + 3]]
    };
    assert_eq!(at(3, 3), [255, 60, 60, 60]);
    assert_eq!(at(6, 10), [255, 255, 220, 0]);
    assert_eq!(at(10, 18), [255, 255, 150, 180]);
}

#[test]
fn keysyms_map_to_keys() {
    assert_eq!(key_for_keysym(0xff1b), Key::Escape);
    assert_eq!(key_for_keysym(0xff0d), Key::Return);
    assert_eq!(key_for_keysym(0xff08), Key::Backspace);
    assert_eq!(key_for_keysym(0xff09), Key::Tab);
    assert_eq!(key_for_keysym(0x20), Key::Space);
    assert_eq!(key_for_keysym(0xffe2), Key::Shift);
    assert_eq!(key_for_keysym(0xffe3), Key::Ctrl);
    assert_eq!(key_for_keysym(0xffea), Key::Alt);
    assert_eq!(key_for_keysym(0xffc7), Key::F10);
    assert_eq!(key_for_keysym(0xffc8), Key::F11);
    assert_eq!(key_for_keysym(0xffc9), Key::Unknown);
    assert_eq!(key_for_keysym('+' as u32), Key::Char('+'));
    assert_eq!(key_for_keysym('Z' as u32), Key::Char('Z'));
    assert_eq!(key_for_keysym(0x7f), Key::Unknown);
    assert_eq!(mouse_button_for(0x110), Some(MouseButton::Left));
    assert_eq!(mouse_button_for(0x111), Some(MouseButton::Right));
    assert_eq!(mouse_button_for(0x112), Some(MouseButton::Middle));
    assert_eq!(mouse_button_for(0x113), None);
    assert_eq!(scroll_direction(0, -1), -1);
    assert_eq!(scroll_direction(2, -1), 2);
}

#[test]
fn surface_and_capture_bookkeeping() {
    let mut surface: SurfaceState<u8, Vec<u8>> = SurfaceState::new();
    assert!(!surface.is_configured());
    assert!(surface.layer_surface().is_none());
    surface.set_layer_surface(7);
    assert_eq!(surface.layer_surface(), Some(&7));
    surface.set_pool(vec![0; 4]);
    assert!(!surface.update_dimensions(0, 0));
    assert!(surface.pool_mut().is_some());
    assert!(surface.update_dimensions(10, 5));
    assert!(surface.pool_mut().is_none());
    assert_eq!((surface.width(), surface.height()), (10, 5));
    assert_eq!(surface.pool_size(2), 400);
    surface.set_configured(true);
    surface.set_frame_callback_pending(true);
    assert!(surface.is_configured() && surface.frame_callback_pending());

    let mut capture = CaptureState::new(());
    assert!(!capture.is_in_progress());
    assert!(capture.hide_overlay());
    assert!(!capture.hide_overlay());
    capture.mark_in_progress();
    assert!(capture.is_in_progress());
    assert!(capture.show_overlay());
    assert!(!capture.show_overlay());
    capture.clear_in_progress();
    assert!(!capture.is_in_progress());

    let mut session = SessionState::new(Some(3u32));
    assert!(!session.is_loaded());
    if let Some(o) = session.options_mut() {
        *o = 4;
    }
    session.mark_loaded();
    assert!(session.is_loaded());
    assert_eq!(session.options(), Some(&4));
}

#[test]
fn config_source_and_migration_decisions() {
    assert!(matches!(select_config_source(true, true, PathBuf::from("/x")), ConfigSource::Primary));
    match select_config_source(false, true, PathBuf::from("/old/config.toml")) {
        ConfigSource::Legacy(p) => assert_eq!(p, PathBuf::from("/old/config.toml")),
        _ => panic!("expected the legacy file"),
    }
    assert!(matches!(select_config_source(false, false, PathBuf::from("/x")), ConfigSource::Default));

    assert_eq!(plan_migration(false, true, false), MigrationPlan::NothingToMigrate);
    assert_eq!(plan_migration(true, true, true), MigrationPlan::CountOnly);
    assert_eq!(plan_migration(true, true, false), MigrationPlan::Copy { backup_first: true });
    assert_eq!(plan_migration(true, false, false), MigrationPlan::Copy { backup_first: false });

    assert_eq!(migration_backup_name("20240102030405"), "wayscriber.backup.20240102030405");
    assert_eq!(config_backup_name(Some("config.toml"), "20240102_030405"), "config.toml.20240102_030405.bak");
    assert_eq!(config_backup_name(None, "t"), "config.toml.t.bak");
}

#[test]
fn configure_sizes_surface_and_input() {

    let board = BoardSettings { enabled: true, auto_adjust_pen: true, whiteboard_color: 1u8, blackboard_color: 2, whiteboard_pen_color: 3, blackboard_pen_color: 4 };
    let pens = PenColors { red: 1u8, green: 2, blue: 3, yellow: 4, orange: 5, pink: 6, white: 7, black: 8 };
    let map = KeybindingsConfig::default().build_action_map().unwrap();
    let mut input: InputState<(), u8> =
        InputState::with_defaults(1, false, board, pens, map, 0, ClickHighlightState::new(false, 0, 0));
    let mut surface: SurfaceState<(), ()> = SurfaceState::new();
    input.redraw_done();
    assert!(!apply_configure(&mut surface, &mut input, 0, 0));
    assert!(surface.is_configured());
    assert!(input.needs_redraw());
    assert_eq!(input.screen_width, 0);
    assert!(apply_configure(&mut surface, &mut input, 640, 480));
    assert_eq!((input.screen_width, input.screen_height), (640, 480));
    assert!(!apply_configure(&mut surface, &mut input, 640, 480));
    input.request_exit();
    assert!(input.should_exit());

    let mut session = SessionState::new(None::<u8>);
    assert!(session.needs_load(false));
    session.mark_loaded();
    assert!(!session.needs_load(false));
    assert!(session.needs_load(true));
}
