use wayscriber::config::keybindings::{Action, KeybindingsConfig};
use wayscriber::draw::geometry::ShapeGeometry;
use wayscriber::draw::rect::Rect;
use wayscriber::input::board_mode::{BoardMode, BoardSettings};
use wayscriber::input::events::{Key, MouseButton};
use wayscriber::input::highlight::ClickHighlightState;
use wayscriber::input::state::{DrawingState, InputEffect, InputState, PenColors};

#[derive(Debug, Clone, Copy, PartialEq)]
struct Color {
    r: f64,
    g: f64,
    b: f64,
    a: f64,
}

const RED: Color = Color { r: 1.0, g: 0.0, b: 0.0, a: 1.0 };
const GREEN: Color = Color { r: 0.0, g: 1.0, b: 0.0, a: 1.0 };
const BLUE: Color = Color { r: 0.0, g: 0.0, b: 1.0, a: 1.0 };
const YELLOW: Color = Color { r: 1.0, g: 1.0, b: 0.0, a: 1.0 };
const ORANGE: Color = Color { r: 1.0, g: 0.5, b: 0.0, a: 1.0 };
const PINK: Color = Color { r: 1.0, g: 0.0, b: 1.0, a: 1.0 };
const WHITE: Color = Color { r: 1.0, g: 1.0, b: 1.0, a: 1.0 };
const BLACK: Color = Color { r: 0.0, g: 0.0, b: 0.0, a: 1.0 };

fn key_to_color(key: char) -> Option<Color> {
    match key.to_ascii_lowercase() {
        'r' => Some(RED),
        'g' => Some(GREEN),
        'b' => Some(BLUE),
        'y' => Some(YELLOW),
        'o' => Some(ORANGE),
        'p' => Some(PINK),
        'w' => Some(WHITE),
        'k' => Some(BLACK),
        _ => None,
    }
}

fn pens() -> PenColors<Color> {
    PenColors {
        red: RED,
        green: GREEN,
        blue: BLUE,
        yellow: YELLOW,
        orange: ORANGE,
        pink: PINK,
        white: WHITE,
        black: BLACK,
    }
}

fn board_config() -> BoardSettings<Color> {
    BoardSettings {
        enabled: true,
        auto_adjust_pen: true,
        whiteboard_color: Color { r: 0.992, g: 0.992, b: 0.992, a: 1.0 },
        blackboard_color: Color { r: 0.067, g: 0.067, b: 0.067, a: 1.0 },
        whiteboard_pen_color: Color { r: 0.0, g: 0.0, b: 0.0, a: 1.0 },
        blackboard_pen_color: Color { r: 1.0, g: 1.0, b: 1.0, a: 1.0 },
    }
}

fn create_test_input_state() -> InputState<ShapeGeometry, Color> {
    let keybindings = KeybindingsConfig::default();
    let action_map = keybindings.build_action_map().unwrap();
    InputState::with_defaults(
        Color { r: 1.0, g: 0.0, b: 0.0, a: 1.0 },
        true,
        board_config(),
        pens(),
        action_map,
        0,
        ClickHighlightState::new(false, 54, 750_000_000),
    )
}

/// Releases a button and adds the finished shape, as the overlay does.
fn release(state: &mut InputState<ShapeGeometry, Color>, button: MouseButton, x: i32, y: i32) {
    state.release_and_place(button, x, y, |g| (g, None));
}

fn buffer_of(state: &InputState<ShapeGeometry, Color>) -> String {
    match &state.state {
        DrawingState::TextInput { buffer, .. } => buffer.clone(),
        _ => panic!("Should still be in text input mode"),
    }
}

fn plain_letters_not_triggering_actions() {
    let mut state = create_test_input_state();
    state.state = DrawingState::TextInput { x: 100, y: 100, buffer: String::new() };

    let original_color = state.current_color;
    state.on_key_press(Key::Char('r'));
    assert_eq!(buffer_of(&state), "r");
    assert_eq!(state.current_color, original_color);

    state.on_key_press(Key::Char('g'));
    state.on_key_press(Key::Char('b'));
    state.on_key_press(Key::Char('t'));
    assert_eq!(buffer_of(&state), "rgbt");
    assert_eq!(state.current_color, original_color);
}

#[test]
fn state_test_text_mode_plain_letters_not_triggering_actions() {
    plain_letters_not_triggering_actions();
}

#[test]
fn tests_test_text_mode_plain_letters_not_triggering_actions() {
    plain_letters_not_triggering_actions();
}

#[test]
fn test_text_mode_allows_symbol_keys_without_modifiers() {
    let mut state = create_test_input_state();
    state.state = DrawingState::TextInput { x: 0, y: 0, buffer: String::new() };
    for key in ['-', '+', '=', '_', '!', '@', '#', '$'] {
        state.on_key_press(Key::Char(key));
    }
    assert_eq!(buffer_of(&state), "-+=_!@#$");
}

fn ctrl_keys_trigger_actions() {
    let mut state = create_test_input_state();
    state.state = DrawingState::TextInput { x: 100, y: 100, buffer: String::from("test") };

    state.on_key_press(Key::Ctrl);
    assert!(state.modifiers.ctrl);

    // Ctrl+Z undoes, and typing goes on
    state.on_key_press(Key::Char('Z'));
    assert!(matches!(state.state, DrawingState::TextInput { .. }));

    // Ctrl+Q leaves text mode
    state.on_key_press(Key::Char('Q'));
    assert!(matches!(state.state, DrawingState::Idle));

    // and, when idle, leaves the overlay
    state.on_key_press(Key::Char('Q'));
    assert!(state.should_exit);
}

#[test]
fn state_test_text_mode_ctrl_keys_trigger_actions() {
    ctrl_keys_trigger_actions();
}

#[test]
fn tests_test_text_mode_ctrl_keys_trigger_actions() {
    ctrl_keys_trigger_actions();
}

#[test]
fn test_text_mode_respects_length_cap() {
    let mut state = create_test_input_state();
    state.state = DrawingState::TextInput { x: 0, y: 0, buffer: "a".repeat(10_000) };

    state.on_key_press(Key::Char('b'));
    let buffer = buffer_of(&state);
    assert_eq!(buffer.len(), 10_000);
    assert!(buffer.ends_with('a'));

    if let DrawingState::TextInput { buffer, .. } = &mut state.state {
        buffer.truncate(9_999);
    }
    state.on_key_press(Key::Char('c'));
    let buffer = buffer_of(&state);
    assert!(buffer.ends_with('c'));
    assert_eq!(buffer.len(), 10_000);
}

fn escape_exits_text_mode() {
    let mut state = create_test_input_state();
    state.state = DrawingState::TextInput { x: 100, y: 100, buffer: String::from("test") };
    let effect = state.on_key_press(Key::Escape);
    assert!(matches!(state.state, DrawingState::Idle));
    assert!(!state.should_exit);
    assert_eq!(effect, InputEffect::Nothing);
    assert_eq!(state.canvas_set.active_frame().shapes.len(), 0);
}

#[test]
fn state_test_text_mode_escape_exits() {
    escape_exits_text_mode();
}

#[test]
fn tests_test_text_mode_escape_exits() {
    escape_exits_text_mode();
}

fn f10_shows_help() {
    let mut state = create_test_input_state();
    state.state = DrawingState::TextInput { x: 100, y: 100, buffer: String::new() };
    assert!(!state.show_help);
    state.on_key_press(Key::F10);
    assert!(state.show_help);
    assert!(matches!(state.state, DrawingState::TextInput { .. }));
}

#[test]
fn state_test_text_mode_f10_shows_help() {
    f10_shows_help();
}

#[test]
fn tests_test_text_mode_f10_shows_help() {
    f10_shows_help();
}

fn idle_plain_letters_trigger_color_actions() {
    let mut state = create_test_input_state();
    assert!(matches!(state.state, DrawingState::Idle));
    let original_color = state.current_color;
    state.on_key_press(Key::Char('g'));
    assert_ne!(state.current_color, original_color);
    assert_eq!(state.current_color, key_to_color('g').unwrap());
}

#[test]
fn state_test_idle_mode_plain_letters_trigger_color_actions() {
    idle_plain_letters_trigger_color_actions();
}

#[test]
fn tests_test_idle_mode_plain_letters_trigger_color_actions() {
    idle_plain_letters_trigger_color_actions();
}

fn board_toggle_restores_previous_color() {
    let mut state = create_test_input_state();
    let initial_color = state.current_color;
    assert_eq!(state.board_mode(), BoardMode::Transparent);

    state.switch_board_mode(BoardMode::Whiteboard);
    assert_eq!(state.board_mode(), BoardMode::Whiteboard);
    assert_eq!(state.board_previous_color, Some(initial_color));
    let expected_pen = BoardMode::Whiteboard
        .default_pen_color(&state.board_config)
        .expect("whiteboard should have default pen");
    assert_eq!(state.current_color, expected_pen);

    state.switch_board_mode(BoardMode::Whiteboard);
    assert_eq!(state.board_mode(), BoardMode::Transparent);
    assert_eq!(state.current_color, initial_color);
    assert!(state.board_previous_color.is_none());
}

#[test]
fn state_board_mode_toggle_restores_previous_color() {
    board_toggle_restores_previous_color();
}

#[test]
fn tests_board_mode_toggle_restores_previous_color() {
    board_toggle_restores_previous_color();
}

fn drag_creates_shapes_for_each_tool() {
    let mut state = create_test_input_state();

    // Pen
    state.on_mouse_press(MouseButton::Left, 0, 0);
    state.on_mouse_motion(10, 10);
    release(&mut state, MouseButton::Left, 10, 10);
    assert_eq!(state.canvas_set.active_frame().shapes.len(), 1);

    // Line (Shift)
    state.modifiers.shift = true;
    state.on_mouse_press(MouseButton::Left, 0, 0);
    release(&mut state, MouseButton::Left, 5, 5);
    assert_eq!(state.canvas_set.active_frame().shapes.len(), 2);

    // Rectangle (Ctrl)
    state.modifiers.shift = false;
    state.modifiers.ctrl = true;
    state.on_mouse_press(MouseButton::Left, 0, 0);
    release(&mut state, MouseButton::Left, 5, 5);
    assert_eq!(state.canvas_set.active_frame().shapes.len(), 3);

    // Ellipse (Tab)
    state.modifiers.ctrl = false;
    state.modifiers.tab = true;
    state.on_mouse_press(MouseButton::Left, 0, 0);
    release(&mut state, MouseButton::Left, 4, 4);
    assert_eq!(state.canvas_set.active_frame().shapes.len(), 4);

    // Arrow (Ctrl+Shift)
    state.modifiers.tab = false;
    state.modifiers.ctrl = true;
    state.modifiers.shift = true;
    state.on_mouse_press(MouseButton::Left, 0, 0);
    release(&mut state, MouseButton::Left, 6, 6);
    assert_eq!(state.canvas_set.active_frame().shapes.len(), 5);
}

#[test]
fn state_mouse_drag_creates_shapes_for_each_tool() {
    drag_creates_shapes_for_each_tool();
}

#[test]
fn tests_mouse_drag_creates_shapes_for_each_tool() {
    drag_creates_shapes_for_each_tool();
}

#[test]
fn drag_shapes_have_the_dragged_geometry() {
    let mut state = create_test_input_state();
    state.on_mouse_press(MouseButton::Left, 0, 0);
    state.on_mouse_motion(3, 4);
    assert_eq!(
        state.on_mouse_release(MouseButton::Left, 10, 10),
        Some(ShapeGeometry::Freehand { points: vec![(0, 0), (3, 4)] })
    );

    state.modifiers.ctrl = true;
    state.on_mouse_press(MouseButton::Left, 10, 20);
    assert_eq!(
        state.get_provisional_shape(4, 5),
        Some(ShapeGeometry::Rect { x: 4, y: 5, w: 6, h: 15 })
    );
    assert_eq!(
        state.on_mouse_release(MouseButton::Left, 4, 5),
        Some(ShapeGeometry::Rect { x: 4, y: 5, w: 6, h: 15 })
    );

    state.modifiers.ctrl = false;
    state.modifiers.tab = true;
    state.on_mouse_press(MouseButton::Left, -3, 0);
    assert_eq!(
        state.on_mouse_release(MouseButton::Left, 8, -9),
        Some(ShapeGeometry::Ellipse { cx: 2, cy: -4, rx: 5, ry: 4 })
    );
    assert!(matches!(state.state, DrawingState::Idle));
}

#[test]
fn shape_limit_discards_extra_shapes() {
    let mut state = create_test_input_state();
    state.max_shapes_per_frame = 1;
    state.on_mouse_press(MouseButton::Left, 0, 0);
    let first = state.on_mouse_release(MouseButton::Left, 1, 1).unwrap();
    assert!(state.commit_shape(first));
    state.on_mouse_press(MouseButton::Left, 0, 0);
    let second = state.on_mouse_release(MouseButton::Left, 2, 2).unwrap();
    assert!(!state.commit_shape(second));
    assert_eq!(state.canvas_set.active_frame().shapes.len(), 1);
    assert!(matches!(state.state, DrawingState::Idle));
}

#[test]
fn return_places_the_typed_text() {
    let mut state = create_test_input_state();
    state.update_screen_dimensions(800, 601);
    assert_eq!(state.on_key_press(Key::Char('t')), InputEffect::Nothing);
    match &state.state {
        DrawingState::TextInput { x, y, buffer } => {
            assert_eq!((*x, *y), (400, 300));
            assert!(buffer.is_empty());
        }
        _ => panic!("T should enter text mode"),
    }
    state.on_key_press(Key::Char('h'));
    state.on_key_press(Key::Char('i'));
    state.on_key_press(Key::Backspace);
    state.on_key_press(Key::Char('o'));
    state.on_key_press(Key::Shift);
    state.on_key_press(Key::Return);
    state.on_key_release(Key::Shift);
    state.on_key_press(Key::Space);
    assert_eq!(buffer_of(&state), "ho\n ");
    let effect = state.on_key_press(Key::Return);
    assert_eq!(
        effect,
        InputEffect::CommitText { x: 400, y: 300, text: String::from("ho\n ") }
    );
    assert!(matches!(state.state, DrawingState::Idle));
}

#[test]
fn size_actions_hand_back_effects() {
    let mut state = create_test_input_state();
    assert_eq!(state.on_key_press(Key::Char('+')), InputEffect::ThicknessUp);
    assert_eq!(state.on_key_press(Key::Char('_')), InputEffect::ThicknessDown);
    state.on_key_press(Key::Ctrl);
    state.on_key_press(Key::Shift);
    assert_eq!(state.on_key_press(Key::Char('+')), InputEffect::FontSizeUp);
    assert_eq!(state.on_key_press(Key::Char('-')), InputEffect::FontSizeDown);
    assert_eq!(state.handle_action(Action::ToggleWhiteboard), InputEffect::SyncHighlightColor);
    assert_eq!(state.on_scroll(1), InputEffect::FontSizeDown);
    state.on_key_release(Key::Shift);
    state.on_key_release(Key::Ctrl);
    assert_eq!(state.on_scroll(-1), InputEffect::ThicknessUp);
    assert_eq!(state.on_scroll(0), InputEffect::Nothing);
}

#[test]
fn right_click_cancels_and_escape_exits() {
    let mut state = create_test_input_state();
    state.on_mouse_press(MouseButton::Left, 5, 5);
    assert!(matches!(state.state, DrawingState::Drawing { .. }));
    state.on_mouse_press(MouseButton::Right, 5, 5);
    assert!(matches!(state.state, DrawingState::Idle));
    assert_eq!(state.canvas_set.active_frame().shapes.len(), 0);

    state.on_mouse_press(MouseButton::Left, 5, 5);
    state.on_key_press(Key::Escape);
    assert!(matches!(state.state, DrawingState::Idle));
    assert!(!state.should_exit);
    state.on_key_press(Key::Escape);
    assert!(state.should_exit);
}

#[test]
fn undo_and_clear_act_on_the_active_frame() {
    let mut state = create_test_input_state();
    state.on_mouse_press(MouseButton::Left, 0, 0);
    release(&mut state, MouseButton::Left, 3, 3);
    state.on_mouse_press(MouseButton::Left, 0, 0);
    release(&mut state, MouseButton::Left, 4, 4);
    state.on_key_press(Key::Ctrl);
    state.on_key_press(Key::Char('z'));
    state.on_key_release(Key::Ctrl);
    assert_eq!(state.canvas_set.active_frame().shapes.len(), 1);
    state.on_key_press(Key::Char('e'));
    assert_eq!(state.canvas_set.active_frame().shapes.len(), 0);
}

#[test]
fn highlight_tool_toggle_and_modifier_tool() {
    let mut state = create_test_input_state();
    assert!(!state.highlight_tool_active());
    state.modifiers.shift = true;
    assert_eq!(state.active_tool(), wayscriber::input::tool::Tool::Line);
    assert!(state.toggle_highlight_tool());
    assert!(state.highlight_tool_active());
    assert_eq!(state.active_tool(), wayscriber::input::tool::Tool::Highlight);
    assert!(!state.toggle_highlight_tool());
    assert_eq!(state.active_tool(), wayscriber::input::tool::Tool::Line);
}

#[test]
fn dirty_regions_follow_the_preview() {
    let mut state = create_test_input_state();
    state.update_screen_dimensions(100, 50);
    // the first frame repaints everything
    state.mark_full_redraw();
    let full = state.take_dirty_regions();
    assert_eq!(full.len(), 1);
    assert_eq!((full[0].width, full[0].height), (100, 50));

    let a = wayscriber::draw::rect::Rect::new(0, 0, 10, 10);
    let b = wayscriber::draw::rect::Rect::new(5, 5, 10, 10);
    state.update_provisional_dirty(a);
    state.update_provisional_dirty(b);
    let regions = state.take_dirty_regions();
    assert_eq!(regions, vec![a.unwrap(), a.unwrap(), b.unwrap()]);
    state.clear_provisional_dirty();
    assert_eq!(state.take_dirty_regions(), vec![b.unwrap()]);
}

#[test]
fn starting_on_a_board_takes_its_pen() {
    let mut state = create_test_input_state();
    state.start_on_board(BoardMode::Blackboard);
    assert_eq!(state.board_mode(), BoardMode::Blackboard);
    assert_eq!(state.current_color, WHITE);
    assert!(state.board_previous_color.is_none());
}

#[test]
fn state_capture_action_sets_pending_and_clears_modifiers() {
    let mut state = create_test_input_state();
    state.modifiers.ctrl = true;
    state.modifiers.shift = true;
    state.modifiers.alt = true;

    state.handle_action(Action::CaptureClipboardFull);

    assert!(!state.modifiers.ctrl);
    assert!(!state.modifiers.shift);
    assert!(!state.modifiers.alt);

    let pending = state.take_pending_capture_action();
    assert_eq!(pending, Some(Action::CaptureClipboardFull));
    assert!(state.take_pending_capture_action().is_none());
}

#[test]
fn tests_capture_action_sets_pending_and_clears_modifiers() {
    let mut state = create_test_input_state();
    state.modifiers.ctrl = true;
    state.modifiers.shift = true;
    state.modifiers.alt = true;

    state.handle_action(Action::CaptureClipboardFull);

    assert!(!state.modifiers.ctrl);
    assert!(!state.modifiers.shift);
    assert!(!state.modifiers.alt);

    assert_eq!(state.take_pending_capture_action(), Some(Action::CaptureClipboardFull));
    assert!(state.take_pending_capture_action().is_none());
}

#[test]
fn capture_shortcut_from_keyboard_waits_for_backend() {
    let mut state = create_test_input_state();
    state.on_key_press(Key::Ctrl);
    state.on_key_press(Key::Shift);
    let effect = state.on_key_press(Key::Char('P'));
    assert_eq!(effect, InputEffect::Nothing);
    assert!(!state.modifiers.ctrl);
    assert!(!state.modifiers.shift);
    assert_eq!(state.take_pending_capture_action(), Some(Action::CaptureFullScreen));
}

#[test]
fn status_bar_and_configurator_keys() {
    let mut state = create_test_input_state();
    let shown = state.show_status_bar;
    assert_eq!(state.on_key_press(Key::F12), InputEffect::Nothing);
    assert_eq!(state.show_status_bar, !shown);
    assert!(state.needs_redraw);
    assert_eq!(state.on_key_press(Key::F11), InputEffect::LaunchConfigurator);
    assert_eq!(state.handle_action(Action::OpenConfigurator), InputEffect::LaunchConfigurator);
    assert!(state.take_pending_capture_action().is_none());
}

#[test]
fn release_places_shapes_under_the_limit() {
    let mut state = InputState::with_defaults(
        RED,
        true,
        board_config(),
        pens(),
        KeybindingsConfig::default().build_action_map().unwrap(),
        1,
        ClickHighlightState::new(false, 54, 750_000_000),
    );
    state.take_dirty_regions();
    state.modifiers.ctrl = true;
    state.on_mouse_press(MouseButton::Left, 10, 20);
    assert!(state.release_in_range(4, 5));
    let placed = state.release_and_place(MouseButton::Left, 4, 5, |g| {
        (g, Some(Rect { x: 4, y: 5, width: 6, height: 15 }))
    });
    assert_eq!(placed, Some(true));
    assert_eq!(state.canvas_set.active_frame().shapes.len(), 1);

    state.on_mouse_press(MouseButton::Left, 0, 0);
    assert_eq!(state.release_and_place(MouseButton::Left, 3, 3, |g| (g, None)), Some(false));
    assert_eq!(state.canvas_set.active_frame().shapes.len(), 1);
    assert_eq!(state.release_and_place(MouseButton::Right, 3, 3, |g| (g, None)), None);
}

#[test]
fn range_checks_follow_the_shape_arithmetic() {
    let mut state = create_test_input_state();
    assert!(state.release_in_range(i32::MAX, i32::MIN));
    state.modifiers.tab = true;
    state.on_mouse_press(MouseButton::Left, -10, 0);
    assert!(!state.release_in_range(i32::MAX, 0));
    assert!(state.release_in_range(5, 0));
    assert!(state.highlight_in_range(0, 0));
    assert!(!state.highlight_in_range(i32::MIN, 0));
}
