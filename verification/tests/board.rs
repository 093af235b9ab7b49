use wayscriber::backend::event_loop::{can_render, initial_board, InitialBoard, RenderFailures, MAX_RENDER_FAILURES};
use wayscriber::input::board_mode::{BoardMode, BoardSettings};

#[derive(Debug, Clone, Copy, PartialEq)]
struct Color {
    r: f64,
    g: f64,
    b: f64,
    a: f64,
}

/// The board part of the default configuration.
fn default_board_config() -> BoardSettings<Color> {
    BoardSettings {
        enabled: true,
        auto_adjust_pen: true,
        whiteboard_color: Color { r: 0.992, g: 0.992, b: 0.992, a: 1.0 },
        blackboard_color: Color { r: 0.067, g: 0.067, b: 0.067, a: 1.0 },
        whiteboard_pen_color: Color { r: 0.0, g: 0.0, b: 0.0, a: 1.0 },
        blackboard_pen_color: Color { r: 1.0, g: 1.0, b: 1.0, a: 1.0 },
    }
}

#[test]
fn test_background_color() {
    let config = default_board_config();
    assert_eq!(BoardMode::Transparent.background_color(&config), None);
    assert!(BoardMode::Whiteboard.background_color(&config).is_some());
    assert!(BoardMode::Blackboard.background_color(&config).is_some());

    let white_bg = BoardMode::Whiteboard.background_color(&config).unwrap();
    assert!((white_bg.r - 0.992).abs() < 0.001);
    assert_eq!(white_bg.a, 1.0);

    let black_bg = BoardMode::Blackboard.background_color(&config).unwrap();
    assert!((black_bg.r - 0.067).abs() < 0.001);
    assert_eq!(black_bg.a, 1.0);
}

#[test]
fn test_default_pen_color() {
    let config = default_board_config();
    assert_eq!(BoardMode::Transparent.default_pen_color(&config), None);
    assert!(BoardMode::Whiteboard.default_pen_color(&config).is_some());
    assert!(BoardMode::Blackboard.default_pen_color(&config).is_some());

    let white_pen = BoardMode::Whiteboard.default_pen_color(&config).unwrap();
    assert_eq!(white_pen.r, 0.0);
    assert_eq!(white_pen.g, 0.0);
    assert_eq!(white_pen.b, 0.0);

    let black_pen = BoardMode::Blackboard.default_pen_color(&config).unwrap();
    assert_eq!(black_pen.r, 1.0);
    assert_eq!(black_pen.g, 1.0);
    assert_eq!(black_pen.b, 1.0);
}

#[test]
fn initial_board_follows_request_then_default() {
    assert_eq!(initial_board(true, None, "transparent"), InitialBoard::Transparent);
    assert_eq!(initial_board(true, Some("Whiteboard"), "transparent"), InitialBoard::Board(BoardMode::Whiteboard));
    assert_eq!(initial_board(true, None, "blackboard"), InitialBoard::Board(BoardMode::Blackboard));
    assert_eq!(initial_board(true, Some("chalk"), "blackboard"), InitialBoard::InvalidMode);
    assert_eq!(initial_board(true, Some(""), "blackboard"), InitialBoard::Transparent);
    assert_eq!(initial_board(false, Some("whiteboard"), "blackboard"), InitialBoard::BoardsDisabled);
    assert_eq!(initial_board(false, None, "blackboard"), InitialBoard::Transparent);
}

#[test]
fn render_gating_and_failure_limit() {
    assert!(can_render(true, true, false, true));
    assert!(can_render(true, true, true, false));
    assert!(!can_render(true, true, true, true));
    assert!(!can_render(false, true, false, false));
    assert!(!can_render(true, false, false, false));

    let mut failures = RenderFailures::new();
    for _ in 0..MAX_RENDER_FAILURES - 1 {
        assert!(!failures.record_failure());
    }
    failures.record_success();
    assert_eq!(failures.consecutive(), 0);
    for _ in 0..MAX_RENDER_FAILURES - 1 {
        assert!(!failures.record_failure());
    }
    assert!(failures.record_failure());
    assert_eq!(failures.consecutive(), 10);
}
