use wayscriber::input::board_mode::BoardMode;

#[test]
fn test_default_mode_is_transparent() {
    assert_eq!(BoardMode::default(), BoardMode::Transparent);
}

#[test]
fn test_from_str() {
    assert_eq!(
        BoardMode::from_str("transparent"),
        Some(BoardMode::Transparent)
    );
    assert_eq!(
        BoardMode::from_str("Whiteboard"),
        Some(BoardMode::Whiteboard)
    );
    assert_eq!(
        BoardMode::from_str("BLACKBOARD"),
        Some(BoardMode::Blackboard)
    );
    assert_eq!(BoardMode::from_str("invalid"), None);
}

#[test]
fn from_str_kelvin_sign_lowercases_to_k() {
    assert_eq!(
        BoardMode::from_str("BLAC\u{212A}BOARD"),
        Some(BoardMode::Blackboard)
    );
    assert_eq!(BoardMode::from_str(" whiteboard"), None);
}
