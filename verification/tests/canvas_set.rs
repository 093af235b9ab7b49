use wayscriber::draw::canvas_set::CanvasSet;
use wayscriber::draw::frame::Frame;
use wayscriber::input::board_mode::BoardMode;

#[derive(Debug, Clone, Copy, PartialEq)]
struct Color {
    r: f64,
    g: f64,
    b: f64,
    a: f64,
}

const RED: Color = Color { r: 1.0, g: 0.0, b: 0.0, a: 1.0 };
const BLACK: Color = Color { r: 0.0, g: 0.0, b: 0.0, a: 1.0 };

#[derive(Debug, Clone, PartialEq)]
enum Shape {
    Line { x1: i32, y1: i32, x2: i32, y2: i32, color: Color, thick: f64 },
    Rect { x: i32, y: i32, w: i32, h: i32, color: Color, thick: f64 },
}

#[test]
fn test_initial_mode_is_transparent() {
    let canvas_set: CanvasSet<Shape> = CanvasSet::new();
    assert_eq!(canvas_set.active_mode(), BoardMode::Transparent);
}

#[test]
fn test_frame_created_on_first_mutable_access() {
    let mut canvas_set: CanvasSet<Shape> = CanvasSet::new();
    canvas_set.switch_mode(BoardMode::Whiteboard);
    assert!(canvas_set.frame(BoardMode::Whiteboard).is_none());
    let frame = canvas_set.active_frame_mut();
    assert_eq!(frame.shapes.len(), 0);
    assert!(canvas_set.frame(BoardMode::Whiteboard).is_some());
}

#[test]
fn test_frame_isolation() {
    let mut canvas_set = CanvasSet::new();
    canvas_set.active_frame_mut().add_shape(Shape::Line { x1: 0, y1: 0, x2: 100, y2: 100, color: RED, thick: 3.0 });
    assert_eq!(canvas_set.active_frame().shapes.len(), 1);

    canvas_set.switch_mode(BoardMode::Whiteboard);
    assert_eq!(canvas_set.active_frame().shapes.len(), 0);

    canvas_set.active_frame_mut().add_shape(Shape::Rect { x: 10, y: 10, w: 50, h: 50, color: BLACK, thick: 2.0 });
    assert_eq!(canvas_set.active_frame().shapes.len(), 1);

    canvas_set.switch_mode(BoardMode::Transparent);
    assert_eq!(canvas_set.active_frame().shapes.len(), 1);

    canvas_set.switch_mode(BoardMode::Whiteboard);
    assert_eq!(canvas_set.active_frame().shapes.len(), 1);
}

#[test]
fn test_undo_isolation() {
    let mut canvas_set = CanvasSet::new();
    canvas_set.active_frame_mut().add_shape(Shape::Line { x1: 0, y1: 0, x2: 100, y2: 100, color: RED, thick: 3.0 });
    let _ = canvas_set.active_frame_mut().undo();
    assert_eq!(canvas_set.active_frame().shapes.len(), 0);

    canvas_set.switch_mode(BoardMode::Whiteboard);
    canvas_set.active_frame_mut().add_shape(Shape::Rect { x: 10, y: 10, w: 50, h: 50, color: BLACK, thick: 2.0 });

    let _ = canvas_set.active_frame_mut().undo();
    assert_eq!(canvas_set.active_frame().shapes.len(), 0);

    canvas_set.switch_mode(BoardMode::Transparent);
    assert_eq!(canvas_set.active_frame().shapes.len(), 0);
}

#[test]
fn test_clear_active() {
    let mut canvas_set = CanvasSet::new();
    canvas_set.active_frame_mut().add_shape(Shape::Line { x1: 0, y1: 0, x2: 100, y2: 100, color: RED, thick: 3.0 });

    canvas_set.switch_mode(BoardMode::Whiteboard);
    canvas_set.active_frame_mut().add_shape(Shape::Rect { x: 10, y: 10, w: 50, h: 50, color: BLACK, thick: 2.0 });

    canvas_set.clear_active();
    assert_eq!(canvas_set.active_frame().shapes.len(), 0);

    canvas_set.switch_mode(BoardMode::Transparent);
    assert_eq!(canvas_set.active_frame().shapes.len(), 1);
}

#[test]
fn test_immutable_access_to_nonexistent_frame() {
    let mut canvas_set: CanvasSet<Shape> = CanvasSet::new();
    canvas_set.switch_mode(BoardMode::Blackboard);
    assert_eq!(canvas_set.active_frame().shapes.len(), 0);
    assert!(canvas_set.frame(BoardMode::Blackboard).is_none());
}

#[test]
fn set_frame_replaces_a_board_frame() {
    let mut canvas_set = CanvasSet::new();
    let mut frame = Frame::new();
    frame.add_shape(Shape::Line { x1: 1, y1: 2, x2: 3, y2: 4, color: RED, thick: 1.0 });
    canvas_set.set_frame(BoardMode::Blackboard, Some(frame));
    canvas_set.switch_mode(BoardMode::Blackboard);
    assert_eq!(canvas_set.active_frame().shapes.len(), 1);
    canvas_set.set_frame(BoardMode::Transparent, None);
    assert_eq!(canvas_set.frame(BoardMode::Transparent).unwrap().shapes.len(), 0);
}

#[test]
fn try_add_shape_respects_limit() {
    let mut frame = Frame::new();
    assert!(frame.try_add_shape(
        Shape::Line { x1: 0, y1: 0, x2: 1, y2: 1, color: Color { r: 1.0, g: 0.0, b: 0.0, a: 1.0 }, thick: 2.0 },
        1
    ));
    assert!(!frame.try_add_shape(
        Shape::Line { x1: 1, y1: 1, x2: 2, y2: 2, color: Color { r: 0.0, g: 1.0, b: 0.0, a: 1.0 }, thick: 2.0 },
        1
    ));
}

#[test]
fn undo_returns_the_last_shape() {
    let mut frame = Frame::new();
    let line = Shape::Line { x1: 0, y1: 0, x2: 1, y2: 1, color: RED, thick: 2.0 };
    frame.add_shape(line.clone());
    assert_eq!(frame.undo(), Some(line));
    assert_eq!(frame.undo(), None);
    assert!(frame.try_add_shape(Shape::Rect { x: 0, y: 0, w: 1, h: 1, color: RED, thick: 1.0 }, 0));
    frame.clear();
    assert!(frame.shapes.is_empty());
}
