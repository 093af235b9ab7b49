use wayscriber::draw::bounds::{
    bounding_box_for_ellipse, bounding_box_for_line, bounding_box_for_points, bounding_box_for_rect,
    ensure_positive_rect,
};
use wayscriber::draw::dirty::DirtyTracker;
use wayscriber::draw::font::FontDescriptor;
use wayscriber::draw::geometry::{drag_shape, ellipse_bounds, normalize_span, ShapeGeometry};
use wayscriber::draw::rect::Rect;
use wayscriber::input::tool::Tool;
use wayscriber::draw::geometry::stroke_bounds;

/// The padding of a stroke `thick` pixels wide: half of it, rounded up, at least one.
fn stroke_padding(thick: f64) -> i32 {
    let padding = (thick / 2.0).ceil() as i32;
    padding.max(1)
}

#[test]
fn mark_shape_records_rectangles() {
    let mut tracker = DirtyTracker::new();
    tracker.mark_shape_bounds(bounding_box_for_line(0, 0, 10, 10, stroke_padding(2.0)));
    let rects = tracker.take_regions(100, 100);
    assert_eq!(rects.len(), 1);
    assert!(rects[0].width > 0);
    assert!(rects[0].height > 0);
}

#[test]
fn mark_full_takes_precedence() {
    let mut tracker = DirtyTracker::new();
    tracker.mark_shape_bounds(bounding_box_for_rect(5, 5, 10, 10, stroke_padding(2.0)));
    tracker.mark_full();
    tracker.mark_shape_bounds(bounding_box_for_rect(20, 20, 15, 15, stroke_padding(2.0)));
    let rects = tracker.take_regions(200, 100);
    assert_eq!(rects.len(), 1);
    assert_eq!(rects[0], Rect::new(0, 0, 200, 100).unwrap());
}

#[test]
fn dirty_tracker_drops_invalid_and_drains() {
    let mut tracker = DirtyTracker::new();
    tracker.mark_rect(Rect { x: 0, y: 0, width: 0, height: 5 });
    tracker.mark_optional_rect(None);
    tracker.mark_optional_rect(Rect::new(1, 2, 3, 4));
    tracker.mark_shape_bounds(None);
    assert!(tracker.is_full());
    assert!(tracker.take_regions(0, 10).is_empty());
    assert!(!tracker.is_full());
    tracker.mark_rect(Rect { x: 1, y: 1, width: 2, height: 2 });
    assert_eq!(tracker.take_regions(50, 50), vec![Rect { x: 1, y: 1, width: 2, height: 2 }]);
    assert!(tracker.take_regions(50, 50).is_empty());
}

#[test]
fn freehand_bounding_box_expands_with_thickness() {
    let rect = bounding_box_for_points(&[(10, 20), (30, 40)], stroke_padding(6.0)).expect("freehand should have bounds");
    assert_eq!(rect.x, 7);
    assert_eq!(rect.y, 17);
    assert_eq!(rect.width, 26);
    assert_eq!(rect.height, 26);
    assert_eq!(bounding_box_for_points(&[], 3), None);
}

#[test]
fn line_bounding_box_covers_stroke() {
    let rect = bounding_box_for_line(50, 40, 70, 90, stroke_padding(4.0)).expect("line should have bounds");
    assert_eq!(rect.x, 48);
    assert_eq!(rect.y, 38);
    assert_eq!(rect.width, 24);
    assert_eq!(rect.height, 54);
}

#[test]
fn ellipse_bounding_box_handles_radii_and_stroke() {
    let rect = bounding_box_for_ellipse(200, 150, 40, 20, stroke_padding(2.0)).expect("ellipse should have bounds");
    assert_eq!(rect.x, 159);
    assert_eq!(rect.y, 129);
    assert_eq!(rect.width, 82);
    assert_eq!(rect.height, 42);
}

#[test]
fn degenerate_boxes_get_one_pixel() {
    assert_eq!(ensure_positive_rect(5, 5, 5, 5), Some(Rect { x: 5, y: 5, width: 1, height: 1 }));
    assert_eq!(ensure_positive_rect(6, 5, 5, 9), None);
    assert_eq!(bounding_box_for_rect(10, 10, -4, 2, 0), Some(Rect { x: 6, y: 10, width: 4, height: 2 }));
}

#[test]
fn drag_geometry_normalizes() {
    assert_eq!(normalize_span(10, 4), (4, 6));
    assert_eq!(normalize_span(4, 10), (4, 6));
    assert_eq!(ellipse_bounds(0, 0, 10, 20), (5, 10, 5, 10));
    assert_eq!(ellipse_bounds(-3, 0, 8, -9), (2, -4, 5, 4));
    assert_eq!(drag_shape(Tool::Highlight, 0, 0, vec![], 5, 5), None);
    assert_eq!(
        drag_shape(Tool::Arrow, 1, 2, vec![], 3, 4),
        Some(ShapeGeometry::Arrow { x1: 1, y1: 2, x2: 3, y2: 4 })
    );
}

#[test]
fn test_pango_string_default() {
    let font = FontDescriptor::default();
    assert_eq!(font.to_pango_string(32.0f64.round() as i32), "Sans Bold 32");
}

#[test]
fn test_pango_string_italic() {
    let font = FontDescriptor::new("Monospace".to_string(), "normal".to_string(), "italic".to_string());
    assert_eq!(font.to_pango_string(24.0f64.round() as i32), "Monospace Italic 24");
}

#[test]
fn test_pango_string_custom() {
    let font = FontDescriptor::new("JetBrains Mono".to_string(), "light".to_string(), "normal".to_string());
    assert_eq!(font.to_pango_string(16.0f64.round() as i32), "JetBrains Mono Light 16");
}

#[test]
fn pango_string_capitalizes_and_skips_normal_in_any_case() {
    let font = FontDescriptor::new("Serif".to_string(), "NORMAL".to_string(), "oblique".to_string());
    assert_eq!(font.to_pango_string(-3), "Serif Oblique -3");
    let font = FontDescriptor::new("Serif".to_string(), "éclat".to_string(), "Normal".to_string());
    assert_eq!(font.to_pango_string(10), "Serif Éclat 10");
    let font = FontDescriptor::new(String::new(), String::new(), String::new());
    assert_eq!(font.to_pango_string(0), "   0");
}

#[test]
fn stroke_bounds_of_geometries() {
    let free = ShapeGeometry::Freehand { points: vec![(10, 20), (30, 40)] };
    assert_eq!(stroke_bounds(&free, 3), Some(Rect { x: 7, y: 17, width: 26, height: 26 }));
    let line = ShapeGeometry::Line { x1: 50, y1: 40, x2: 70, y2: 90 };
    assert_eq!(stroke_bounds(&line, 2), Some(Rect { x: 48, y: 38, width: 24, height: 54 }));
    let rect = ShapeGeometry::Rect { x: 5, y: 5, w: 10, h: 10 };
    assert_eq!(stroke_bounds(&rect, 1), Some(Rect { x: 4, y: 4, width: 12, height: 12 }));
    let ellipse = ShapeGeometry::Ellipse { cx: 200, cy: 150, rx: 40, ry: 20 };
    assert_eq!(stroke_bounds(&ellipse, 1), Some(Rect { x: 159, y: 129, width: 82, height: 42 }));
    assert_eq!(stroke_bounds(&ShapeGeometry::Freehand { points: vec![] }, 1), None);
}
