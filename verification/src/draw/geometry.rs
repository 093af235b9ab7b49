//! Shape geometry from a mouse drag: where a shape lies, before it gets a
//! color and a stroke width.
use vstd::prelude::*;

use crate::draw::bounds::{
    bounding_box_for_ellipse, bounding_box_for_line, bounding_box_for_points, bounding_box_for_rect, pad_fits,
    points_box, positive_rect, segment_box,
};
use crate::draw::rect::Rect;
use crate::input::tool::Tool;

verus! {

/// The placement of a shape drawn with a tool.
#[derive(Debug, Clone, PartialEq, Eq)]
pub enum ShapeGeometry {
    /// Freehand stroke through the points, in order.
    Freehand { points: Vec<(i32, i32)> },
    /// Straight line from `(x1, y1)` to `(x2, y2)`.
    Line { x1: i32, y1: i32, x2: i32, y2: i32 },
    /// Rectangle with top-left corner `(x, y)` and size `w × h`.
    Rect { x: i32, y: i32, w: i32, h: i32 },
    /// Ellipse centred at `(cx, cy)` with radii `rx`, `ry`.
    Ellipse { cx: i32, cy: i32, rx: i32, ry: i32 },
    /// Arrow between `(x1, y1)` and `(x2, y2)`; the head is drawn at `(x1, y1)`, where the drag started.
    Arrow { x1: i32, y1: i32, x2: i32, y2: i32 },
}

/// A shape placement with its stroke points as a sequence.
pub enum GeometryView {
    Freehand { points: Seq<(i32, i32)> },
    Line { x1: i32, y1: i32, x2: i32, y2: i32 },
    Rect { x: i32, y: i32, w: i32, h: i32 },
    Ellipse { cx: i32, cy: i32, rx: i32, ry: i32 },
    Arrow { x1: i32, y1: i32, x2: i32, y2: i32 },
}

impl View for ShapeGeometry {
    type V = GeometryView;

    open spec fn view(&self) -> GeometryView {
        match *self {
            ShapeGeometry::Freehand { points } => GeometryView::Freehand { points: points@ },
            ShapeGeometry::Line { x1, y1, x2, y2 } => GeometryView::Line { x1, y1, x2, y2 },
            ShapeGeometry::Rect { x, y, w, h } => GeometryView::Rect { x, y, w, h },
            ShapeGeometry::Ellipse { cx, cy, rx, ry } => GeometryView::Ellipse { cx, cy, rx, ry },
            ShapeGeometry::Arrow { x1, y1, x2, y2 } => GeometryView::Arrow { x1, y1, x2, y2 },
        }
    }
}

pub open spec fn geometry_opt_view(g: Option<ShapeGeometry>) -> Option<GeometryView> {
    match g {
        Some(s) => Some(s@),
        None => None,
    }
}

pub open spec fn abs_int(v: int) -> int {
    if v < 0 {
        -v
    } else {
        v
    }
}

/// Integer halving that rounds toward zero, as `/ 2` does on `i32`.
pub open spec fn half_toward_zero(v: int) -> int {
    if v >= 0 {
        v / 2
    } else {
        -((-v) / 2)
    }
}

/// The distance from `a` to `b` fits an `i32`.
pub open spec fn span_fits(a: i32, b: i32) -> bool {
    abs_int(b - a) <= i32::MAX
}

/// The sum of `a` and `b` fits an `i32`.
pub open spec fn sum_fits(a: i32, b: i32) -> bool {
    i32::MIN <= a + b <= i32::MAX
}

/// The start and length of the span between `start` and `cur`, in either order.
pub open spec fn span_spec(start: i32, cur: i32) -> (int, int) {
    if cur >= start {
        (start as int, cur - start)
    } else {
        (cur as int, start - cur)
    }
}

/// The ellipse inscribed in the box with corners `(x1, y1)` and `(x2, y2)`:
/// its centre and radii.
pub open spec fn ellipse_spec(x1: i32, y1: i32, x2: i32, y2: i32) -> (int, int, int, int) {
    (
        half_toward_zero(x1 + x2),
        half_toward_zero(y1 + y2),
        abs_int(x2 - x1) / 2,
        abs_int(y2 - y1) / 2,
    )
}

/// The ellipse of the box with corners `(x1, y1)` and `(x2, y2)` can be computed in `i32`.
pub open spec fn ellipse_fits(x1: i32, y1: i32, x2: i32, y2: i32) -> bool {
    &&& sum_fits(x1, x2)
    &&& sum_fits(y1, y2)
    &&& span_fits(x1, x2)
    &&& span_fits(y1, y2)
}

/// The start and the length of the span between `start` and `cur`, in either order.
pub fn normalize_span(start: i32, cur: i32) -> (r: (i32, i32))
    requires
        span_fits(start, cur),
    ensures
        r.0 as int == span_spec(start, cur).0,
        r.1 as int == span_spec(start, cur).1,
        r.1 >= 0,
{
    if cur >= start {
        (start, cur - start)
    } else {
        (cur, start - cur)
    }
}

fn half_i64(v: i64) -> (r: i64)
    ensures
        r as int == half_toward_zero(v as int),
{
    if v >= 0 {
        v / 2
    } else {
        let m: i128 = 0i128 - v as i128;
        (0i128 - m / 2) as i64
    }
}

/// The centre and radii of the ellipse inscribed in the box with corners
/// `(x1, y1)` and `(x2, y2)`.
pub fn ellipse_bounds(x1: i32, y1: i32, x2: i32, y2: i32) -> (r: (i32, i32, i32, i32))
    requires
        ellipse_fits(x1, y1, x2, y2),
    ensures
        r.0 as int == ellipse_spec(x1, y1, x2, y2).0,
        r.1 as int == ellipse_spec(x1, y1, x2, y2).1,
        r.2 as int == ellipse_spec(x1, y1, x2, y2).2,
        r.3 as int == ellipse_spec(x1, y1, x2, y2).3,
{
    let cx = half_i64(x1 as i64 + x2 as i64);
    let cy = half_i64(y1 as i64 + y2 as i64);
    let dx: i64 = x2 as i64 - x1 as i64;
    let dy: i64 = y2 as i64 - y1 as i64;
    let ax: i64 = if dx < 0 { 0 - dx } else { dx };
    let ay: i64 = if dy < 0 { 0 - dy } else { dy };
    (cx as i32, cy as i32, (ax / 2) as i32, (ay / 2) as i32)
}

/// The integer arithmetic that shaping a drag with `tool` does stays within `i32`.
pub open spec fn drag_fits(tool: Tool, start_x: i32, start_y: i32, x: i32, y: i32) -> bool {
    match tool {
        Tool::Rect => span_fits(start_x, x) && span_fits(start_y, y),
        Tool::Ellipse => ellipse_fits(start_x, start_y, x, y),
        _ => true,
    }
}

/// Whether a drag with `tool` from `(start_x, start_y)` to `(x, y)` can be
/// shaped within the `i32` range.
pub fn drag_in_range(tool: Tool, start_x: i32, start_y: i32, x: i32, y: i32) -> (b: bool)
    ensures
        b == drag_fits(tool, start_x, start_y, x, y),
{
    let (sx, sy, ex, ey) = (start_x as i64, start_y as i64, x as i64, y as i64);
    let dx = if ex >= sx { ex - sx } else { sx - ex };
    let dy = if ey >= sy { ey - sy } else { sy - ey };
    let spans = dx <= i32::MAX as i64 && dy <= i32::MAX as i64;
    let sums = i32::MIN as i64 <= ex + sx && ex + sx <= i32::MAX as i64 && i32::MIN as i64 <= ey + sy
        && ey + sy <= i32::MAX as i64;
    match tool {
        Tool::Rect => spans,
        Tool::Ellipse => spans && sums,
        _ => true,
    }
}

/// The shape a drag with `tool` from `(start_x, start_y)` to `(x, y)` makes;
/// `points` is the freehand path. The highlight tool draws no shape.
pub open spec fn drag_geometry(
    tool: Tool,
    start_x: i32,
    start_y: i32,
    points: Seq<(i32, i32)>,
    x: i32,
    y: i32,
) -> Option<GeometryView> {
    match tool {
        Tool::Pen => Some(GeometryView::Freehand { points }),
        Tool::Line => Some(GeometryView::Line { x1: start_x, y1: start_y, x2: x, y2: y }),
        Tool::Rect => Some(
            GeometryView::Rect {
                x: span_spec(start_x, x).0 as i32,
                y: span_spec(start_y, y).0 as i32,
                w: span_spec(start_x, x).1 as i32,
                h: span_spec(start_y, y).1 as i32,
            },
        ),
        Tool::Ellipse => Some(
            GeometryView::Ellipse {
                cx: ellipse_spec(start_x, start_y, x, y).0 as i32,
                cy: ellipse_spec(start_x, start_y, x, y).1 as i32,
                rx: ellipse_spec(start_x, start_y, x, y).2 as i32,
                ry: ellipse_spec(start_x, start_y, x, y).3 as i32,
            },
        ),
        Tool::Arrow => Some(GeometryView::Arrow { x1: start_x, y1: start_y, x2: x, y2: y }),
        Tool::Highlight => None,
    }
}

/// Law: a rectangle drag gives the rectangle with the drag's start and end
/// as opposite corners, whichever way the drag went; an ellipse drag gives
/// the ellipse centred in that box (halves rounded toward zero) with radii
/// half its sides (rounded down). Lines and arrows keep the drag's ends; the
/// pen keeps its path; the highlight tool draws nothing.
pub proof fn law_drag_shapes_span_the_drag(start_x: i32, start_y: i32, points: Seq<(i32, i32)>, x: i32, y: i32)
    requires
        span_fits(start_x, x),
        span_fits(start_y, y),
    ensures
        drag_geometry(Tool::Rect, start_x, start_y, points, x, y) matches Some(GeometryView::Rect { x: rx, y: ry, w, h })
            && w >= 0 && h >= 0 && (rx == start_x && rx + w == x || rx == x && rx + w == start_x) && (ry == start_y
            && ry + h == y || ry == y && ry + h == start_y),
        sum_fits(start_x, x) && sum_fits(start_y, y) ==> (drag_geometry(Tool::Ellipse, start_x, start_y, points, x, y) matches Some(
            GeometryView::Ellipse { cx, cy, rx, ry },
        ) && 2 * rx <= abs_int(x - start_x) <= 2 * rx + 1 && 2 * ry <= abs_int(y - start_y) <= 2 * ry + 1 && abs_int(
            2 * cx - (start_x + x),
        ) <= 1 && abs_int(2 * cy - (start_y + y)) <= 1),
        drag_geometry(Tool::Line, start_x, start_y, points, x, y) == Some(
            GeometryView::Line { x1: start_x, y1: start_y, x2: x, y2: y },
        ),
        drag_geometry(Tool::Arrow, start_x, start_y, points, x, y) == Some(
            GeometryView::Arrow { x1: start_x, y1: start_y, x2: x, y2: y },
        ),
        drag_geometry(Tool::Pen, start_x, start_y, points, x, y) == Some(GeometryView::Freehand { points }),
        drag_geometry(Tool::Highlight, start_x, start_y, points, x, y) is None,
{
}

/// Every coordinate the bounds of `g` grown by `padding` use stays within `i32`.
pub open spec fn geometry_pad_fits(g: GeometryView, padding: int) -> bool {
    match g {
        GeometryView::Freehand { points } => forall|i: int|
            0 <= i < points.len() ==> pad_fits((#[trigger] points[i]).0 as int, padding) && pad_fits(
                points[i].1 as int,
                padding,
            ),
        GeometryView::Line { x1, y1, x2, y2 } => pad_fits(x1 as int, padding) && pad_fits(y1 as int, padding)
            && pad_fits(x2 as int, padding) && pad_fits(y2 as int, padding),
        GeometryView::Rect { x, y, w, h } => pad_fits(x as int, padding) && pad_fits(y as int, padding)
            && pad_fits(x + w, padding) && pad_fits(y + h, padding),
        GeometryView::Ellipse { cx, cy, rx, ry } => pad_fits(cx - rx, padding) && pad_fits(cx + rx, padding)
            && pad_fits(cy - ry, padding) && pad_fits(cy + ry, padding),
        GeometryView::Arrow { .. } => true,
    }
}

/// The area a stroked shape covers: its outline grown by the stroke's `padding`.
pub open spec fn stroke_bounds_spec(g: GeometryView, padding: int) -> Option<Rect> {
    match g {
        GeometryView::Freehand { points } => points_box(points, padding),
        GeometryView::Line { x1, y1, x2, y2 } => segment_box(x1 as int, y1 as int, x2 as int, y2 as int, padding),
        GeometryView::Rect { x, y, w, h } => segment_box(x as int, y as int, x + w, y + h, padding),
        GeometryView::Ellipse { cx, cy, rx, ry } => positive_rect(
            cx - rx - padding,
            cy - ry - padding,
            cx + rx + padding,
            cy + ry + padding,
        ),
        GeometryView::Arrow { .. } => None,
    }
}

/// Law: an ellipse's area is the box around it, grown by the padding on
/// each side: from `cx - rx - padding` to `cx + rx + padding` across and
/// from `cy - ry - padding` to `cy + ry + padding` down (one pixel across a
/// flat axis with no padding), and it has one whenever that box fits.
pub proof fn law_ellipse_area_is_its_box(cx: i32, cy: i32, rx: i32, ry: i32, padding: int)
    requires
        rx >= 0,
        ry >= 0,
        padding >= 0,
        i32::MIN <= cx - rx - padding,
        i32::MIN <= cy - ry - padding,
    ensures
        stroke_bounds_spec(GeometryView::Ellipse { cx, cy, rx, ry }, padding) matches Some(r) ==> {
            &&& r.x == cx - rx - padding
            &&& r.y == cy - ry - padding
            &&& r.x + r.width == cx + rx + padding || (rx == 0 && padding == 0 && r.width == 1)
            &&& r.y + r.height == cy + ry + padding || (ry == 0 && padding == 0 && r.height == 1)
        },
        2 * rx + 2 * padding < i32::MAX && 2 * ry + 2 * padding < i32::MAX ==> stroke_bounds_spec(
            GeometryView::Ellipse { cx, cy, rx, ry },
            padding,
        ) is Some,
{
}

/// The area a stroked shape covers, grown by the stroke's `padding` (an
/// arrow's head is measured by the caller).
pub fn stroke_bounds(g: &ShapeGeometry, padding: i32) -> (r: Option<Rect>)
    requires
        padding >= 0,
        !(g@ is Arrow),
        geometry_pad_fits(g@, padding as int),
    ensures
        r == stroke_bounds_spec(g@, padding as int),
{
    match g {
        ShapeGeometry::Freehand { points } => bounding_box_for_points(points.as_slice(), padding),
        ShapeGeometry::Line { x1, y1, x2, y2 } => bounding_box_for_line(*x1, *y1, *x2, *y2, padding),
        ShapeGeometry::Rect { x, y, w, h } => bounding_box_for_rect(*x, *y, *w, *h, padding),
        ShapeGeometry::Ellipse { cx, cy, rx, ry } => bounding_box_for_ellipse(*cx, *cy, *rx, *ry, padding),
        ShapeGeometry::Arrow { .. } => None,
    }
}

/// A copy of a point list.
pub fn copy_points(points: &Vec<(i32, i32)>) -> (r: Vec<(i32, i32)>)
    ensures
        r@ == points@,
{
    let mut out: Vec<(i32, i32)> = Vec::new();
    let mut i: usize = 0;
    while i < points.len()
        invariant
            i <= points.len(),
            out@ == points@.take(i as int),
        decreases points.len() - i,
    {
        out.push(points[i]);
        proof {
            assert(points@.take(i as int + 1) =~= points@.take(i as int).push(points@[i as int]));
        }
        i += 1;
    }
    proof {
        assert(points@.take(points.len() as int) =~= points@);
    }
    out
}

/// The shape a drag with `tool` from `(start_x, start_y)` to `(x, y)` makes,
/// `points` being the freehand path: rectangles are normalized so that the
/// drag may go in any direction, ellipses fill the dragged box.
pub fn drag_shape(
    tool: Tool,
    start_x: i32,
    start_y: i32,
    points: Vec<(i32, i32)>,
    x: i32,
    y: i32,
) -> (r: Option<ShapeGeometry>)
    requires
        drag_fits(tool, start_x, start_y, x, y),
    ensures
        geometry_opt_view(r) == drag_geometry(tool, start_x, start_y, points@, x, y),
{
    match tool {
        Tool::Pen => Some(ShapeGeometry::Freehand { points }),
        Tool::Line => Some(ShapeGeometry::Line { x1: start_x, y1: start_y, x2: x, y2: y }),
        Tool::Rect => {
            let (rx, w) = normalize_span(start_x, x);
            let (ry, h) = normalize_span(start_y, y);
            Some(ShapeGeometry::Rect { x: rx, y: ry, w, h })
        },
        Tool::Ellipse => {
            let (cx, cy, rx, ry) = ellipse_bounds(start_x, start_y, x, y);
            Some(ShapeGeometry::Ellipse { cx, cy, rx, ry })
        },
        Tool::Arrow => Some(ShapeGeometry::Arrow { x1: start_x, y1: start_y, x2: x, y2: y }),
        Tool::Highlight => None,
    }
}

} // verus!
