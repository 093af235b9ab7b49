//! Integer bounding boxes of shapes, expanded by a stroke padding.
//!
//! The padding for a stroke of a given thickness is computed by the caller;
//! these functions do the integer geometry.
use vstd::prelude::*;

use crate::draw::rect::{Rect, rect_from_min_max};

verus! {

pub open spec fn min_int(a: int, b: int) -> int {
    if a <= b {
        a
    } else {
        b
    }
}

pub open spec fn max_int(a: int, b: int) -> int {
    if a >= b {
        a
    } else {
        b
    }
}

/// The rectangle from `min` to `max`, widened by one pixel along an axis
/// where the extent is empty.
pub open spec fn positive_rect(min_x: int, min_y: int, max_x: int, max_y: int) -> Option<Rect> {
    let mx = if min_x == max_x {
        max_x + 1
    } else {
        max_x
    };
    let my = if min_y == max_y {
        max_y + 1
    } else {
        max_y
    };
    rect_from_min_max(min_x, min_y, mx, my)
}

/// Smallest x among the points.
pub open spec fn points_min_x(ps: Seq<(i32, i32)>) -> int
    decreases ps.len(),
{
    if ps.len() <= 1 {
        ps[0].0 as int
    } else {
        min_int(points_min_x(ps.drop_last()), ps.last().0 as int)
    }
}

/// Largest x among the points.
pub open spec fn points_max_x(ps: Seq<(i32, i32)>) -> int
    decreases ps.len(),
{
    if ps.len() <= 1 {
        ps[0].0 as int
    } else {
        max_int(points_max_x(ps.drop_last()), ps.last().0 as int)
    }
}

/// Smallest y among the points.
pub open spec fn points_min_y(ps: Seq<(i32, i32)>) -> int
    decreases ps.len(),
{
    if ps.len() <= 1 {
        ps[0].1 as int
    } else {
        min_int(points_min_y(ps.drop_last()), ps.last().1 as int)
    }
}

/// Largest y among the points.
pub open spec fn points_max_y(ps: Seq<(i32, i32)>) -> int
    decreases ps.len(),
{
    if ps.len() <= 1 {
        ps[0].1 as int
    } else {
        max_int(points_max_y(ps.drop_last()), ps.last().1 as int)
    }
}

/// `v` moved by `pad` either way stays an `i32`, with room for one more pixel.
pub open spec fn pad_fits(v: int, pad: int) -> bool {
    i32::MIN <= v - pad && v + pad < i32::MAX
}

/// The bounding box of a freehand stroke: the points' extent grown by `padding`.
pub open spec fn points_box(ps: Seq<(i32, i32)>, padding: int) -> Option<Rect> {
    if ps.len() == 0 {
        None
    } else {
        positive_rect(
            points_min_x(ps) - padding,
            points_min_y(ps) - padding,
            points_max_x(ps) + padding,
            points_max_y(ps) + padding,
        )
    }
}

/// The bounding box of the segment between two points grown by `padding`.
pub open spec fn segment_box(x1: int, y1: int, x2: int, y2: int, padding: int) -> Option<Rect> {
    positive_rect(
        min_int(x1, x2) - padding,
        min_int(y1, y2) - padding,
        max_int(x1, x2) + padding,
        max_int(y1, y2) + padding,
    )
}

/// The points' extent along x: every point lies within it and some
/// points lie on its ends.
proof fn lemma_extent_x(ps: Seq<(i32, i32)>)
    requires
        ps.len() > 0,
    ensures
        forall|i: int| 0 <= i < ps.len() ==> points_min_x(ps) <= (#[trigger] ps[i]).0 <= points_max_x(ps),
        exists|i: int| 0 <= i < ps.len() && (#[trigger] ps[i]).0 == points_min_x(ps),
        exists|i: int| 0 <= i < ps.len() && (#[trigger] ps[i]).0 == points_max_x(ps),
    decreases ps.len(),
{
    if ps.len() > 1 {
        let f = ps.drop_last();
        lemma_extent_x(f);
        assert forall|i: int| 0 <= i < ps.len() implies points_min_x(ps) <= (#[trigger] ps[i]).0 <= points_max_x(ps) by {
            if i < ps.len() - 1 {
                assert(ps[i] == f[i]);
            }
        }
        let a = choose|i: int| 0 <= i < f.len() && (#[trigger] f[i]).0 == points_min_x(f);
        let b = choose|i: int| 0 <= i < f.len() && (#[trigger] f[i]).0 == points_max_x(f);
        assert(ps[a] == f[a]);
        assert(ps[b] == f[b]);
        assert(ps[ps.len() - 1] == ps.last());
    } else {
        assert(ps[0].0 == points_min_x(ps));
    }
}

/// The points' extent along y: every point lies within it and some
/// points lie on its ends.
proof fn lemma_extent_y(ps: Seq<(i32, i32)>)
    requires
        ps.len() > 0,
    ensures
        forall|i: int| 0 <= i < ps.len() ==> points_min_y(ps) <= (#[trigger] ps[i]).1 <= points_max_y(ps),
        exists|i: int| 0 <= i < ps.len() && (#[trigger] ps[i]).1 == points_min_y(ps),
        exists|i: int| 0 <= i < ps.len() && (#[trigger] ps[i]).1 == points_max_y(ps),
    decreases ps.len(),
{
    if ps.len() > 1 {
        let f = ps.drop_last();
        lemma_extent_y(f);
        assert forall|i: int| 0 <= i < ps.len() implies points_min_y(ps) <= (#[trigger] ps[i]).1 <= points_max_y(ps) by {
            if i < ps.len() - 1 {
                assert(ps[i] == f[i]);
            }
        }
        let a = choose|i: int| 0 <= i < f.len() && (#[trigger] f[i]).1 == points_min_y(f);
        let b = choose|i: int| 0 <= i < f.len() && (#[trigger] f[i]).1 == points_max_y(f);
        assert(ps[a] == f[a]);
        assert(ps[b] == f[b]);
        assert(ps[ps.len() - 1] == ps.last());
    } else {
        assert(ps[0].1 == points_min_y(ps));
    }
}

/// Law: the box of a freehand stroke holds every point grown by the padding
/// on each side, and it is the smallest such box: its left and top edges
/// touch a grown point, and so do its right and bottom edges (unless all
/// points share that coordinate and there is no padding, when the box is one
/// pixel wide there). There is a box whenever the grown extent fits an `i32`.
pub proof fn law_points_box_is_tight(ps: Seq<(i32, i32)>, padding: int)
    requires
        ps.len() > 0,
        padding >= 0,
        forall|i: int| 0 <= i < ps.len() ==> pad_fits((#[trigger] ps[i]).0 as int, padding) && pad_fits(ps[i].1 as int, padding),
    ensures
        (forall|i: int, j: int| 0 <= i < ps.len() && 0 <= j < ps.len() ==> #[trigger] ps[j].0 - #[trigger] ps[i].0 + 2 * padding
            < i32::MAX && ps[j].1 - ps[i].1 + 2 * padding < i32::MAX) ==> points_box(ps, padding) is Some,
        points_box(ps, padding) matches Some(r) ==> {
            &&& forall|i: int| 0 <= i < ps.len() ==> r.x <= (#[trigger] ps[i]).0 - padding && ps[i].0 + padding <= r.x + r.width
            &&& forall|i: int| 0 <= i < ps.len() ==> r.y <= (#[trigger] ps[i]).1 - padding && ps[i].1 + padding <= r.y + r.height
            &&& exists|i: int| 0 <= i < ps.len() && r.x == (#[trigger] ps[i]).0 - padding
            &&& exists|i: int| 0 <= i < ps.len() && r.y == (#[trigger] ps[i]).1 - padding
            &&& (exists|i: int| 0 <= i < ps.len() && r.x + r.width == (#[trigger] ps[i]).0 + padding) || (r.width == 1
                && padding == 0 && forall|i: int| 0 <= i < ps.len() ==> (#[trigger] ps[i]).0 == r.x)
            &&& (exists|i: int| 0 <= i < ps.len() && r.y + r.height == (#[trigger] ps[i]).1 + padding) || (r.height == 1
                && padding == 0 && forall|i: int| 0 <= i < ps.len() ==> (#[trigger] ps[i]).1 == r.y)
        },
{
    lemma_extent_x(ps);
    lemma_extent_y(ps);
    let a = choose|i: int| 0 <= i < ps.len() && (#[trigger] ps[i]).0 == points_min_x(ps);
    let b = choose|i: int| 0 <= i < ps.len() && (#[trigger] ps[i]).0 == points_max_x(ps);
    let c = choose|i: int| 0 <= i < ps.len() && (#[trigger] ps[i]).1 == points_min_y(ps);
    let d = choose|i: int| 0 <= i < ps.len() && (#[trigger] ps[i]).1 == points_max_y(ps);
    assert(pad_fits(ps[a].0 as int, padding) && pad_fits(ps[b].0 as int, padding));
    assert(pad_fits(ps[c].1 as int, padding) && pad_fits(ps[d].1 as int, padding));
    if forall|i: int, j: int| 0 <= i < ps.len() && 0 <= j < ps.len() ==> #[trigger] ps[j].0 - #[trigger] ps[i].0 + 2
        * padding < i32::MAX && ps[j].1 - ps[i].1 + 2 * padding < i32::MAX {
        assert(ps[b].0 - ps[a].0 + 2 * padding < i32::MAX);
        assert(ps[d].1 - ps[c].1 + 2 * padding < i32::MAX);
    }
}

/// Law: the box of a segment (a line, or a rectangle by its opposite corners)
/// holds both ends grown by the padding, and its edges touch them: it is the
/// smallest such box, one pixel wide along an axis where both ends agree and
/// there is no padding.
pub proof fn law_segment_box_is_tight(x1: int, y1: int, x2: int, y2: int, padding: int)
    requires
        padding >= 0,
        pad_fits(x1, padding),
        pad_fits(x2, padding),
        pad_fits(y1, padding),
        pad_fits(y2, padding),
    ensures
        segment_box(x1, y1, x2, y2, padding) matches Some(r) ==> {
            &&& r.x <= x1 - padding && r.x <= x2 - padding
            &&& x1 + padding <= r.x + r.width && x2 + padding <= r.x + r.width
            &&& r.y <= y1 - padding && r.y <= y2 - padding
            &&& y1 + padding <= r.y + r.height && y2 + padding <= r.y + r.height
            &&& (r.x == x1 - padding || r.x == x2 - padding)
            &&& (r.y == y1 - padding || r.y == y2 - padding)
            &&& (r.x + r.width == x1 + padding || r.x + r.width == x2 + padding || (x1 == x2 && padding == 0
                && r.width == 1))
            &&& (r.y + r.height == y1 + padding || r.y + r.height == y2 + padding || (y1 == y2 && padding == 0
                && r.height == 1))
        },
        x2 - x1 + 2 * padding < i32::MAX && x1 - x2 + 2 * padding < i32::MAX && y2 - y1 + 2 * padding < i32::MAX
            && y1 - y2 + 2 * padding < i32::MAX && i32::MIN <= x1 - padding && i32::MIN <= x2 - padding
            && i32::MIN <= y1 - padding && i32::MIN <= y2 - padding ==> segment_box(x1, y1, x2, y2, padding) is Some,
{
}

/// Builds the rectangle from `min` to `max`, widening an empty axis by one pixel.
pub fn ensure_positive_rect(min_x: i32, min_y: i32, max_x: i32, max_y: i32) -> (r: Option<Rect>)
    requires
        min_x == max_x ==> max_x < i32::MAX,
        min_y == max_y ==> max_y < i32::MAX,
    ensures
        r == positive_rect(min_x as int, min_y as int, max_x as int, max_y as int),
{
    let (min_x, max_x) = if min_x == max_x {
        (min_x, max_x + 1)
    } else {
        (min_x, max_x)
    };
    let (min_y, max_y) = if min_y == max_y {
        (min_y, max_y + 1)
    } else {
        (min_y, max_y)
    };
    Rect::from_min_max(min_x, min_y, max_x, max_y)
}

/// Bounding box of a freehand stroke through `points` with stroke padding `padding`.
pub fn bounding_box_for_points(points: &[(i32, i32)], padding: i32) -> (r: Option<Rect>)
    requires
        padding >= 0,
        forall|i: int|
            0 <= i < points@.len() ==> pad_fits((#[trigger] points@[i]).0 as int, padding as int)
                && pad_fits(points@[i].1 as int, padding as int),
    ensures
        r == points_box(points@, padding as int),
{
    if points.len() == 0 {
        return None;
    }
    let mut min_x = points[0].0;
    let mut max_x = points[0].0;
    let mut min_y = points[0].1;
    let mut max_y = points[0].1;
    let mut i: usize = 1;
    while i < points.len()
        invariant
            1 <= i <= points@.len(),
            min_x as int == points_min_x(points@.take(i as int)),
            max_x as int == points_max_x(points@.take(i as int)),
            min_y as int == points_min_y(points@.take(i as int)),
            max_y as int == points_max_y(points@.take(i as int)),
            exists|k: int| 0 <= k < i && points@[k].0 == min_x,
            exists|k: int| 0 <= k < i && points@[k].0 == max_x,
            exists|k: int| 0 <= k < i && points@[k].1 == min_y,
            exists|k: int| 0 <= k < i && points@[k].1 == max_y,
        decreases points.len() - i,
    {
        let (x, y) = points[i];
        proof {
            assert(points@.take(i as int + 1).drop_last() =~= points@.take(i as int));
        }
        if x < min_x {
            min_x = x;
        }
        if x > max_x {
            max_x = x;
        }
        if y < min_y {
            min_y = y;
        }
        if y > max_y {
            max_y = y;
        }
        i += 1;
    }
    proof {
        assert(points@.take(points@.len() as int) =~= points@);
        let k1 = choose|k: int| 0 <= k < i && points@[k].0 == min_x;
        let k2 = choose|k: int| 0 <= k < i && points@[k].0 == max_x;
        let k3 = choose|k: int| 0 <= k < i && points@[k].1 == min_y;
        let k4 = choose|k: int| 0 <= k < i && points@[k].1 == max_y;
        assert(pad_fits(points@[k1].0 as int, padding as int));
        assert(pad_fits(points@[k2].0 as int, padding as int));
        assert(pad_fits(points@[k3].1 as int, padding as int));
        assert(pad_fits(points@[k4].1 as int, padding as int));
    }
    ensure_positive_rect(min_x - padding, min_y - padding, max_x + padding, max_y + padding)
}

/// Bounding box of a straight line with stroke padding `padding`.
pub fn bounding_box_for_line(x1: i32, y1: i32, x2: i32, y2: i32, padding: i32) -> (r: Option<Rect>)
    requires
        padding >= 0,
        pad_fits(x1 as int, padding as int),
        pad_fits(x2 as int, padding as int),
        pad_fits(y1 as int, padding as int),
        pad_fits(y2 as int, padding as int),
    ensures
        r == segment_box(x1 as int, y1 as int, x2 as int, y2 as int, padding as int),
{
    let min_x = if x1 <= x2 { x1 } else { x2 } - padding;
    let max_x = if x1 >= x2 { x1 } else { x2 } + padding;
    let min_y = if y1 <= y2 { y1 } else { y2 } - padding;
    let max_y = if y1 >= y2 { y1 } else { y2 } + padding;
    ensure_positive_rect(min_x, min_y, max_x, max_y)
}

/// Bounding box of a rectangle outline at `(x, y)` of size `w × h` with stroke padding.
pub fn bounding_box_for_rect(x: i32, y: i32, w: i32, h: i32, padding: i32) -> (r: Option<Rect>)
    requires
        padding >= 0,
        pad_fits(x as int, padding as int),
        pad_fits(y as int, padding as int),
        pad_fits(x + w, padding as int),
        pad_fits(y + h, padding as int),
    ensures
        r == segment_box(x as int, y as int, x + w, y + h, padding as int),
{
    let x2 = x + w;
    let y2 = y + h;
    bounding_box_for_line(x, y, x2, y2, padding)
}

/// Bounding box of an ellipse centred at `(cx, cy)` with radii `rx`, `ry` and stroke padding.
pub fn bounding_box_for_ellipse(cx: i32, cy: i32, rx: i32, ry: i32, padding: i32) -> (r: Option<Rect>)
    requires
        padding >= 0,
        pad_fits(cx - rx, padding as int),
        pad_fits(cx + rx, padding as int),
        pad_fits(cy - ry, padding as int),
        pad_fits(cy + ry, padding as int),
    ensures
        r == positive_rect(
            cx - rx - padding,
            cy - ry - padding,
            cx + rx + padding,
            cy + ry + padding,
        ),
{
    let min_x = (cx - rx) - padding;
    let max_x = (cx + rx) + padding;
    let min_y = (cy - ry) - padding;
    let max_y = (cy + ry) + padding;
    ensure_positive_rect(min_x, min_y, max_x, max_y)
}

} // verus!
