//! Axis-aligned integer rectangles used for damage tracking.
use vstd::prelude::*;

verus! {

/// An axis-aligned rectangle in surface pixels.
#[derive(Debug, Clone, Copy, PartialEq, Eq, Structural)]
pub struct Rect {
    pub x: i32,
    pub y: i32,
    pub width: i32,
    pub height: i32,
}

/// A rectangle with positive width and height.
pub open spec fn rect_valid(r: Rect) -> bool {
    r.width > 0 && r.height > 0
}

/// The rectangle spanning `[min_x, max_x) × [min_y, max_y)`, when it is non-empty
/// and its size fits an `i32`.
pub open spec fn rect_from_min_max(min_x: int, min_y: int, max_x: int, max_y: int) -> Option<Rect> {
    if min_x < max_x && min_y < max_y && max_x - min_x <= i32::MAX && max_y - min_y <= i32::MAX
        && i32::MIN <= min_x && i32::MIN <= min_y {
        Some(
            Rect {
                x: min_x as i32,
                y: min_y as i32,
                width: (max_x - min_x) as i32,
                height: (max_y - min_y) as i32,
            },
        )
    } else {
        None
    }
}

impl Rect {
    /// A rectangle at `(x, y)` of the given size, when the size is positive.
    pub fn new(x: i32, y: i32, width: i32, height: i32) -> (r: Option<Rect>)
        ensures
            r == (if width > 0 && height > 0 {
                Some(Rect { x, y, width, height })
            } else {
                None
            }),
    {
        if width > 0 && height > 0 {
            Some(Rect { x, y, width, height })
        } else {
            None
        }
    }

    /// The rectangle spanning `[min_x, max_x) × [min_y, max_y)`, if non-empty.
    pub fn from_min_max(min_x: i32, min_y: i32, max_x: i32, max_y: i32) -> (r: Option<Rect>)
        ensures
            r == rect_from_min_max(min_x as int, min_y as int, max_x as int, max_y as int),
    {
        if min_x < max_x && min_y < max_y {
            let w: i64 = max_x as i64 - min_x as i64;
            let h: i64 = max_y as i64 - min_y as i64;
            if w <= i32::MAX as i64 && h <= i32::MAX as i64 {
                return Some(Rect { x: min_x, y: min_y, width: w as i32, height: h as i32 });
            }
        }
        None
    }

    /// Whether the rectangle has positive width and height.
    pub fn is_valid(&self) -> (b: bool)
        ensures
            b == rect_valid(*self),
    {
        self.width > 0 && self.height > 0
    }
}

} // verus!
