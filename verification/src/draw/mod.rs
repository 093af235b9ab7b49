//! Drawing primitives: rectangles, dirty regions, frames and font descriptors.
pub mod bounds;
pub mod canvas_set;
pub mod dirty;
pub mod font;
pub mod frame;
pub mod geometry;
pub mod rect;
