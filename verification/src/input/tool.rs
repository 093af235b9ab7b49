//! Drawing tool selection.
use vstd::prelude::*;

verus! {

/// Drawing tool selection.
///
/// The active tool determines what shape is created when the user drags the mouse.
/// Tools are selected by holding modifier keys (Shift, Ctrl, Tab) while dragging.
#[derive(Debug, Clone, Copy, PartialEq, Eq, Structural)]
pub enum Tool {
    /// Freehand drawing - follows mouse path (default, no modifiers)
    Pen,
    /// Straight line - between start and end points (Shift)
    Line,
    /// Rectangle outline - from corner to corner (Ctrl)
    Rect,
    /// Ellipse/circle outline - from center outward (Tab)
    Ellipse,
    /// Arrow with directional head (Ctrl+Shift)
    Arrow,
    /// Highlight-only tool (no drawing, emits click highlight)
    Highlight,
}

} // verus!
