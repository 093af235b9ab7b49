//! Configuration enum types.
use vstd::prelude::*;

verus! {

/// Status bar position on screen.
///
/// Controls where the status bar appears relative to screen edges.
#[derive(Debug, Clone, Copy, PartialEq, Eq, Structural)]
pub enum StatusPosition {
    /// Top-left corner
    TopLeft,
    /// Top-right corner
    TopRight,
    /// Bottom-left corner
    BottomLeft,
    /// Bottom-right corner
    BottomRight,
}

/// Color specification - either a named color or RGB values.
#[derive(Debug, Clone)]
pub enum ColorSpec {
    /// Named color: red, green, blue, yellow, orange, pink, white, black
    Name(String),
    /// RGB color as [red, green, blue] where each component is 0-255
    Rgb([u8; 3]),
}

} // verus!
