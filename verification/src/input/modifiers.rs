//! Keyboard modifier state tracking.
use vstd::prelude::*;

use crate::input::tool::Tool;

verus! {

/// Keyboard modifier state.
///
/// Tracks which modifier keys (Shift, Ctrl, Alt, Tab) are currently pressed.
#[derive(Debug, Clone, Copy, PartialEq, Eq, Structural)]
pub struct Modifiers {
    /// Shift key pressed
    pub shift: bool,
    /// Ctrl key pressed
    pub ctrl: bool,
    /// Alt key pressed
    pub alt: bool,
    /// Tab key pressed
    pub tab: bool,
}

/// The tool selected by a modifier combination, by priority:
/// Ctrl+Shift → Arrow, Ctrl → Rect, Shift → Line, Tab → Ellipse, otherwise Pen.
pub open spec fn tool_for(m: Modifiers) -> Tool {
    if m.ctrl && m.shift {
        Tool::Arrow
    } else if m.ctrl {
        Tool::Rect
    } else if m.shift {
        Tool::Line
    } else if m.tab {
        Tool::Ellipse
    } else {
        Tool::Pen
    }
}

/// Law: the tool follows the held modifiers by priority: Ctrl with Shift
/// draws arrows, Ctrl alone rectangles, Shift alone lines, Tab ellipses, and
/// nothing held the pen; Alt plays no part.
pub proof fn law_modifiers_choose_tool(m: Modifiers)
    ensures
        m.ctrl && m.shift ==> tool_for(m) == Tool::Arrow,
        m.ctrl && !m.shift ==> tool_for(m) == Tool::Rect,
        !m.ctrl && m.shift ==> tool_for(m) == Tool::Line,
        !m.ctrl && !m.shift && m.tab ==> tool_for(m) == Tool::Ellipse,
        !m.ctrl && !m.shift && !m.tab ==> tool_for(m) == Tool::Pen,
        tool_for(Modifiers { alt: !m.alt, ..m }) == tool_for(m),
{
}

impl Default for Modifiers {
    fn default() -> (m: Self)
        ensures
            !m.shift && !m.ctrl && !m.alt && !m.tab,
    {
        Self::new()
    }
}

impl Modifiers {
    /// Creates a new Modifiers instance with all keys released.
    pub fn new() -> (m: Self)
        ensures
            !m.shift && !m.ctrl && !m.alt && !m.tab,
    {
        Self { shift: false, ctrl: false, alt: false, tab: false }
    }

    /// Determines which drawing tool is active based on current modifier state.
    pub fn current_tool(&self) -> (t: Tool)
        ensures
            t == tool_for(*self),
    {
        if self.ctrl && self.shift {
            Tool::Arrow
        } else if self.ctrl {
            Tool::Rect
        } else if self.shift {
            Tool::Line
        } else if self.tab {
            Tool::Ellipse
        } else {
            Tool::Pen
        }
    }
}

} // verus!
