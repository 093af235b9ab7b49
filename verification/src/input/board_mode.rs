//! Board/canvas mode selection.
use vstd::prelude::*;

use crate::text::{chars_eq_lower_word, eq_lower_word, folds_to, str_chars};

verus! {

/// Board rendering mode
///
/// Determines the background and visual style of the drawing canvas.
/// Each mode maintains its own isolated frame of shapes.
#[derive(Debug, Clone, Copy, PartialEq, Eq, Hash, Structural)]
pub enum BoardMode {
    /// Transparent overlay showing underlying screen (default)
    Transparent,
    /// White/light background for drawing (whiteboard)
    Whiteboard,
    /// Dark/black background for drawing (blackboard)
    Blackboard,
}

impl Default for BoardMode {
    fn default() -> (m: Self)
        ensures
            m == BoardMode::Transparent,
    {
        BoardMode::Transparent
    }
}

pub open spec fn transparent_word() -> Seq<char> {
    seq!['t', 'r', 'a', 'n', 's', 'p', 'a', 'r', 'e', 'n', 't']
}

pub open spec fn whiteboard_word() -> Seq<char> {
    seq!['w', 'h', 'i', 't', 'e', 'b', 'o', 'a', 'r', 'd']
}

pub open spec fn blackboard_word() -> Seq<char> {
    seq!['b', 'l', 'a', 'c', 'k', 'b', 'o', 'a', 'r', 'd']
}

/// The mode that `s` names once lowercased, if any.
pub open spec fn board_mode_named(s: Seq<char>) -> Option<BoardMode> {
    if eq_lower_word(s, transparent_word()) {
        Some(BoardMode::Transparent)
    } else if eq_lower_word(s, whiteboard_word()) {
        Some(BoardMode::Whiteboard)
    } else if eq_lower_word(s, blackboard_word()) {
        Some(BoardMode::Blackboard)
    } else {
        None
    }
}


/// Law: a board mode is named by its own word in any ASCII case:
/// "transparent", "whiteboard" or "blackboard"; nothing else names a mode.
pub proof fn law_board_mode_names(s: Seq<char>)
    ensures
        board_mode_named(s) == Some(BoardMode::Transparent) <==> eq_lower_word(
            s,
            seq!['t', 'r', 'a', 'n', 's', 'p', 'a', 'r', 'e', 'n', 't'],
        ),
        board_mode_named(s) == Some(BoardMode::Whiteboard) <==> eq_lower_word(
            s,
            seq!['w', 'h', 'i', 't', 'e', 'b', 'o', 'a', 'r', 'd'],
        ),
        board_mode_named(s) == Some(BoardMode::Blackboard) <==> eq_lower_word(
            s,
            seq!['b', 'l', 'a', 'c', 'k', 'b', 'o', 'a', 'r', 'd'],
        ),
{
    let t = seq!['t', 'r', 'a', 'n', 's', 'p', 'a', 'r', 'e', 'n', 't'];
    let w = seq!['w', 'h', 'i', 't', 'e', 'b', 'o', 'a', 'r', 'd'];
    let b = seq!['b', 'l', 'a', 'c', 'k', 'b', 'o', 'a', 'r', 'd'];
    assert(transparent_word() == t);
    assert(whiteboard_word() == w);
    assert(blackboard_word() == b);
    if eq_lower_word(s, w) && eq_lower_word(s, b) {
        assert(folds_to(s[0], w[0]));
        assert(folds_to(s[0], b[0]));
    }
    if eq_lower_word(s, t) {
        assert(s.len() != w.len());
    }
}

/// The board part of the configuration: whether board modes are enabled,
/// whether the pen follows the board, and the board and pen colors.
#[derive(Debug, Clone, Copy)]
pub struct BoardSettings<C> {
    /// Enable board mode features (whiteboard/blackboard)
    pub enabled: bool,
    /// Automatically adjust pen color when entering board modes
    pub auto_adjust_pen: bool,
    /// Whiteboard background color
    pub whiteboard_color: C,
    /// Blackboard background color
    pub blackboard_color: C,
    /// Default pen color for whiteboard mode
    pub whiteboard_pen_color: C,
    /// Default pen color for blackboard mode
    pub blackboard_pen_color: C,
}

/// The background a mode fills the surface with: none for the transparent overlay.
pub open spec fn board_background<C>(m: BoardMode, config: BoardSettings<C>) -> Option<C> {
    match m {
        BoardMode::Transparent => None,
        BoardMode::Whiteboard => Some(config.whiteboard_color),
        BoardMode::Blackboard => Some(config.blackboard_color),
    }
}

/// The pen a mode switches to: none for the transparent overlay.
pub open spec fn board_pen<C>(m: BoardMode, config: BoardSettings<C>) -> Option<C> {
    match m {
        BoardMode::Transparent => None,
        BoardMode::Whiteboard => Some(config.whiteboard_pen_color),
        BoardMode::Blackboard => Some(config.blackboard_pen_color),
    }
}

/// Law: each board shows its own background and switches to its own pen
/// (the whiteboard's for the whiteboard, the blackboard's for the
/// blackboard); the transparent overlay has neither.
pub proof fn law_boards_use_their_own_colors<C>(config: BoardSettings<C>)
    ensures
        board_background(BoardMode::Whiteboard, config) == Some(config.whiteboard_color),
        board_background(BoardMode::Blackboard, config) == Some(config.blackboard_color),
        board_background(BoardMode::Transparent, config) is None,
        board_pen(BoardMode::Whiteboard, config) == Some(config.whiteboard_pen_color),
        board_pen(BoardMode::Blackboard, config) == Some(config.blackboard_pen_color),
        board_pen(BoardMode::Transparent, config) is None,
{
}

impl BoardMode {
    /// Returns the background color for this mode, if any.
    ///
    /// Transparent mode returns None (no background fill).
    /// Whiteboard and Blackboard return their respective colors from config.
    pub fn background_color<C: Copy>(&self, config: &BoardSettings<C>) -> (r: Option<C>)
        ensures
            r == board_background(*self, *config),
    {
        match self {
            BoardMode::Transparent => None,
            BoardMode::Whiteboard => Some(config.whiteboard_color),
            BoardMode::Blackboard => Some(config.blackboard_color),
        }
    }

    /// Returns the default pen color for this mode.
    ///
    /// Used for auto-adjusting pen color when entering board modes
    /// to ensure good contrast.
    pub fn default_pen_color<C: Copy>(&self, config: &BoardSettings<C>) -> (r: Option<C>)
        ensures
            r == board_pen(*self, *config),
    {
        match self {
            BoardMode::Transparent => None,
            BoardMode::Whiteboard => Some(config.whiteboard_pen_color),
            BoardMode::Blackboard => Some(config.blackboard_pen_color),
        }
    }

    /// Parse mode from string (for CLI and config).
    pub fn from_str(s: &str) -> (r: Option<Self>)
        ensures
            r == board_mode_named(s@),
    {
        let chars = str_chars(s);
        let t = vec!['t', 'r', 'a', 'n', 's', 'p', 'a', 'r', 'e', 'n', 't'];
        let w = vec!['w', 'h', 'i', 't', 'e', 'b', 'o', 'a', 'r', 'd'];
        let b = vec!['b', 'l', 'a', 'c', 'k', 'b', 'o', 'a', 'r', 'd'];
        proof {
            assert(t@ == transparent_word());
            assert(w@ == whiteboard_word());
            assert(b@ == blackboard_word());
        }
        if chars_eq_lower_word(&chars, &t) {
            Some(BoardMode::Transparent)
        } else if chars_eq_lower_word(&chars, &w) {
            Some(BoardMode::Whiteboard)
        } else if chars_eq_lower_word(&chars, &b) {
            Some(BoardMode::Blackboard)
        } else {
            None
        }
    }
}

} // verus!
