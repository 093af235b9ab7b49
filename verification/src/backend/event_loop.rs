//! Decisions of the overlay's event loop: when to render, when to give up
//! after render failures, and which board the overlay starts on.
use vstd::prelude::*;

use crate::backend::surface::{SurfaceState, SurfaceView};
use crate::input::board_mode::{BoardMode, board_mode_named, law_board_mode_names};
use crate::text::eq_lower_word;
use crate::input::state::{InputState, InputView};

verus! {

/// Consecutive render failures after which the loop gives up.
pub const MAX_RENDER_FAILURES: u32 = 10;

/// Whether to render now: the surface is configured, a redraw is wanted, and
/// no frame callback is outstanding unless vsync is off.
pub fn can_render(configured: bool, needs_redraw: bool, frame_callback_pending: bool, vsync: bool) -> (r: bool)
    ensures
        r == (configured && needs_redraw && (!frame_callback_pending || !vsync)),
{
    configured && needs_redraw && (!frame_callback_pending || !vsync)
}

/// Counts consecutive render failures.
pub struct RenderFailures {
    consecutive: u32,
}

impl RenderFailures {
    /// The number of failures since the last success.
    pub closed spec fn count(&self) -> nat {
        self.consecutive as nat
    }

    /// No failure yet.
    pub fn new() -> (r: Self)
        ensures
            r.count() == 0,
    {
        RenderFailures { consecutive: 0 }
    }

    /// The number of failures since the last success.
    pub fn consecutive(&self) -> (n: u32)
        ensures
            n == self.count(),
    {
        self.consecutive
    }

    /// A render succeeded: the count starts over.
    pub fn record_success(&mut self)
        ensures
            final(self).count() == 0,
    {
        self.consecutive = 0;
    }

    /// A render failed; returns whether the loop is to give up, which it does
    /// at the tenth failure in a row.
    pub fn record_failure(&mut self) -> (give_up: bool)
        ensures
            final(self).count() == (if old(self).count() < u32::MAX { old(self).count() + 1 } else { old(self).count() }),
            give_up == (final(self).count() >= MAX_RENDER_FAILURES),
    {
        if self.consecutive < u32::MAX {
            self.consecutive += 1;
        }
        self.consecutive >= MAX_RENDER_FAILURES
    }
}

/// The compositor configured the overlay's surface with a size: a positive
/// size is taken (and handed to the input state); the surface is then
/// configured and a redraw requested. Returns whether the size changed.
pub fn apply_configure<L, P, S, C: Copy>(
    surface: &mut SurfaceState<L, P>,
    input: &mut InputState<S, C>,
    width: u32,
    height: u32,
) -> (size_changed: bool)
    ensures
        final(input).wf() == old(input).wf(),
        size_changed == (width > 0 && height > 0 && (old(surface)@.width != width || old(surface)@.height != height)),
        final(surface)@ == (if width > 0 && height > 0 {
            SurfaceView {
                width,
                height,
                configured: true,
                has_pool: old(surface)@.has_pool && !size_changed,
                ..old(surface)@
            }
        } else {
            SurfaceView { configured: true, ..old(surface)@ }
        }),
        final(surface).layer_surface_spec() == old(surface).layer_surface_spec(),
        final(surface).pool_spec() == (if size_changed { None } else { old(surface).pool_spec() }),
        final(input)@ == (if width > 0 && height > 0 {
            InputView { screen_width: width, screen_height: height, needs_redraw: true, ..old(input)@ }
        } else {
            InputView { needs_redraw: true, ..old(input)@ }
        }),
{
    let mut size_changed = false;
    if width > 0 && height > 0 {
        size_changed = surface.update_dimensions(width, height);
        input.update_screen_dimensions(surface.width(), surface.height());
    }
    surface.set_configured(true);
    input.request_redraw();
    size_changed
}

/// What to do about the starting board.
#[derive(Debug, Clone, Copy, PartialEq, Eq, Structural)]
pub enum InitialBoard {
    /// Stay on the transparent overlay.
    Transparent,
    /// Start on this board.
    Board(BoardMode),
    /// The requested mode is not a board mode: warn and stay transparent.
    InvalidMode,
    /// Board modes are off but a mode was requested: warn and ignore it.
    BoardsDisabled,
}

/// The starting board: with board modes enabled, the requested mode (else
/// the configured default) when it names a board; an unknown non-empty name
/// is reported; with board modes disabled a request is reported and ignored.
pub open spec fn initial_board_spec(enabled: bool, requested: Option<Seq<char>>, default_mode: Seq<char>) -> InitialBoard {
    if enabled {
        let name = match requested {
            Some(r) => r,
            None => default_mode,
        };
        match board_mode_named(name) {
            Some(BoardMode::Transparent) => InitialBoard::Transparent,
            Some(m) => InitialBoard::Board(m),
            None => if name.len() > 0 { InitialBoard::InvalidMode } else { InitialBoard::Transparent },
        }
    } else if requested is Some {
        InitialBoard::BoardsDisabled
    } else {
        InitialBoard::Transparent
    }
}

/// Law: a mode asked for on the command line wins over the configured
/// default, which is used as if it had been asked for when none is; with
/// board modes enabled, "whiteboard" and "blackboard" (any ASCII case) start
/// on that board and "transparent" on the overlay; with board modes
/// disabled the overlay never starts on a board.
pub proof fn law_initial_board_choice(requested: Seq<char>, d1: Seq<char>, d2: Seq<char>, enabled: bool)
    ensures
        initial_board_spec(true, Some(requested), d1) == initial_board_spec(true, Some(requested), d2),
        initial_board_spec(enabled, None, d1) == (if enabled {
            initial_board_spec(true, Some(d1), d2)
        } else {
            InitialBoard::Transparent
        }),
        eq_lower_word(requested, seq!['w', 'h', 'i', 't', 'e', 'b', 'o', 'a', 'r', 'd']) ==> initial_board_spec(
            true,
            Some(requested),
            d1,
        ) == InitialBoard::Board(BoardMode::Whiteboard),
        eq_lower_word(requested, seq!['b', 'l', 'a', 'c', 'k', 'b', 'o', 'a', 'r', 'd']) ==> initial_board_spec(
            true,
            Some(requested),
            d1,
        ) == InitialBoard::Board(BoardMode::Blackboard),
        eq_lower_word(requested, seq!['t', 'r', 'a', 'n', 's', 'p', 'a', 'r', 'e', 'n', 't']) ==> initial_board_spec(
            true,
            Some(requested),
            d1,
        ) == InitialBoard::Transparent,
        !(initial_board_spec(false, Some(requested), d1) is Board),
        !(initial_board_spec(false, None, d1) is Board),
{
    law_board_mode_names(requested);
}

/// The starting board, from the mode asked for on the command line (if any)
/// and the configured default.
pub fn initial_board(enabled: bool, requested: Option<&str>, default_mode: &str) -> (r: InitialBoard)
    ensures
        r == initial_board_spec(
            enabled,
            match requested {
                Some(s) => Some(s@),
                None => None,
            },
            default_mode@,
        ),
{
    if enabled {
        let name: &str = match requested {
            Some(r) => r,
            None => default_mode,
        };
        match BoardMode::from_str(name) {
            Some(BoardMode::Transparent) => InitialBoard::Transparent,
            Some(m) => InitialBoard::Board(m),
            None => if name.unicode_len() > 0 {
                InitialBoard::InvalidMode
            } else {
                InitialBoard::Transparent
            },
        }
    } else if requested.is_some() {
        InitialBoard::BoardsDisabled
    } else {
        InitialBoard::Transparent
    }
}

} // verus!
