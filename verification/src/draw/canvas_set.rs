//! Multi-frame canvas management for board modes.
use vstd::prelude::*;

use crate::draw::frame::Frame;
use crate::input::board_mode::BoardMode;

verus! {

/// The contents of a canvas set: the shapes of each mode's frame (board
/// frames only once created) and the active mode.
pub struct CanvasView<S> {
    pub transparent: Seq<S>,
    pub whiteboard: Option<Seq<S>>,
    pub blackboard: Option<Seq<S>>,
    pub active_mode: BoardMode,
}

/// Manages multiple frames, one per board mode (with lazy initialization).
///
/// - Transparent mode always has a frame (used for screen annotation)
/// - Whiteboard and Blackboard frames are lazily created on first use
pub struct CanvasSet<S> {
    /// Frame for transparent overlay mode (always exists)
    transparent: Frame<S>,
    /// Frame for whiteboard mode (lazy: created on first use)
    whiteboard: Option<Frame<S>>,
    /// Frame for blackboard mode (lazy: created on first use)
    blackboard: Option<Frame<S>>,
    /// Currently active mode
    active_mode: BoardMode,
    /// Empty frame shown for a board mode whose frame does not exist yet
    empty: Frame<S>,
}

pub open spec fn opt_frame_view<S>(f: Option<Frame<S>>) -> Option<Seq<S>> {
    match f {
        Some(fr) => Some(fr.shapes@),
        None => None,
    }
}

/// The shapes of `mode`'s frame, if that frame exists.
pub open spec fn frame_of<S>(v: CanvasView<S>, mode: BoardMode) -> Option<Seq<S>> {
    match mode {
        BoardMode::Transparent => Some(v.transparent),
        BoardMode::Whiteboard => v.whiteboard,
        BoardMode::Blackboard => v.blackboard,
    }
}

/// The shapes shown for the active mode (empty for a board frame not yet created).
pub open spec fn active_shapes<S>(v: CanvasView<S>) -> Seq<S> {
    match frame_of(v, v.active_mode) {
        Some(s) => s,
        None => Seq::empty(),
    }
}

/// The canvas with the active mode's frame replaced by `shapes` (creating it if needed).
pub open spec fn with_active<S>(v: CanvasView<S>, shapes: Seq<S>) -> CanvasView<S> {
    match v.active_mode {
        BoardMode::Transparent => CanvasView { transparent: shapes, ..v },
        BoardMode::Whiteboard => CanvasView { whiteboard: Some(shapes), ..v },
        BoardMode::Blackboard => CanvasView { blackboard: Some(shapes), ..v },
    }
}

/// The canvas with `mode`'s frame replaced by `frame` (the transparent frame
/// becomes empty when `frame` is `None`).
pub open spec fn with_frame<S>(v: CanvasView<S>, mode: BoardMode, frame: Option<Seq<S>>) -> CanvasView<S> {
    match mode {
        BoardMode::Transparent => CanvasView {
            transparent: match frame {
                Some(s) => s,
                None => Seq::empty(),
            },
            ..v
        },
        BoardMode::Whiteboard => CanvasView { whiteboard: frame, ..v },
        BoardMode::Blackboard => CanvasView { blackboard: frame, ..v },
    }
}

impl<S> View for CanvasSet<S> {
    type V = CanvasView<S>;

    closed spec fn view(&self) -> CanvasView<S> {
        CanvasView {
            transparent: self.transparent.shapes@,
            whiteboard: opt_frame_view(self.whiteboard),
            blackboard: opt_frame_view(self.blackboard),
            active_mode: self.active_mode,
        }
    }
}

impl<S> CanvasSet<S> {
    /// The stand-in for a missing board frame holds no shapes.
    pub closed spec fn wf(&self) -> bool {
        self.empty.shapes@.len() == 0
    }

    /// Creates a new canvas set with only the transparent frame initialized.
    pub fn new() -> (c: Self)
        ensures
            c@.transparent == Seq::<S>::empty(),
            c@.whiteboard is None,
            c@.blackboard is None,
            c@.active_mode == BoardMode::Transparent,
            c.wf(),
    {
        Self {
            transparent: Frame::new(),
            whiteboard: None,
            blackboard: None,
            active_mode: BoardMode::Transparent,
            empty: Frame::new(),
        }
    }

    /// Gets the currently active frame (mutable).
    ///
    /// Lazily creates whiteboard/blackboard frames if they don't exist yet.
    pub fn active_frame_mut(&mut self) -> (f: &mut Frame<S>)
        requires
            old(self).wf(),
        ensures
            final(self).wf(),
            f.shapes@ == active_shapes(old(self)@),
            final(self)@ == with_active(old(self)@, final(f).shapes@),
    {
        match self.active_mode {
            BoardMode::Transparent => &mut self.transparent,
            BoardMode::Whiteboard => {
                if self.whiteboard.is_none() {
                    self.whiteboard = Some(Frame::new());
                }
                match &mut self.whiteboard {
                    Some(f) => f,
                    None => &mut self.transparent,
                }
            },
            BoardMode::Blackboard => {
                if self.blackboard.is_none() {
                    self.blackboard = Some(Frame::new());
                }
                match &mut self.blackboard {
                    Some(f) => f,
                    None => &mut self.transparent,
                }
            },
        }
    }

    /// Gets the currently active frame (immutable).
    ///
    /// For board modes whose frame does not exist yet, returns an empty frame
    /// instead of creating one.
    pub fn active_frame(&self) -> (f: &Frame<S>)
        requires
            self.wf(),
        ensures
            f.shapes@ == active_shapes(self@),
    {
        match self.active_mode {
            BoardMode::Transparent => &self.transparent,
            BoardMode::Whiteboard => match &self.whiteboard {
                Some(f) => f,
                None => &self.empty,
            },
            BoardMode::Blackboard => match &self.blackboard {
                Some(f) => f,
                None => &self.empty,
            },
        }
    }

    /// Returns the current active board mode.
    pub fn active_mode(&self) -> (m: BoardMode)
        ensures
            m == self@.active_mode,
    {
        self.active_mode
    }

    /// Switches to a different board mode.
    ///
    /// This does not create frames lazily - they are created when first accessed
    /// via `active_frame_mut()`.
    pub fn switch_mode(&mut self, new_mode: BoardMode)
        ensures
            final(self).wf() == old(self).wf(),
            final(self)@ == (CanvasView { active_mode: new_mode, ..old(self)@ }),
    {
        self.active_mode = new_mode;
    }

    /// Clears only the active frame.
    pub fn clear_active(&mut self)
        requires
            old(self).wf(),
        ensures
            final(self).wf(),
            final(self)@ == with_active(old(self)@, Seq::<S>::empty()),
    {
        self.active_frame_mut().clear();
    }

    /// Returns an immutable reference to the frame for the requested mode, if it exists.
    pub fn frame(&self, mode: BoardMode) -> (r: Option<&Frame<S>>)
        ensures
            match r {
                Some(f) => frame_of(self@, mode) == Some(f.shapes@),
                None => frame_of(self@, mode) is None,
            },
    {
        match mode {
            BoardMode::Transparent => Some(&self.transparent),
            BoardMode::Whiteboard => self.whiteboard.as_ref(),
            BoardMode::Blackboard => self.blackboard.as_ref(),
        }
    }

    /// Replaces the frame for the requested mode with the provided data.
    pub fn set_frame(&mut self, mode: BoardMode, frame: Option<Frame<S>>)
        ensures
            final(self).wf() == old(self).wf(),
            final(self)@ == with_frame(old(self)@, mode, opt_frame_view(frame)),
    {
        match mode {
            BoardMode::Transparent => {
                self.transparent = match frame {
                    Some(f) => f,
                    None => Frame::new(),
                };
            },
            BoardMode::Whiteboard => {
                self.whiteboard = frame;
            },
            BoardMode::Blackboard => {
                self.blackboard = frame;
            },
        }
    }
}

/// Law: frames are isolated; replacing the active frame's shapes leaves every
/// other mode's frame as it was, and the active frame then holds exactly the
/// new shapes.
pub proof fn law_frame_isolation<S>(v: CanvasView<S>, shapes: Seq<S>, mode: BoardMode)
    ensures
        mode != v.active_mode ==> frame_of(with_active(v, shapes), mode) == frame_of(v, mode),
        active_shapes(with_active(v, shapes)) == shapes,
        with_active(v, shapes).active_mode == v.active_mode,
{
}

/// Law: switching to another mode and back leaves every frame unchanged, and
/// shows the same shapes as before.
pub proof fn law_switch_round_trip<S>(v: CanvasView<S>, other: BoardMode)
    ensures
        (CanvasView { active_mode: v.active_mode, ..(CanvasView { active_mode: other, ..v }) }) == v,
{
}

} // verus!
