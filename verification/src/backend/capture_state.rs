//! Overlay visibility around a screen capture.
//!
//! The overlay hides before a capture, so that it is not captured itself,
//! and comes back when the capture ends.
use vstd::prelude::*;

verus! {

/// Tracks the capture manager (`M`) along with overlay visibility flags.
pub struct CaptureState<M> {
    manager: M,
    in_progress: bool,
    overlay_hidden: bool,
}

impl<M> CaptureState<M> {
    /// Whether a capture request is active.
    pub closed spec fn in_progress_spec(&self) -> bool {
        self.in_progress
    }

    /// The capture manager held.
    pub closed spec fn manager_spec(&self) -> M {
        self.manager
    }

    /// Whether the overlay is hidden for a capture.
    pub closed spec fn overlay_hidden_spec(&self) -> bool {
        self.overlay_hidden
    }

    /// Creates a new capture state wrapper: nothing in progress, overlay shown.
    pub fn new(manager: M) -> (s: Self)
        ensures
            !s.in_progress_spec(),
            !s.overlay_hidden_spec(),
            s.manager_spec() == manager,
    {
        Self { manager, in_progress: false, overlay_hidden: false }
    }

    /// Returns a mutable reference to the underlying capture manager.
    pub fn manager_mut(&mut self) -> (m: &mut M)
        ensures
            *m == old(self).manager_spec(),
            final(self).manager_spec() == *final(m),
            final(self).in_progress_spec() == old(self).in_progress_spec(),
            final(self).overlay_hidden_spec() == old(self).overlay_hidden_spec(),
    {
        &mut self.manager
    }

    /// Returns `true` if a capture request is currently active.
    pub fn is_in_progress(&self) -> (b: bool)
        ensures
            b == self.in_progress_spec(),
    {
        self.in_progress
    }

    /// Marks capture as started.
    pub fn mark_in_progress(&mut self)
        ensures
            final(self).in_progress_spec(),
            final(self).overlay_hidden_spec() == old(self).overlay_hidden_spec(),
            final(self).manager_spec() == old(self).manager_spec(),
    {
        self.in_progress = true;
    }

    /// Marks capture as finished.
    pub fn clear_in_progress(&mut self)
        ensures
            !final(self).in_progress_spec(),
            final(self).overlay_hidden_spec() == old(self).overlay_hidden_spec(),
            final(self).manager_spec() == old(self).manager_spec(),
    {
        self.in_progress = false;
    }

    /// Hides the overlay before capture.
    ///
    /// Returns `true` if the overlay is to be shrunk away now, `false` if it
    /// was already hidden.
    pub fn hide_overlay(&mut self) -> (hidden_now: bool)
        ensures
            hidden_now == !old(self).overlay_hidden_spec(),
            final(self).overlay_hidden_spec(),
            final(self).in_progress_spec() == old(self).in_progress_spec(),
            final(self).manager_spec() == old(self).manager_spec(),
    {
        if self.overlay_hidden {
            return false;
        }
        self.overlay_hidden = true;
        true
    }

    /// Restores the overlay after capture.
    ///
    /// Returns `true` if the overlay is to be given its size back now, `false`
    /// if it wasn't hidden.
    pub fn show_overlay(&mut self) -> (shown_now: bool)
        ensures
            shown_now == old(self).overlay_hidden_spec(),
            !final(self).overlay_hidden_spec(),
            final(self).in_progress_spec() == old(self).in_progress_spec(),
            final(self).manager_spec() == old(self).manager_spec(),
    {
        if !self.overlay_hidden {
            return false;
        }
        self.overlay_hidden = false;
        true
    }
}

} // verus!
