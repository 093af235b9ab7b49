//! Session persistence bookkeeping for per-output snapshots.
//!
//! Tracks the current session options and whether a snapshot has been loaded.
use vstd::prelude::*;

verus! {

/// Tracks session persistence state and bookkeeping for per-output snapshots.
pub struct SessionState<O> {
    options: Option<O>,
    loaded: bool,
}

impl<O> SessionState<O> {
    /// The options held.
    pub closed spec fn options_spec(&self) -> Option<O> {
        self.options
    }

    /// Whether a snapshot has been loaded.
    pub closed spec fn loaded_spec(&self) -> bool {
        self.loaded
    }

    /// Creates a new session state wrapper using the supplied options.
    pub fn new(options: Option<O>) -> (s: Self)
        ensures
            s.options_spec() == options,
            !s.loaded_spec(),
    {
        Self { options, loaded: false }
    }

    /// Returns immutable access to the session options, if present.
    pub fn options(&self) -> (r: Option<&O>)
        ensures
            match r {
                Some(o) => self.options_spec() == Some(*o),
                None => self.options_spec() is None,
            },
    {
        self.options.as_ref()
    }

    /// Returns mutable access to the session options, if present.
    pub fn options_mut(&mut self) -> (r: Option<&mut O>)
        ensures
            match r {
                Some(o) => old(self).options_spec() == Some(*o) && final(self).options_spec() == Some(*final(o)),
                None => old(self).options_spec() is None && final(self).options_spec() is None,
            },
            final(self).loaded_spec() == old(self).loaded_spec(),
    {
        match &mut self.options {
            Some(o) => Some(o),
            None => None,
        }
    }

    /// Returns true if a session snapshot has already been loaded this run.
    pub fn is_loaded(&self) -> (b: bool)
        ensures
            b == self.loaded_spec(),
    {
        self.loaded
    }

    /// Whether the session is to be loaded when the surface enters an
    /// output: when the output's identity changed, or nothing was loaded yet.
    pub fn needs_load(&self, identity_changed: bool) -> (b: bool)
        ensures
            b == (identity_changed || !self.loaded_spec()),
    {
        identity_changed || !self.loaded
    }

    /// Marks the session as loaded.
    pub fn mark_loaded(&mut self)
        ensures
            final(self).loaded_spec(),
            final(self).options_spec() == old(self).options_spec(),
    {
        self.loaded = true;
    }
}

} // verus!
