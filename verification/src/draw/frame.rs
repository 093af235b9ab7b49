//! Frame container for managing collections of shapes.
use vstd::prelude::*;

verus! {

/// Container for all shapes in the current drawing session.
///
/// Holds shapes in draw order (first = bottom layer, last = top layer) and
/// provides operations like adding, clearing, and undoing shapes.
#[derive(Debug, Clone)]
pub struct Frame<S> {
    /// Vector of all shapes in draw order
    pub shapes: Vec<S>,
}

impl<S> Default for Frame<S> {
    fn default() -> (f: Self)
        ensures
            f.shapes@ == Seq::<S>::empty(),
    {
        Self::new()
    }
}

/// Whether `try_add_shape` with limit `max` accepts one more shape when `len` are held.
pub open spec fn shape_fits(len: nat, max: usize) -> bool {
    max == 0 || len < max
}

impl<S> Frame<S> {
    /// Creates a new empty frame with no shapes.
    pub fn new() -> (f: Self)
        ensures
            f.shapes@ == Seq::<S>::empty(),
    {
        Self { shapes: Vec::new() }
    }

    /// Removes all shapes from the frame, clearing the canvas.
    pub fn clear(&mut self)
        ensures
            final(self).shapes@ == Seq::<S>::empty(),
    {
        self.shapes.clear();
    }

    /// Adds a new shape to the frame (drawn on top of existing shapes).
    pub fn add_shape(&mut self, shape: S)
        ensures
            final(self).shapes@ == old(self).shapes@.push(shape),
    {
        self.shapes.push(shape);
    }

    /// Attempts to add a shape, enforcing a maximum shape count when `max` > 0.
    ///
    /// Returns `true` if the shape was added, `false` if the limit would be exceeded.
    pub fn try_add_shape(&mut self, shape: S, max: usize) -> (added: bool)
        ensures
            added == shape_fits(old(self).shapes@.len(), max),
            final(self).shapes@ == (if added {
                old(self).shapes@.push(shape)
            } else {
                old(self).shapes@
            }),
    {
        if max == 0 || self.shapes.len() < max {
            self.shapes.push(shape);
            true
        } else {
            false
        }
    }

    /// Removes and returns the most recently added shape, if any.
    pub fn undo(&mut self) -> (r: Option<S>)
        ensures
            old(self).shapes@.len() == 0 ==> r is None && final(self).shapes@ == old(self).shapes@,
            old(self).shapes@.len() > 0 ==> r == Some(old(self).shapes@.last())
                && final(self).shapes@ == old(self).shapes@.drop_last(),
    {
        self.shapes.pop()
    }
}

/// Law: undoing right after adding a shape gives that shape back and
/// restores the frame as it was.
pub proof fn law_undo_after_add<S>(before: Seq<S>, shape: S)
    ensures
        before.push(shape).len() > 0,
        before.push(shape).last() == shape,
        before.push(shape).drop_last() == before,
{
    assert(before.push(shape).drop_last() =~= before);
}

/// Law: with a positive limit, repeated `try_add_shape` never lets the frame
/// grow beyond the limit.
pub proof fn law_limit_respected(len: nat, max: usize)
    requires
        max > 0,
        len <= max,
    ensures
        shape_fits(len, max) ==> len + 1 <= max,
        !shape_fits(len, max) ==> len == max,
{
}

} // verus!
