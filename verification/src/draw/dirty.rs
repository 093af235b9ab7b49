//! Dirty region tracking for incremental rendering.
//!
//! Collects axis-aligned rectangles that need repainting between frames.
use vstd::prelude::*;

use crate::draw::rect::{Rect, rect_valid};

verus! {

/// The state of a tracker: the accumulated rectangles and the full-surface flag.
pub struct DirtyView {
    pub regions: Seq<Rect>,
    pub force_full: bool,
}

/// Tracks dirty rectangles accumulated between renders.
#[derive(Debug)]
pub struct DirtyTracker {
    regions: Vec<Rect>,
    force_full: bool,
}

impl View for DirtyTracker {
    type V = DirtyView;

    closed spec fn view(&self) -> DirtyView {
        DirtyView { regions: self.regions@, force_full: self.force_full }
    }
}

/// Every kept rectangle is valid, and none is kept while the whole surface is dirty.
pub open spec fn dirty_wf(v: DirtyView) -> bool {
    &&& forall|i: int| 0 <= i < v.regions.len() ==> rect_valid(#[trigger] v.regions[i])
    &&& v.force_full ==> v.regions.len() == 0
}

/// The tracker after marking the whole surface.
pub open spec fn mark_full_spec(v: DirtyView) -> DirtyView {
    DirtyView { regions: Seq::empty(), force_full: true }
}

/// The tracker after marking `r`: kept when valid and the surface is not already full.
pub open spec fn mark_rect_spec(v: DirtyView, r: Rect) -> DirtyView {
    if !rect_valid(r) || v.force_full {
        v
    } else {
        DirtyView { regions: v.regions.push(r), force_full: v.force_full }
    }
}

/// The tracker after marking a shape's bounds: the bounds when known, else the whole surface.
pub open spec fn mark_bounds_spec(v: DirtyView, bounds: Option<Rect>) -> DirtyView {
    match bounds {
        Some(r) => mark_rect_spec(v, r),
        None => mark_full_spec(v),
    }
}

/// The regions that draining gives for a surface of the given size.
pub open spec fn take_regions_spec(v: DirtyView, width: i32, height: i32) -> Seq<Rect> {
    if v.force_full {
        if width > 0 && height > 0 {
            seq![Rect { x: 0, y: 0, width, height }]
        } else {
            Seq::empty()
        }
    } else {
        v.regions
    }
}

/// A tracker with nothing marked.
pub open spec fn empty_dirty() -> DirtyView {
    DirtyView { regions: Seq::empty(), force_full: false }
}

impl Default for DirtyTracker {
    fn default() -> (t: Self)
        ensures
            t@ == empty_dirty(),
            dirty_wf(t@),
    {
        Self::new()
    }
}

impl DirtyTracker {
    /// Creates a new, empty tracker.
    pub fn new() -> (t: Self)
        ensures
            t@ == empty_dirty(),
            dirty_wf(t@),
    {
        DirtyTracker { regions: Vec::new(), force_full: false }
    }

    /// Whether the whole surface is marked.
    pub fn is_full(&self) -> (b: bool)
        ensures
            b == self@.force_full,
    {
        self.force_full
    }

    /// Marks the entire surface as dirty. Clears any accumulated rectangles.
    pub fn mark_full(&mut self)
        ensures
            final(self)@ == mark_full_spec(old(self)@),
            dirty_wf(final(self)@),
    {
        self.force_full = true;
        self.regions.clear();
    }

    /// Adds a dirty rectangle if the tracker is not already full.
    pub fn mark_rect(&mut self, rect: Rect)
        requires
            dirty_wf(old(self)@),
        ensures
            final(self)@ == mark_rect_spec(old(self)@, rect),
            dirty_wf(final(self)@),
    {
        if !rect.is_valid() || self.force_full {
            return;
        }
        self.regions.push(rect);
    }

    /// Adds a dirty rectangle when present.
    pub fn mark_optional_rect(&mut self, rect: Option<Rect>)
        requires
            dirty_wf(old(self)@),
        ensures
            final(self)@ == (match rect {
                Some(r) => mark_rect_spec(old(self)@, r),
                None => old(self)@,
            }),
            dirty_wf(final(self)@),
    {
        if let Some(rect) = rect {
            self.mark_rect(rect);
        }
    }

    /// Adds a shape's bounding box, or full damage when the shape has none.
    pub fn mark_shape_bounds(&mut self, bounds: Option<Rect>)
        requires
            dirty_wf(old(self)@),
        ensures
            final(self)@ == mark_bounds_spec(old(self)@, bounds),
            dirty_wf(final(self)@),
    {
        match bounds {
            Some(rect) => self.mark_rect(rect),
            None => self.mark_full(),
        }
    }

    /// Drains the dirty regions gathered so far.
    ///
    /// When the full surface is marked, returns a single rectangle covering the
    /// entire surface; otherwise returns accumulated rectangles.
    pub fn take_regions(&mut self, width: i32, height: i32) -> (r: Vec<Rect>)
        ensures
            r@ == take_regions_spec(old(self)@, width, height),
            final(self)@ == empty_dirty(),
            dirty_wf(final(self)@),
    {
        if self.force_full {
            self.force_full = false;
            self.regions.clear();
            if width > 0 && height > 0 {
                if let Some(full) = Rect::new(0, 0, width, height) {
                    return vec![full];
                }
            }
            Vec::new()
        } else {
            let mut out: Vec<Rect> = Vec::new();
            std::mem::swap(&mut out, &mut self.regions);
            out
        }
    }
}

/// The tracker after marking each rectangle of `rs` in order.
pub open spec fn mark_rects_spec(v: DirtyView, rs: Seq<Rect>) -> DirtyView
    decreases rs.len(),
{
    if rs.len() == 0 {
        v
    } else {
        mark_rects_spec(mark_rect_spec(v, rs[0]), rs.drop_first())
    }
}

proof fn lemma_marks_keep_full(v: DirtyView, rs: Seq<Rect>)
    requires
        v.force_full,
        v.regions.len() == 0,
    ensures
        mark_rects_spec(v, rs) == v,
    decreases rs.len(),
{
    if rs.len() > 0 {
        lemma_marks_keep_full(mark_rect_spec(v, rs[0]), rs.drop_first());
    }
}

/// Law: marking the whole surface takes precedence; whatever rectangles are
/// marked afterwards, draining gives the single full-surface rectangle (or
/// nothing for an empty surface), and leaves the tracker empty.
pub proof fn law_full_takes_precedence(v: DirtyView, rs: Seq<Rect>, width: i32, height: i32)
    ensures
        take_regions_spec(mark_rects_spec(mark_full_spec(v), rs), width, height) == (if width > 0
            && height > 0 {
            seq![Rect { x: 0, y: 0, width, height }]
        } else {
            Seq::<Rect>::empty()
        }),
{
    lemma_marks_keep_full(mark_full_spec(v), rs);
}

/// Law: without full damage, draining gives back exactly the marked
/// rectangles of positive width and height, in marking order.
pub proof fn law_regions_round_trip(rs: Seq<Rect>, width: i32, height: i32)
    ensures
        take_regions_spec(mark_rects_spec(empty_dirty(), rs), width, height) == rs.filter(
            |r: Rect| r.width > 0 && r.height > 0,
        ),
    decreases rs.len(),
{
    lemma_marks_filter(empty_dirty(), rs);
    assert(Seq::<Rect>::empty() + rs.filter(|r: Rect| rect_valid(r)) =~= rs.filter(|r: Rect| rect_valid(r)));
    assert((|r: Rect| rect_valid(r)) =~= (|r: Rect| r.width > 0 && r.height > 0));
}

proof fn lemma_marks_filter(v: DirtyView, rs: Seq<Rect>)
    requires
        !v.force_full,
    ensures
        !mark_rects_spec(v, rs).force_full,
        mark_rects_spec(v, rs).regions == v.regions + rs.filter(|r: Rect| rect_valid(r)),
    decreases rs.len(),
{
    reveal_with_fuel(Seq::<_>::filter, 2);
    if rs.len() == 0 {
        assert(v.regions + rs.filter(|r: Rect| rect_valid(r)) =~= v.regions);
    } else {
        let v2 = mark_rect_spec(v, rs[0]);
        lemma_marks_filter(v2, rs.drop_first());
        lemma_filter_cons(rs);
        if rect_valid(rs[0]) {
            assert(v.regions.push(rs[0]) + rs.drop_first().filter(|r: Rect| rect_valid(r)) =~= v.regions
                + (seq![rs[0]] + rs.drop_first().filter(|r: Rect| rect_valid(r))));
        }
    }
}

proof fn lemma_filter_cons(rs: Seq<Rect>)
    requires
        rs.len() > 0,
    ensures
        rs.filter(|r: Rect| rect_valid(r)) == (if rect_valid(rs[0]) {
            seq![rs[0]] + rs.drop_first().filter(|r: Rect| rect_valid(r))
        } else {
            rs.drop_first().filter(|r: Rect| rect_valid(r))
        }),
    decreases rs.len(),
{
    reveal_with_fuel(Seq::<_>::filter, 2);
    if rs.len() == 1 {
        assert(rs.drop_last() =~= Seq::<Rect>::empty());
        assert(rs.drop_first() =~= Seq::<Rect>::empty());
    } else {
        lemma_filter_cons(rs.drop_last());
        assert(rs.drop_last().drop_first() =~= rs.drop_first().drop_last());
        assert(rs.drop_last()[0] == rs[0]);
        assert(rs.drop_first().last() == rs.last());
        if rect_valid(rs[0]) {
            if rect_valid(rs.last()) {
                assert((seq![rs[0]] + rs.drop_first().drop_last().filter(|r: Rect| rect_valid(r))).push(rs.last())
                    =~= seq![rs[0]] + rs.drop_first().drop_last().filter(|r: Rect| rect_valid(r)).push(rs.last()));
            }
        }
    }
}

} // verus!
