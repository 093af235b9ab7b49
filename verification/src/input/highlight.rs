//! Click highlights: short-lived rings drawn where the mouse was clicked.
//!
//! The state keeps which highlights are alive and what part of the surface
//! they cover; times are nanoseconds on a monotonic clock of the caller's.
use vstd::prelude::*;

use crate::draw::dirty::{DirtyTracker, DirtyView, dirty_wf, mark_full_spec, mark_rect_spec};
use crate::draw::rect::Rect;

verus! {

/// The most highlights shown at once; a new one replaces the oldest.
pub const MAX_ACTIVE_HIGHLIGHTS: usize = 4;

/// The largest half-size of a highlight's square.
pub const MAX_HIGHLIGHT_EXTENT: i32 = 0x2000_0000;

/// One highlight: where it was clicked, when, and the area last marked for it.
#[derive(Debug, Clone, Copy, PartialEq, Eq, Structural)]
pub struct ActiveHighlight {
    pub x: i32,
    pub y: i32,
    pub started_at: u64,
    pub last_bounds: Option<Rect>,
}

/// The state of the highlights.
pub struct HighlightView {
    pub enabled: bool,
    pub extent: i32,
    pub duration: u64,
    pub highlights: Seq<ActiveHighlight>,
}

/// Runtime click highlight state.
pub struct ClickHighlightState {
    enabled: bool,
    /// Half the side of the square a highlight covers, padding included.
    extent: i32,
    /// How long a highlight lives, in nanoseconds.
    duration: u64,
    highlights: Vec<ActiveHighlight>,
}

impl View for ClickHighlightState {
    type V = HighlightView;

    closed spec fn view(&self) -> HighlightView {
        HighlightView {
            enabled: self.enabled,
            extent: self.extent,
            duration: self.duration,
            highlights: self.highlights@,
        }
    }
}

/// The square a highlight at `(x, y)` covers.
pub open spec fn highlight_bounds(extent: i32, x: i32, y: i32) -> Option<Rect> {
    if extent > 0 {
        Some(Rect { x: (x - extent) as i32, y: (y - extent) as i32, width: (2 * extent) as i32, height: (2 * extent) as i32 })
    } else {
        None
    }
}

/// A highlight at `(x, y)` has its square within `i32` coordinates.
pub open spec fn highlight_fits(extent: i32, x: i32, y: i32) -> bool {
    x - extent >= i32::MIN && y - extent >= i32::MIN
}

pub open spec fn highlight_wf(v: HighlightView) -> bool {
    &&& 0 <= v.extent <= MAX_HIGHLIGHT_EXTENT
    &&& v.highlights.len() <= MAX_ACTIVE_HIGHLIGHTS
    &&& forall|i: int| 0 <= i < v.highlights.len() ==> highlight_fits(v.extent, #[trigger] v.highlights[i].x, v.highlights[i].y)
}

/// Marks a rectangle when present.
pub open spec fn mark_opt(d: DirtyView, r: Option<Rect>) -> DirtyView {
    match r {
        Some(b) => mark_rect_spec(d, b),
        None => d,
    }
}

/// The tracker after marking the last area of each highlight, in order.
pub open spec fn mark_last_bounds(d: DirtyView, hs: Seq<ActiveHighlight>) -> DirtyView
    decreases hs.len(),
{
    if hs.len() == 0 {
        d
    } else {
        mark_last_bounds(mark_opt(d, hs[0].last_bounds), hs.drop_first())
    }
}

/// Whether a highlight started at `started_at` still shows at `now`.
pub open spec fn highlight_alive(started_at: u64, now: u64, duration: u64) -> bool {
    (if now >= started_at { now - started_at } else { 0 }) < duration
}

/// The highlight with its area brought up to date.
pub open spec fn refreshed(h: ActiveHighlight, extent: i32) -> ActiveHighlight {
    match highlight_bounds(extent, h.x, h.y) {
        Some(b) => ActiveHighlight { last_bounds: Some(b), ..h },
        None => h,
    }
}

/// The tracker after advancing `hs` to `now`: each highlight's square is
/// marked, and marked once more when the highlight ends.
pub open spec fn advance_dirty(d: DirtyView, hs: Seq<ActiveHighlight>, now: u64, duration: u64, extent: i32) -> DirtyView
    decreases hs.len(),
{
    if hs.len() == 0 {
        d
    } else {
        let h = refreshed(hs[0], extent);
        let d1 = mark_opt(d, highlight_bounds(extent, hs[0].x, hs[0].y));
        let d2 = if highlight_alive(h.started_at, now, duration) { d1 } else { mark_opt(d1, h.last_bounds) };
        advance_dirty(d2, hs.drop_first(), now, duration, extent)
    }
}

/// The highlights still alive at `now`, with their areas brought up to date.
pub open spec fn advance_kept(hs: Seq<ActiveHighlight>, now: u64, duration: u64, extent: i32) -> Seq<ActiveHighlight>
    decreases hs.len(),
{
    if hs.len() == 0 {
        Seq::empty()
    } else {
        let h = refreshed(hs[0], extent);
        let rest = advance_kept(hs.drop_first(), now, duration, extent);
        if highlight_alive(h.started_at, now, duration) {
            seq![h] + rest
        } else {
            rest
        }
    }
}

/// Spawning a highlight at `(x, y)` at `now`: nothing when highlights are
/// off; otherwise the oldest goes when four are shown (its area marked) and
/// the new one is added with its area marked. The flag says whether one was added.
pub open spec fn spawn_spec(h: HighlightView, d: DirtyView, x: i32, y: i32, now: u64) -> (HighlightView, DirtyView, bool) {
    if !h.enabled {
        (h, d, false)
    } else {
        let hs = h.highlights;
        let full = hs.len() >= MAX_ACTIVE_HIGHLIGHTS;
        let kept = if full { hs.drop_first() } else { hs };
        let d1 = if full { mark_opt(d, hs[0].last_bounds) } else { d };
        let nb = highlight_bounds(h.extent, x, y);
        (
            HighlightView { highlights: kept.push(ActiveHighlight { x, y, started_at: now, last_bounds: nb }), ..h },
            mark_opt(d1, nb),
            true,
        )
    }
}

proof fn lemma_advance_kept_bounded(hs: Seq<ActiveHighlight>, now: u64, duration: u64, extent: i32)
    ensures
        advance_kept(hs, now, duration, extent).len() <= hs.len(),
        forall|i: int| 0 <= i < advance_kept(hs, now, duration, extent).len() ==> exists|j: int| 0 <= j < hs.len()
            && #[trigger] advance_kept(hs, now, duration, extent)[i].x == hs[j].x
            && advance_kept(hs, now, duration, extent)[i].y == hs[j].y,
    decreases hs.len(),
{
    if hs.len() > 0 {
        lemma_advance_kept_bounded(hs.drop_first(), now, duration, extent);
        let rest = advance_kept(hs.drop_first(), now, duration, extent);
        let k = advance_kept(hs, now, duration, extent);
        assert forall|i: int| 0 <= i < k.len() implies exists|j: int| 0 <= j < hs.len()
            && #[trigger] k[i].x == hs[j].x && k[i].y == hs[j].y by {
            let h = refreshed(hs[0], extent);
            if highlight_alive(h.started_at, now, duration) {
                if i == 0 {
                    assert(k[0] == h);
                    assert(k[i].x == hs[0].x && k[i].y == hs[0].y);
                } else {
                    assert(k[i] == rest[i - 1]);
                    let j0 = choose|j: int| 0 <= j < hs.drop_first().len() && rest[i - 1].x == hs.drop_first()[j].x
                        && rest[i - 1].y == hs.drop_first()[j].y;
                    assert(hs.drop_first()[j0] == hs[j0 + 1]);
                }
            } else {
                assert(k[i] == rest[i]);
                let j0 = choose|j: int| 0 <= j < hs.drop_first().len() && rest[i].x == hs.drop_first()[j].x
                    && rest[i].y == hs.drop_first()[j].y;
                assert(hs.drop_first()[j0] == hs[j0 + 1]);
            }
        }
    }
}

/// Advancing to `now` keeps, in their order, exactly the highlights that
/// started less than `duration` nanoseconds before `now` (one stamped after
/// `now` counts as just started); each keeps its place and start time and,
/// when highlights have a size, gets its square as its last area.
pub proof fn law_advance_keeps_the_alive(hs: Seq<ActiveHighlight>, now: u64, duration: u64, extent: i32)
    ensures
        advance_kept(hs, now, duration, extent) == hs.filter(
            |h: ActiveHighlight|
                (now < h.started_at && 0 < duration) || (h.started_at <= now && now - h.started_at < duration),
        ).map_values(
            |h: ActiveHighlight|
                ActiveHighlight {
                    x: h.x,
                    y: h.y,
                    started_at: h.started_at,
                    last_bounds: if extent > 0 {
                        Some(Rect {
                            x: (h.x - extent) as i32,
                            y: (h.y - extent) as i32,
                            width: (2 * extent) as i32,
                            height: (2 * extent) as i32,
                        })
                    } else {
                        h.last_bounds
                    },
                },
        ),
    decreases hs.len(),
{
    let p = |h: ActiveHighlight|
        (now < h.started_at && 0 < duration) || (h.started_at <= now && now - h.started_at < duration);
    let f = |h: ActiveHighlight|
        ActiveHighlight {
            x: h.x,
            y: h.y,
            started_at: h.started_at,
            last_bounds: if extent > 0 {
                Some(Rect {
                    x: (h.x - extent) as i32,
                    y: (h.y - extent) as i32,
                    width: (2 * extent) as i32,
                    height: (2 * extent) as i32,
                })
            } else {
                h.last_bounds
            },
        };
    if hs.len() == 0 {
        reveal(Seq::filter);
        assert(hs.filter(p) =~= Seq::<ActiveHighlight>::empty());
        assert(hs.filter(p).map_values(f) =~= Seq::<ActiveHighlight>::empty());
    } else {
        let rest = hs.drop_first();
        law_advance_keeps_the_alive(rest, now, duration, extent);
        assert(hs =~= seq![hs[0]] + rest);
        rest.lemma_filter_prepend(hs[0], p);
        let h = refreshed(hs[0], extent);
        assert(h == f(hs[0]));
        assert(highlight_alive(h.started_at, now, duration) == p(hs[0]));
        if p(hs[0]) {
            assert((seq![hs[0]] + rest.filter(p)).map_values(f) =~= seq![h] + rest.filter(p).map_values(f));
        } else {
            assert((Seq::<ActiveHighlight>::empty() + rest.filter(p)) =~= rest.filter(p));
        }
    }
}

impl ClickHighlightState {
    pub closed spec fn wf(&self) -> bool {
        highlight_wf(self@)
    }

    /// A state with no highlight; `extent` is half the side of a highlight's
    /// square and `duration` its lifetime in nanoseconds.
    pub fn new(enabled: bool, extent: i32, duration: u64) -> (s: Self)
        requires
            0 <= extent <= MAX_HIGHLIGHT_EXTENT,
        ensures
            s.wf(),
            s@ == (HighlightView { enabled, extent, duration, highlights: Seq::empty() }),
    {
        Self { enabled, extent, duration, highlights: Vec::new() }
    }

    /// Whether highlights are shown.
    pub fn enabled(&self) -> (b: bool)
        ensures
            b == self@.enabled,
    {
        self.enabled
    }

    /// Half the side of the square a highlight covers.
    pub fn extent(&self) -> (e: i32)
        ensures
            e == self@.extent,
    {
        self.extent
    }

    /// The highlights alive, oldest first.
    pub fn highlights(&self) -> (r: &Vec<ActiveHighlight>)
        ensures
            r@ == self@.highlights,
    {
        &self.highlights
    }

    /// Whether a highlight is alive.
    pub fn has_active(&self) -> (b: bool)
        ensures
            b == (self@.highlights.len() > 0),
    {
        self.highlights.len() > 0
    }

    /// The square a highlight at `(x, y)` covers.
    pub fn bounds_for(&self, x: i32, y: i32) -> (r: Option<Rect>)
        requires
            self.wf(),
            highlight_fits(self@.extent, x, y),
        ensures
            r == highlight_bounds(self@.extent, x, y),
    {
        let e = self.extent;
        Rect::new(x - e, y - e, e * 2, e * 2)
    }

    /// Removes every highlight, marking the area each covered.
    pub fn clear_all(&mut self, tracker: &mut DirtyTracker)
        requires
            old(self).wf(),
            dirty_wf(old(tracker)@),
        ensures
            final(self).wf(),
            dirty_wf(final(tracker)@),
            final(tracker)@ == mark_last_bounds(old(tracker)@, old(self)@.highlights),
            final(self)@ == (HighlightView { highlights: Seq::empty(), ..old(self)@ }),
    {
        let mut i: usize = 0;
        proof {
            assert(self.highlights@.skip(0) =~= self.highlights@);
        }
        while i < self.highlights.len()
            invariant
                i <= self.highlights.len(),
                dirty_wf(tracker@),
                mark_last_bounds(old(tracker)@, self.highlights@) == mark_last_bounds(
                    tracker@,
                    self.highlights@.skip(i as int),
                ),
                self@ == old(self)@,
            decreases self.highlights.len() - i,
        {
            proof {
                assert(self.highlights@.skip(i as int).drop_first() =~= self.highlights@.skip(i as int + 1));
            }
            if let Some(bounds) = self.highlights[i].last_bounds {
                tracker.mark_rect(bounds);
            }
            i += 1;
        }
        proof {
            assert(self.highlights@.skip(i as int) =~= Seq::<ActiveHighlight>::empty());
        }
        self.highlights.clear();
    }

    /// Turns highlights on or off (dropping those shown when turning off),
    /// marks the whole surface, and returns whether they are now on.
    pub fn toggle(&mut self, tracker: &mut DirtyTracker) -> (enabled: bool)
        requires
            old(self).wf(),
            dirty_wf(old(tracker)@),
        ensures
            final(self).wf(),
            dirty_wf(final(tracker)@),
            enabled == !old(self)@.enabled,
            final(tracker)@ == mark_full_spec(old(tracker)@),
            final(self)@ == (HighlightView {
                enabled,
                highlights: if enabled { old(self)@.highlights } else { Seq::empty() },
                ..old(self)@
            }),
    {
        self.enabled = !self.enabled;
        if !self.enabled {
            self.clear_all(tracker);
        }
        tracker.mark_full();
        self.enabled
    }

    /// Adds a highlight at `(x, y)` started at `now`, when highlights are on:
    /// the oldest goes first when four are shown. The areas of the removed
    /// and the new highlight are marked. Returns whether one was added.
    pub fn spawn(&mut self, x: i32, y: i32, now: u64, tracker: &mut DirtyTracker) -> (added: bool)
        requires
            old(self).wf(),
            dirty_wf(old(tracker)@),
            highlight_fits(old(self)@.extent, x, y),
        ensures
            final(self).wf(),
            dirty_wf(final(tracker)@),
            (final(self)@, final(tracker)@, added) == spawn_spec(old(self)@, old(tracker)@, x, y, now),
    {
        if !self.enabled {
            return false;
        }
        if self.highlights.len() >= MAX_ACTIVE_HIGHLIGHTS {
            if let Some(bounds) = self.highlights[0].last_bounds {
                tracker.mark_rect(bounds);
            }
            let ghost before = self.highlights@;
            self.highlights.remove(0);
            proof {
                assert(self.highlights@ =~= before.drop_first());
            }
        }
        let bounds = self.bounds_for(x, y);
        let highlight = ActiveHighlight { x, y, started_at: now, last_bounds: bounds };
        if let Some(b) = bounds {
            tracker.mark_rect(b);
        }
        self.highlights.push(highlight);
        proof {
            assert forall|i: int| 0 <= i < self.highlights@.len() implies highlight_fits(
                self.extent,
                #[trigger] self.highlights@[i].x,
                self.highlights@[i].y,
            ) by {
                if i < self.highlights@.len() - 1 {
                    if old(self)@.highlights.len() >= MAX_ACTIVE_HIGHLIGHTS {
                        assert(self.highlights@[i] == old(self)@.highlights[i + 1]);
                    } else {
                        assert(self.highlights@[i] == old(self)@.highlights[i]);
                    }
                }
            }
        }
        true
    }

    /// Advances the highlights to `now`: every highlight's square is marked
    /// for repaint, ended ones are dropped (their square marked once more).
    /// Returns whether any highlight is still alive.
    pub fn advance(&mut self, now: u64, tracker: &mut DirtyTracker) -> (alive: bool)
        requires
            old(self).wf(),
            dirty_wf(old(tracker)@),
        ensures
            final(self).wf(),
            dirty_wf(final(tracker)@),
            final(self)@ == (HighlightView {
                highlights: advance_kept(old(self)@.highlights, now, old(self)@.duration, old(self)@.extent),
                ..old(self)@
            }),
            final(tracker)@ == advance_dirty(
                old(tracker)@,
                old(self)@.highlights,
                now,
                old(self)@.duration,
                old(self)@.extent,
            ),
            alive == (final(self)@.highlights.len() > 0),
    {
        if self.highlights.len() == 0 {
            proof {
                assert(self.highlights@ =~= Seq::<ActiveHighlight>::empty());
            }
            return false;
        }
        let ghost hs = self.highlights@;
        let mut kept: Vec<ActiveHighlight> = Vec::new();
        let mut i: usize = 0;
        proof {
            assert(hs.skip(0) =~= hs);
            assert(kept@ + advance_kept(hs, now, self.duration, self.extent) =~= advance_kept(hs, now, self.duration, self.extent));
        }
        while i < self.highlights.len()
            invariant
                i <= self.highlights.len(),
                self@ == old(self)@,
                hs == self.highlights@,
                highlight_wf(old(self)@),
                dirty_wf(tracker@),
                advance_dirty(old(tracker)@, hs, now, self.duration, self.extent) == advance_dirty(
                    tracker@,
                    hs.skip(i as int),
                    now,
                    self.duration,
                    self.extent,
                ),
                advance_kept(hs, now, self.duration, self.extent) == kept@ + advance_kept(
                    hs.skip(i as int),
                    now,
                    self.duration,
                    self.extent,
                ),
            decreases self.highlights.len() - i,
        {
            proof {
                assert(hs.skip(i as int).drop_first() =~= hs.skip(i as int + 1));
                assert(hs.skip(i as int)[0] == hs[i as int]);
            }
            let h = self.highlights[i];
            let elapsed: u64 = if now >= h.started_at { now - h.started_at } else { 0 };
            let alive = elapsed < self.duration;
            let bounds = self.bounds_for(h.x, h.y);
            let mut updated = h;
            if let Some(b) = bounds {
                tracker.mark_rect(b);
                updated.last_bounds = Some(b);
            }
            if alive {
                let ghost before = kept@;
                kept.push(updated);
                proof {
                    assert(kept@ =~= before + seq![updated]);
                    assert(before + seq![updated] + advance_kept(hs.skip(i as int + 1), now, self.duration, self.extent)
                        =~= before + (seq![updated] + advance_kept(hs.skip(i as int + 1), now, self.duration, self.extent)));
                }
            } else if let Some(prev) = updated.last_bounds {
                tracker.mark_rect(prev);
            }
            i += 1;
        }
        proof {
            assert(hs.skip(i as int) =~= Seq::<ActiveHighlight>::empty());
            assert(kept@ + Seq::<ActiveHighlight>::empty() =~= kept@);
            lemma_advance_kept_bounded(hs, now, self.duration, self.extent);
        }
        self.highlights = kept;
        proof {
            assert forall|k: int| 0 <= k < self.highlights@.len() implies highlight_fits(
                self.extent,
                #[trigger] self.highlights@[k].x,
                self.highlights@[k].y,
            ) by {
                let j = choose|j: int| 0 <= j < hs.len() && self.highlights@[k].x == hs[j].x && self.highlights@[k].y
                    == hs[j].y;
                assert(highlight_fits(self.extent, hs[j].x, hs[j].y));
            }
        }
        self.highlights.len() > 0
    }
}

} // verus!
