use wayscriber::draw::dirty::DirtyTracker;
use wayscriber::draw::rect::Rect;
use wayscriber::input::highlight::ClickHighlightState;

const MS: u64 = 1_000_000;

/// The state the disabled default settings give: radius 48 and outline 4
/// make a square of half-side ceil(48 + 4) + 2 = 54; highlights last 750 ms.
fn default_state() -> ClickHighlightState {
    ClickHighlightState::new(false, 54, 750 * MS)
}

#[test]
fn spawn_returns_false_when_disabled() {
    let mut state = default_state();
    let mut tracker = DirtyTracker::new();
    assert!(!state.spawn(100, 100, 0, &mut tracker));
}

#[test]
fn toggle_enables_highlight() {
    let mut state = default_state();
    let mut tracker = DirtyTracker::new();
    assert!(state.toggle(&mut tracker));
    assert!(state.enabled());
}

#[test]
fn advance_drops_expired_highlights() {
    let mut state = ClickHighlightState::new(true, 54, 10 * MS);
    let mut tracker = DirtyTracker::new();
    assert!(state.spawn(0, 0, 0, &mut tracker));
    let alive = state.advance(20 * MS, &mut tracker);
    assert!(!alive);
    assert!(!state.has_active());
}

#[test]
fn highlights_mark_their_squares_and_keep_four() {
    let mut state = ClickHighlightState::new(true, 10, 100 * MS);
    let mut tracker = DirtyTracker::new();
    assert_eq!(state.bounds_for(50, 60), Some(Rect { x: 40, y: 50, width: 20, height: 20 }));
    for i in 0..5 {
        assert!(state.spawn(i * 100, 0, i as u64, &mut tracker));
    }
    assert_eq!(state.highlights().len(), 4);
    assert_eq!(state.highlights()[0].x, 100);
    let regions = tracker.take_regions(1000, 1000);
    // five new squares, and the square of the one dropped
    assert_eq!(regions.len(), 6);
    assert_eq!(regions[4], Rect { x: -10, y: -10, width: 20, height: 20 });
    assert_eq!(regions[5], Rect { x: 390, y: -10, width: 20, height: 20 });

    assert!(state.advance(50 * MS, &mut tracker));
    assert_eq!(tracker.take_regions(1000, 1000).len(), 4);
    state.clear_all(&mut tracker);
    assert!(!state.has_active());
    assert_eq!(tracker.take_regions(1000, 1000).len(), 4);
    assert!(!state.toggle(&mut tracker));
    assert!(!state.spawn(0, 0, 0, &mut tracker));
}
