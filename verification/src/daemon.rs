//! Daemon mode: the overlay's visibility state machine and the tray icon.
use vstd::prelude::*;

verus! {

/// Overlay state for daemon mode
#[derive(Debug, Clone, Copy, PartialEq, Eq, Structural)]
pub enum OverlayState {
    /// Daemon running, overlay not visible
    Hidden,
    /// Overlay active, capturing input
    Visible,
}

/// What one pass of the daemon loop does.
#[derive(Debug, Clone, Copy, PartialEq, Eq, Structural)]
pub enum DaemonStep {
    /// Leave the loop and shut down.
    Quit,
    /// Toggle the overlay, then wait.
    Toggle,
    /// Wait for the next pass.
    Wait,
}

/// One pass of the daemon loop: a quit request wins over a toggle request.
pub fn daemon_step(quit_requested: bool, toggle_requested: bool) -> (s: DaemonStep)
    ensures
        quit_requested ==> s == DaemonStep::Quit,
        !quit_requested && toggle_requested ==> s == DaemonStep::Toggle,
        !quit_requested && !toggle_requested ==> s == DaemonStep::Wait,
{
    if quit_requested {
        DaemonStep::Quit
    } else if toggle_requested {
        DaemonStep::Toggle
    } else {
        DaemonStep::Wait
    }
}

/// The overlay's visibility, driven by toggle requests.
#[derive(Debug)]
pub struct OverlayControl {
    state: OverlayState,
}

impl View for OverlayControl {
    type V = OverlayState;

    closed spec fn view(&self) -> OverlayState {
        self.state
    }
}

impl OverlayControl {
    /// A hidden overlay.
    pub fn new() -> (c: Self)
        ensures
            c@ == OverlayState::Hidden,
    {
        OverlayControl { state: OverlayState::Hidden }
    }

    /// The current state.
    pub fn state(&self) -> (s: OverlayState)
        ensures
            s == self@,
    {
        self.state
    }

    /// Starts showing the overlay. Returns whether the backend must now run
    /// (it must not when the overlay is already visible).
    pub fn begin_show(&mut self) -> (run_backend: bool)
        ensures
            run_backend == (old(self)@ == OverlayState::Hidden),
            final(self)@ == OverlayState::Visible,
    {
        if self.state == OverlayState::Visible {
            return false;
        }
        self.state = OverlayState::Visible;
        true
    }

    /// Records that the backend has returned: the overlay was closed.
    pub fn end_show(&mut self)
        ensures
            final(self)@ == OverlayState::Hidden,
    {
        self.state = OverlayState::Hidden;
    }

    /// Hides the overlay (nothing to do when already hidden).
    pub fn hide_overlay(&mut self)
        ensures
            final(self)@ == OverlayState::Hidden,
    {
        if self.state == OverlayState::Hidden {
            return;
        }
        self.state = OverlayState::Hidden;
    }

    /// Whether a toggle shows the overlay (rather than hiding it).
    pub fn toggle_shows(&self) -> (b: bool)
        ensures
            b == (self@ == OverlayState::Hidden),
    {
        match self.state {
            OverlayState::Hidden => true,
            OverlayState::Visible => false,
        }
    }
}

/// The daemon's overlay control: shows the overlay by running the backend
/// (`F`, given the starting board mode), which blocks until the overlay is
/// closed.
pub struct Daemon<F> {
    /// Whether the overlay is shown.
    pub overlay_state: OverlayState,
    initial_mode: Option<String>,
    backend_runner: F,
}

impl<E, F: Fn(Option<String>) -> Result<(), E>> Daemon<F> {
    /// Whether the overlay is shown.
    pub closed spec fn state_spec(&self) -> OverlayState {
        self.overlay_state
    }

    /// The backend may be run with any starting mode.
    pub closed spec fn runner_ready(&self) -> bool {
        forall|m: Option<String>| #[trigger] self.backend_runner.requires((m,))
    }

    /// The board mode the backend is started with.
    pub closed spec fn initial_mode_spec(&self) -> Option<String> {
        self.initial_mode
    }

    /// `r` is what one run of the backend gives when started with the
    /// daemon's starting mode.
    pub closed spec fn backend_gave(&self, r: Result<(), E>) -> bool {
        self.backend_runner.ensures((self.initial_mode,), r)
    }

    /// `self` runs the same backend with the same starting mode as `other`.
    pub closed spec fn same_backend(&self, other: &Self) -> bool {
        self.backend_runner == other.backend_runner && self.initial_mode == other.initial_mode
    }

    /// A hidden overlay that shows by calling `backend_runner` with `initial_mode`.
    pub fn with_backend_runner(initial_mode: Option<String>, backend_runner: F) -> (d: Self)
        requires
            forall|m: Option<String>| #[trigger] backend_runner.requires((m,)),
        ensures
            d.runner_ready(),
            d.state_spec() == OverlayState::Hidden,
            d.initial_mode_spec() == initial_mode,
    {
        Daemon { overlay_state: OverlayState::Hidden, initial_mode, backend_runner }
    }

    /// The overlay's current state.
    pub fn test_state(&self) -> (s: OverlayState)
        ensures
            s == self.state_spec(),
    {
        self.overlay_state
    }

    /// Shows the overlay when hidden and hides it when shown.
    pub fn toggle_overlay(&mut self) -> (r: Result<(), E>)
        requires
            old(self).runner_ready(),
        ensures
            final(self).runner_ready(),
            final(self).same_backend(old(self)),
            final(self).state_spec() == OverlayState::Hidden,
            old(self).state_spec() == OverlayState::Hidden ==> old(self).backend_gave(r),
            old(self).state_spec() == OverlayState::Visible ==> r is Ok,
    {
        match self.overlay_state {
            OverlayState::Hidden => self.show_overlay(),
            OverlayState::Visible => self.hide_overlay(),
        }
    }

    /// Shows the overlay: runs the backend, which returns once the overlay
    /// is closed, and passes on what it gave. Nothing happens when the
    /// overlay is already shown.
    pub fn show_overlay(&mut self) -> (r: Result<(), E>)
        requires
            old(self).runner_ready(),
        ensures
            final(self).runner_ready(),
            final(self).same_backend(old(self)),
            final(self).state_spec() == (if old(self).state_spec() == OverlayState::Visible {
                OverlayState::Visible
            } else {
                OverlayState::Hidden
            }),
            old(self).state_spec() == OverlayState::Hidden ==> old(self).backend_gave(r),
            old(self).state_spec() == OverlayState::Visible ==> r is Ok,
    {
        if self.overlay_state == OverlayState::Visible {
            return Ok(());
        }
        self.overlay_state = OverlayState::Visible;
        let mode = self.initial_mode.clone();
        proof {
            if self.initial_mode is Some {
                assert(cloned::<String>(self.initial_mode.unwrap(), mode.unwrap()));
            }
            assert(mode == self.initial_mode);
        }
        let result = (self.backend_runner)(mode);
        self.overlay_state = OverlayState::Hidden;
        result
    }

    /// Hides the overlay (it closes for good when the backend returns).
    pub fn hide_overlay(&mut self) -> (r: Result<(), E>)
        requires
            old(self).runner_ready(),
        ensures
            final(self).runner_ready(),
            final(self).same_backend(old(self)),
            final(self).state_spec() == OverlayState::Hidden,
            r is Ok,
    {
        if self.overlay_state == OverlayState::Hidden {
            return Ok(());
        }
        self.overlay_state = OverlayState::Hidden;
        Ok(())
    }
}

/// What a toggle does from state `s`: whether the backend runs, and the
/// state once the toggle has finished (the backend returns when the overlay
/// is closed).
pub open spec fn toggle_effect(s: OverlayState) -> (bool, OverlayState) {
    match s {
        OverlayState::Hidden => (true, OverlayState::Hidden),
        OverlayState::Visible => (false, OverlayState::Hidden),
    }
}

/// Law: a toggle always ends with the overlay hidden, and runs the backend
/// exactly when the overlay was hidden; so a second toggle runs it again.
pub proof fn law_toggle_ends_hidden(s: OverlayState)
    ensures
        toggle_effect(s).1 == OverlayState::Hidden,
        toggle_effect(s).0 == (s == OverlayState::Hidden),
        toggle_effect(toggle_effect(s).1).0,
{
}

/// Side length of the tray icon in pixels.
pub const ICON_SIZE: usize = 22;

/// The ARGB colour of tray icon pixel `(x, y)`: a small pen drawn in grey,
/// brown, yellow, light grey and pink on a transparent background.
pub open spec fn icon_argb(x: int, y: int) -> (u8, u8, u8, u8) {
    if 2 <= x <= 4 && 2 <= y <= 4 {
        (255, 60, 60, 60)
    } else if 3 <= x <= 5 && 5 <= y <= 7 {
        (255, 180, 120, 60)
    } else if 4 <= x <= 8 && 6 <= y <= 14 {
        (255, 255, 220, 0)
    } else if 7 <= x <= 9 && 13 <= y <= 17 {
        (255, 180, 180, 180)
    } else if 8 <= x <= 11 && 16 <= y <= 19 {
        (255, 255, 150, 180)
    } else {
        (0, 0, 0, 0)
    }
}

fn pixel_argb(x: usize, y: usize) -> (p: (u8, u8, u8, u8))
    ensures
        p == icon_argb(x as int, y as int),
{
    if 2 <= x && x <= 4 && 2 <= y && y <= 4 {
        (255, 60, 60, 60)
    } else if 3 <= x && x <= 5 && 5 <= y && y <= 7 {
        (255, 180, 120, 60)
    } else if 4 <= x && x <= 8 && 6 <= y && y <= 14 {
        (255, 255, 220, 0)
    } else if 7 <= x && x <= 9 && 13 <= y && y <= 17 {
        (255, 180, 180, 180)
    } else if 8 <= x && x <= 11 && 16 <= y && y <= 19 {
        (255, 255, 150, 180)
    } else {
        (0, 0, 0, 0)
    }
}

/// Bytes `4 * (22 * y + x)` onwards of `data` hold pixel `(x, y)` in ARGB order.
pub open spec fn pixel_stored(data: Seq<u8>, x: int, y: int) -> bool {
    let p = icon_argb(x, y);
    let i = (y * 22 + x) * 4;
    &&& data[i] == p.0
    &&& data[i + 1] == p.1
    &&& data[i + 2] == p.2
    &&& data[i + 3] == p.3
}

/// The tray icon's pixel data: rows top to bottom, pixels left to right,
/// four bytes per pixel in the order alpha, red, green, blue.
pub fn tray_icon_pixels() -> (data: Vec<u8>)
    ensures
        data@.len() == 22 * 22 * 4,
        forall|y: int, x: int| 0 <= y < 22 && 0 <= x < 22 ==> #[trigger] pixel_stored(data@, x, y),
{
    let size: usize = ICON_SIZE;
    let mut data: Vec<u8> = Vec::new();
    let mut y: usize = 0;
    while y < size
        invariant
            size == 22,
            y <= size,
            data@.len() == y * 22 * 4,
            forall|yy: int, x: int| 0 <= yy < y && 0 <= x < 22 ==> #[trigger] pixel_stored(data@, x, yy),
        decreases size - y,
    {
        let mut x: usize = 0;
        while x < size
            invariant
                size == 22,
                y < size,
                x <= size,
                data@.len() == (y * 22 + x) * 4,
                forall|yy: int, xx: int|
                    (0 <= yy < y && 0 <= xx < 22) || (yy == y && 0 <= xx < x) ==> #[trigger] pixel_stored(data@, xx, yy),
            decreases size - x,
        {
            let (a, r, g, b) = pixel_argb(x, y);
            let ghost before = data@;
            data.push(a);
            data.push(r);
            data.push(g);
            data.push(b);
            proof {
                assert forall|yy: int, xx: int|
                    (0 <= yy < y && 0 <= xx < 22) || (yy == y && 0 <= xx < x + 1) implies #[trigger] pixel_stored(data@, xx, yy) by {
                    let i = (yy * 22 + xx) * 4;
                    if yy == y && xx == x {
                        assert(i == before.len());
                    } else {
                        assert(yy * 22 + xx < y * 22 + x) by (nonlinear_arith)
                            requires
                                (0 <= yy < y && 0 <= xx < 22) || (yy == y && 0 <= xx < x),
                        ;
                        assert(pixel_stored(before, xx, yy));
                        assert(i + 3 < before.len()) by (nonlinear_arith)
                            requires
                                yy * 22 + xx < y * 22 + x,
                                i == (yy * 22 + xx) * 4,
                                before.len() == (y * 22 + x) * 4,
                        ;
                        assert(data@[i] == before[i]);
                        assert(data@[i + 1] == before[i + 1]);
                        assert(data@[i + 2] == before[i + 2]);
                        assert(data@[i + 3] == before[i + 3]);
                    }
                }
            }
            x += 1;
        }
        y += 1;
    }
    data
}

} // verus!
