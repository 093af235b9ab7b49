//! Drawing state machine and input state management.
//!
//! The input state holds every decision the overlay makes on a key or a
//! mouse event. It is generic over the shape type `S` and the color type `C`:
//! it keeps, compares and restores them but never computes with them. What
//! needs the stroke width, the font size or other measures is handed back to
//! the caller as an [`InputEffect`] or a [`ShapeGeometry`].
use vstd::prelude::*;

use crate::capture::plan::capture_request_spec;
use crate::config::keybindings::{Action, ActionMap, BindingView, first_match};
use crate::draw::canvas_set::{CanvasSet, CanvasView, active_shapes, with_active};
use crate::draw::dirty::{DirtyTracker, DirtyView, dirty_wf, empty_dirty, mark_full_spec, mark_rect_spec, take_regions_spec};
use crate::draw::frame::shape_fits;
use crate::draw::geometry::{
    GeometryView, ShapeGeometry, copy_points, drag_fits, drag_geometry, drag_in_range, drag_shape,
    geometry_opt_view,
};
use crate::draw::rect::Rect;
use crate::input::board_mode::{BoardMode, BoardSettings, board_pen};
use crate::input::events::{Key, MouseButton, key_name};
use crate::input::highlight::{
    ClickHighlightState, HighlightView, advance_dirty, advance_kept, highlight_fits, mark_last_bounds, spawn_spec,
};
use crate::input::modifiers::{Modifiers, tool_for};
use crate::input::tool::Tool;
use crate::text::{chars_to_string, push_char, str_chars, sub_chars};

verus! {

/// The most characters a text being typed may hold; further keys are ignored.
pub const MAX_TEXT_LEN: usize = 10000;

/// Current drawing mode state machine.
///
/// Tracks whether the user is idle, actively drawing a shape, or entering text.
/// State transitions occur based on mouse and keyboard events.
#[derive(Debug)]
pub enum DrawingState {
    /// Not actively drawing - waiting for user input
    Idle,
    /// Actively drawing a shape (mouse button held down)
    Drawing {
        /// Which tool is being used for this shape
        tool: Tool,
        /// Starting X coordinate (where mouse was pressed)
        start_x: i32,
        /// Starting Y coordinate (where mouse was pressed)
        start_y: i32,
        /// Accumulated points for freehand drawing
        points: Vec<(i32, i32)>,
    },
    /// Text input mode - user is typing text to place on screen
    TextInput {
        /// X coordinate where text will be placed
        x: i32,
        /// Y coordinate where text will be placed
        y: i32,
        /// Accumulated text buffer
        buffer: String,
    },
}

/// A drawing state with its points and text as sequences.
pub enum DrawingView {
    Idle,
    Drawing { tool: Tool, start_x: i32, start_y: i32, points: Seq<(i32, i32)> },
    TextInput { x: i32, y: i32, buffer: Seq<char> },
}

impl View for DrawingState {
    type V = DrawingView;

    open spec fn view(&self) -> DrawingView {
        match *self {
            DrawingState::Idle => DrawingView::Idle,
            DrawingState::Drawing { tool, start_x, start_y, points } => DrawingView::Drawing {
                tool,
                start_x,
                start_y,
                points: points@,
            },
            DrawingState::TextInput { x, y, buffer } => DrawingView::TextInput { x, y, buffer: buffer@ },
        }
    }
}

/// The pens that the color actions select.
#[derive(Debug, Clone, Copy)]
pub struct PenColors<C> {
    pub red: C,
    pub green: C,
    pub blue: C,
    pub yellow: C,
    pub orange: C,
    pub pink: C,
    pub white: C,
    pub black: C,
}

/// What the caller has to do after an input event, beyond the state change.
#[derive(Debug, PartialEq, Eq)]
pub enum InputEffect {
    /// Nothing more.
    Nothing,
    /// Raise the stroke width by one step (up to its maximum).
    ThicknessUp,
    /// Lower the stroke width by one step (down to its minimum).
    ThicknessDown,
    /// Raise the font size by one step (the surface is already marked dirty).
    FontSizeUp,
    /// Lower the font size by one step (the surface is already marked dirty).
    FontSizeDown,
    /// The pen color changed with the board: bring the click highlight along.
    SyncHighlightColor,
    /// Place `text` at `(x, y)` as a text shape on the active frame.
    CommitText { x: i32, y: i32, text: String },
    /// Start the configuration editor.
    LaunchConfigurator,
}

/// An effect with its text as a sequence.
pub enum EffectView {
    Nothing,
    ThicknessUp,
    ThicknessDown,
    FontSizeUp,
    FontSizeDown,
    SyncHighlightColor,
    CommitText { x: i32, y: i32, text: Seq<char> },
    LaunchConfigurator,
}

pub open spec fn effect_view(e: InputEffect) -> EffectView {
    match e {
        InputEffect::Nothing => EffectView::Nothing,
        InputEffect::ThicknessUp => EffectView::ThicknessUp,
        InputEffect::ThicknessDown => EffectView::ThicknessDown,
        InputEffect::FontSizeUp => EffectView::FontSizeUp,
        InputEffect::FontSizeDown => EffectView::FontSizeDown,
        InputEffect::SyncHighlightColor => EffectView::SyncHighlightColor,
        InputEffect::CommitText { x, y, text } => EffectView::CommitText { x, y, text: text@ },
        InputEffect::LaunchConfigurator => EffectView::LaunchConfigurator,
    }
}

/// Main input state containing all drawing session state.
///
/// This struct holds the frames of shapes, the pen color, modifier keys,
/// drawing mode, and UI flags. It processes keyboard and mouse events to
/// update the drawing state and determine when redraws are needed.
pub struct InputState<S, C> {
    /// Multi-frame canvas management (transparent, whiteboard, blackboard)
    pub canvas_set: CanvasSet<S>,
    /// Current drawing color (changed with color keys: R, G, B, etc.)
    pub current_color: C,
    /// Current modifier key state
    pub modifiers: Modifiers,
    /// Current drawing mode state machine
    pub state: DrawingState,
    /// Whether user requested to exit the overlay
    pub should_exit: bool,
    /// Whether the display needs to be redrawn
    pub needs_redraw: bool,
    /// Whether the help overlay is currently visible (toggled with F10)
    pub show_help: bool,
    /// Whether the status bar is currently visible
    pub show_status_bar: bool,
    /// Screen width in pixels (set by backend after configuration)
    pub screen_width: u32,
    /// Screen height in pixels (set by backend after configuration)
    pub screen_height: u32,
    /// Previous color before entering board mode (for restoration)
    pub board_previous_color: Option<C>,
    /// Board mode configuration
    pub board_config: BoardSettings<C>,
    /// The pens of the color actions
    pub pen_colors: PenColors<C>,
    /// Maximum number of shapes allowed per frame (0 = unlimited)
    pub max_shapes_per_frame: usize,
    /// Tracks dirty regions between renders
    dirty_tracker: DirtyTracker,
    /// Cached bounds for the current provisional shape (if any)
    last_provisional_bounds: Option<Rect>,
    /// Cached bounds for live text preview/caret (if any)
    last_text_preview_bounds: Option<Rect>,
    /// Keybinding action map for lookup
    action_map: ActionMap,
    /// Optional tool override independent of modifier keys
    tool_override: Option<Tool>,
    /// Click highlight animation state
    click_highlight: ClickHighlightState,
    /// A capture shortcut that was pressed and is waiting for the backend
    pending_capture_action: Option<Action>,
}

/// The whole state of an [`InputState`].
pub struct InputView<S, C> {
    pub canvas: CanvasView<S>,
    pub current_color: C,
    pub modifiers: Modifiers,
    pub state: DrawingView,
    pub should_exit: bool,
    pub needs_redraw: bool,
    pub show_help: bool,
    pub show_status_bar: bool,
    pub screen_width: u32,
    pub screen_height: u32,
    pub board_previous_color: Option<C>,
    pub board_config: BoardSettings<C>,
    pub pen_colors: PenColors<C>,
    pub max_shapes_per_frame: usize,
    pub dirty: DirtyView,
    pub provisional_bounds: Option<Rect>,
    pub text_preview_bounds: Option<Rect>,
    pub bindings: Seq<(BindingView, Action)>,
    pub tool_override: Option<Tool>,
    pub highlight: HighlightView,
    pub pending_capture: Option<Action>,
}

impl<S, C> View for InputState<S, C> {
    type V = InputView<S, C>;

    closed spec fn view(&self) -> InputView<S, C> {
        InputView {
            canvas: self.canvas_set@,
            current_color: self.current_color,
            modifiers: self.modifiers,
            state: self.state@,
            should_exit: self.should_exit,
            needs_redraw: self.needs_redraw,
            show_help: self.show_help,
            show_status_bar: self.show_status_bar,
            screen_width: self.screen_width,
            screen_height: self.screen_height,
            board_previous_color: self.board_previous_color,
            board_config: self.board_config,
            pen_colors: self.pen_colors,
            max_shapes_per_frame: self.max_shapes_per_frame,
            dirty: self.dirty_tracker@,
            provisional_bounds: self.last_provisional_bounds,
            text_preview_bounds: self.last_text_preview_bounds,
            bindings: self.action_map@,
            tool_override: self.tool_override,
            highlight: self.click_highlight@,
            pending_capture: self.pending_capture_action,
        }
    }
}

// ---------------------------------------------------------------------------
// The model of each event.
// ---------------------------------------------------------------------------

/// The state marked for redraw.
pub open spec fn redrawn<S, C>(v: InputView<S, C>) -> InputView<S, C> {
    InputView { needs_redraw: true, ..v }
}

/// The action bound to the key named `name` under the held modifiers.
pub open spec fn lookup_action<S, C>(v: InputView<S, C>, name: Seq<char>) -> Option<Action> {
    first_match(v.bindings, name, v.modifiers.ctrl, v.modifiers.shift, v.modifiers.alt)
}

/// The shortcuts that take a screenshot; the backend performs them.
pub open spec fn is_capture_action(a: Action) -> bool {
    ||| a is CaptureFullScreen
    ||| a is CaptureActiveWindow
    ||| a is CaptureSelection
    ||| a is CaptureClipboardFull
    ||| a is CaptureFileFull
    ||| a is CaptureClipboardSelection
    ||| a is CaptureFileSelection
    ||| a is CaptureClipboardRegion
    ||| a is CaptureFileRegion
}

/// The pen a color action selects.
pub open spec fn action_pen<C>(a: Action, p: PenColors<C>) -> Option<C> {
    match a {
        Action::SetColorRed => Some(p.red),
        Action::SetColorGreen => Some(p.green),
        Action::SetColorBlue => Some(p.blue),
        Action::SetColorYellow => Some(p.yellow),
        Action::SetColorOrange => Some(p.orange),
        Action::SetColorPink => Some(p.pink),
        Action::SetColorWhite => Some(p.white),
        Action::SetColorBlack => Some(p.black),
        _ => None,
    }
}

/// The mode a board request leads to: asking for the board already shown
/// goes back to the transparent overlay.
pub open spec fn board_target(current: BoardMode, requested: BoardMode) -> BoardMode {
    if current == requested && requested != BoardMode::Transparent {
        BoardMode::Transparent
    } else {
        requested
    }
}

/// The pen color, the remembered color and whether the pen changed, when
/// going from board `from` to board `to` with pen adjustment on.
pub open spec fn adjusted_pen<S, C>(v: InputView<S, C>, from: BoardMode, to: BoardMode) -> (C, Option<C>, bool) {
    if from == BoardMode::Transparent {
        match board_pen(to, v.board_config) {
            Some(c) => (c, Some(v.current_color), true),
            None => (v.current_color, Some(v.current_color), false),
        }
    } else if to == BoardMode::Transparent {
        match v.board_previous_color {
            Some(p) => (p, None, true),
            None => (v.current_color, None, false),
        }
    } else {
        match board_pen(to, v.board_config) {
            Some(c) => (c, v.board_previous_color, true),
            None => (v.current_color, v.board_previous_color, false),
        }
    }
}

/// Switching to board `requested` (see `board_target`): the frame of the
/// target mode becomes active, the pen follows the board when adjustment is
/// on (entering a board remembers the pen, leaving restores it), any drawing
/// in progress is dropped and the whole surface is redrawn. The flag says
/// whether the pen changed.
pub open spec fn switch_board_spec<S, C>(v: InputView<S, C>, requested: BoardMode) -> (InputView<S, C>, bool) {
    let current = v.canvas.active_mode;
    let target = board_target(current, requested);
    if current == target {
        (v, false)
    } else {
        let (color, previous, changed) = if v.board_config.auto_adjust_pen {
            adjusted_pen(v, current, target)
        } else {
            (v.current_color, v.board_previous_color, false)
        };
        (
            InputView {
                canvas: CanvasView { active_mode: target, ..v.canvas },
                current_color: color,
                board_previous_color: previous,
                state: DrawingView::Idle,
                dirty: mark_full_spec(v.dirty),
                needs_redraw: true,
                ..v
            },
            changed,
        )
    }
}

/// A board action: nothing when board modes are disabled.
pub open spec fn board_action_spec<S, C>(v: InputView<S, C>, requested: BoardMode) -> (InputView<S, C>, EffectView) {
    if v.board_config.enabled {
        let (w, changed) = switch_board_spec(v, requested);
        (w, if changed { EffectView::SyncHighlightColor } else { EffectView::Nothing })
    } else {
        (v, EffectView::Nothing)
    }
}

/// Undo on the active frame: the last shape goes, if there is one. The flag
/// says whether one went.
pub open spec fn undo_spec<S>(c: CanvasView<S>) -> (CanvasView<S>, bool) {
    let shapes = active_shapes(c);
    if shapes.len() > 0 {
        (with_active(c, shapes.drop_last()), true)
    } else {
        (with_active(c, shapes), false)
    }
}

/// What an action does.
pub open spec fn handle_action_spec<S, C>(v: InputView<S, C>, a: Action) -> (InputView<S, C>, EffectView) {
    match a {
        Action::Exit => match v.state {
            DrawingView::Idle => (InputView { should_exit: true, ..v }, EffectView::Nothing),
            _ => (InputView { state: DrawingView::Idle, needs_redraw: true, ..v }, EffectView::Nothing),
        },
        Action::EnterTextMode => if v.state is Idle {
            (
                InputView {
                    state: DrawingView::TextInput {
                        x: (v.screen_width / 2) as i32,
                        y: (v.screen_height / 2) as i32,
                        buffer: Seq::<char>::empty(),
                    },
                    needs_redraw: true,
                    ..v
                },
                EffectView::Nothing,
            )
        } else {
            (v, EffectView::Nothing)
        },
        Action::ClearCanvas => (
            InputView { canvas: with_active(v.canvas, Seq::<S>::empty()), needs_redraw: true, ..v },
            EffectView::Nothing,
        ),
        Action::Undo => {
            let (c, removed) = undo_spec(v.canvas);
            (InputView { canvas: c, needs_redraw: v.needs_redraw || removed, ..v }, EffectView::Nothing)
        },
        Action::IncreaseThickness => (redrawn(v), EffectView::ThicknessUp),
        Action::DecreaseThickness => (redrawn(v), EffectView::ThicknessDown),
        Action::IncreaseFontSize => (
            InputView { dirty: mark_full_spec(v.dirty), needs_redraw: true, ..v },
            EffectView::FontSizeUp,
        ),
        Action::DecreaseFontSize => (
            InputView { dirty: mark_full_spec(v.dirty), needs_redraw: true, ..v },
            EffectView::FontSizeDown,
        ),
        Action::ToggleWhiteboard => board_action_spec(v, BoardMode::Whiteboard),
        Action::ToggleBlackboard => board_action_spec(v, BoardMode::Blackboard),
        Action::ReturnToTransparent => board_action_spec(v, BoardMode::Transparent),
        Action::ToggleHelp => (
            InputView { show_help: !v.show_help, needs_redraw: true, ..v },
            EffectView::Nothing,
        ),
        Action::ToggleStatusBar => (
            InputView { show_status_bar: !v.show_status_bar, needs_redraw: true, ..v },
            EffectView::Nothing,
        ),
        Action::OpenConfigurator => (v, EffectView::LaunchConfigurator),
        _ => if is_capture_action(a) {
            (
                InputView {
                    pending_capture: Some(a),
                    modifiers: Modifiers { ctrl: false, shift: false, alt: false, ..v.modifiers },
                    ..v
                },
                EffectView::Nothing,
            )
        } else {
            match action_pen(a, v.pen_colors) {
                Some(c) => (InputView { current_color: c, needs_redraw: true, ..v }, EffectView::Nothing),
                None => (v, EffectView::Nothing),
            }
        },
    }
}

/// The modifiers with the one that `k` names set to `down`.
pub open spec fn set_modifier(m: Modifiers, k: Key, down: bool) -> Modifiers {
    match k {
        Key::Shift => Modifiers { shift: down, ..m },
        Key::Ctrl => Modifiers { ctrl: down, ..m },
        Key::Alt => Modifiers { alt: down, ..m },
        Key::Tab => Modifiers { tab: down, ..m },
        _ => m,
    }
}

/// What a key release does: only a modifier's release changes the state.
pub open spec fn key_release_spec<S, C>(v: InputView<S, C>, key: Key) -> InputView<S, C> {
    InputView { modifiers: set_modifier(v.modifiers, key, false), ..v }
}

/// Whether the modifier that `k` names is held in `m`.
pub open spec fn modifier_held(m: Modifiers, k: Key) -> bool {
    match k {
        Key::Shift => m.shift,
        Key::Ctrl => m.ctrl,
        Key::Alt => m.alt,
        Key::Tab => m.tab,
        _ => false,
    }
}

pub open spec fn is_modifier_key(k: Key) -> bool {
    k is Shift || k is Ctrl || k is Alt || k is Tab
}

/// The text being typed with `c` appended, unless it is full.
pub open spec fn append_spec<S, C>(v: InputView<S, C>, c: char) -> (InputView<S, C>, EffectView) {
    match v.state {
        DrawingView::TextInput { x, y, buffer } => if buffer.len() < MAX_TEXT_LEN {
            (
                InputView { state: DrawingView::TextInput { x, y, buffer: buffer.push(c) }, needs_redraw: true, ..v },
                EffectView::Nothing,
            )
        } else {
            (v, EffectView::Nothing)
        },
        _ => (v, EffectView::Nothing),
    }
}

/// A key typed into the text being entered: Return places the text (Shift+Return
/// breaks the line), Backspace removes the last character, characters and
/// Space are appended, other keys are ignored.
pub open spec fn typing_spec<S, C>(v: InputView<S, C>, key: Key) -> (InputView<S, C>, EffectView) {
    match v.state {
        DrawingView::TextInput { x, y, buffer } => if key is Return && !v.modifiers.shift {
            if buffer.len() > 0 {
                (
                    InputView { state: DrawingView::Idle, needs_redraw: true, ..v },
                    EffectView::CommitText { x, y, text: buffer },
                )
            } else {
                (InputView { state: DrawingView::Idle, ..v }, EffectView::Nothing)
            }
        } else {
            match key {
                Key::Char(c) => append_spec(v, c),
                Key::Space => append_spec(v, ' '),
                Key::Return => append_spec(v, '\n'),
                Key::Backspace => (
                    InputView {
                        state: DrawingView::TextInput {
                            x,
                            y,
                            buffer: if buffer.len() > 0 { buffer.drop_last() } else { buffer },
                        },
                        needs_redraw: true,
                        ..v
                    },
                    EffectView::Nothing,
                ),
                _ => (v, EffectView::Nothing),
            }
        },
        _ => (v, EffectView::Nothing),
    }
}

/// Whether a key typed into text is looked up as a shortcut: the special keys
/// always, others only with Ctrl or Alt held, so that plain letters can be typed.
pub open spec fn text_key_checks_actions(key: Key, m: Modifiers) -> bool {
    match key {
        Key::Escape | Key::F10 | Key::F11 | Key::F12 | Key::Return => true,
        _ => m.ctrl || m.alt,
    }
}

/// A key pressed while text is being typed.
pub open spec fn text_key_spec<S, C>(v: InputView<S, C>, key: Key) -> (InputView<S, C>, EffectView) {
    let found = if text_key_checks_actions(key, v.modifiers) {
        match key_name(key) {
            Some(n) => lookup_action(v, n),
            None => None,
        }
    } else {
        None
    };
    match found {
        Some(a) => handle_action_spec(v, a),
        None => typing_spec(v, key),
    }
}

/// A key pressed while not typing: Escape cancels a drawing when it is bound
/// to Exit; otherwise the bound action, if any, runs.
pub open spec fn command_key_spec<S, C>(v: InputView<S, C>, key: Key) -> (InputView<S, C>, EffectView) {
    if key is Escape && v.state is Drawing && lookup_action(v, "Escape"@) == Some(Action::Exit) {
        (InputView { state: DrawingView::Idle, needs_redraw: true, ..v }, EffectView::Nothing)
    } else {
        match key_name(key) {
            Some(n) => match lookup_action(v, n) {
                Some(a) => handle_action_spec(v, a),
                None => (v, EffectView::Nothing),
            },
            None => (v, EffectView::Nothing),
        }
    }
}

/// What a key press does.
pub open spec fn key_press_spec<S, C>(v: InputView<S, C>, key: Key) -> (InputView<S, C>, EffectView) {
    if is_modifier_key(key) {
        (InputView { modifiers: set_modifier(v.modifiers, key, true), ..v }, EffectView::Nothing)
    } else if v.state is TextInput {
        text_key_spec(v, key)
    } else {
        command_key_spec(v, key)
    }
}

/// What a mouse press does: the left button starts drawing with the tool of
/// the held modifiers, or moves the text being typed; the right one cancels.
pub open spec fn mouse_press_spec<S, C>(v: InputView<S, C>, button: MouseButton, x: i32, y: i32) -> InputView<S, C> {
    match button {
        MouseButton::Left => match v.state {
            DrawingView::Idle => InputView {
                state: DrawingView::Drawing {
                    tool: tool_for(v.modifiers),
                    start_x: x,
                    start_y: y,
                    points: seq![(x, y)],
                },
                needs_redraw: true,
                ..v
            },
            DrawingView::TextInput { buffer, .. } => InputView {
                state: DrawingView::TextInput { x, y, buffer },
                needs_redraw: true,
                ..v
            },
            _ => v,
        },
        MouseButton::Right => if v.state is Idle {
            v
        } else {
            InputView { state: DrawingView::Idle, needs_redraw: true, ..v }
        },
        MouseButton::Middle => v,
    }
}

/// What a mouse motion does: the pen records the point, any drawing redraws.
pub open spec fn mouse_motion_spec<S, C>(v: InputView<S, C>, x: i32, y: i32) -> InputView<S, C> {
    match v.state {
        DrawingView::Drawing { tool, start_x, start_y, points } => InputView {
            state: DrawingView::Drawing {
                tool,
                start_x,
                start_y,
                points: if tool == Tool::Pen { points.push((x, y)) } else { points },
            },
            needs_redraw: true,
            ..v
        },
        _ => v,
    }
}

/// The integer arithmetic of shaping the current drag ending at `(x, y)` stays within `i32`.
pub open spec fn release_fits(s: DrawingView, x: i32, y: i32) -> bool {
    match s {
        DrawingView::Drawing { tool, start_x, start_y, .. } => drag_fits(tool, start_x, start_y, x, y),
        _ => true,
    }
}

/// What releasing a mouse button does: releasing the left button ends the
/// drawing and gives the shape drawn.
pub open spec fn mouse_release_spec<S, C>(v: InputView<S, C>, button: MouseButton, x: i32, y: i32) -> (InputView<S, C>, Option<GeometryView>) {
    if button != MouseButton::Left {
        (v, None)
    } else {
        match v.state {
            DrawingView::Drawing { tool, start_x, start_y, points } => (
                InputView { state: DrawingView::Idle, ..v },
                drag_geometry(tool, start_x, start_y, points, x, y),
            ),
            _ => (v, None),
        }
    }
}

/// The state with the preview's box marked for repaint and forgotten.
pub open spec fn cleared_preview<S, C>(v: InputView<S, C>) -> InputView<S, C> {
    InputView {
        dirty: match v.provisional_bounds {
            Some(p) => mark_rect_spec(v.dirty, p),
            None => v.dirty,
        },
        provisional_bounds: None,
        ..v
    }
}

/// Placing a finished shape covering `bounds`: committed as `commit_spec`
/// says; when added, its box (or, unknown, the whole surface) is marked for
/// repaint. The flag says whether it was added.
pub open spec fn place_spec<S, C>(v: InputView<S, C>, shape: S, bounds: Option<Rect>) -> (InputView<S, C>, bool) {
    let (w, added) = commit_spec(v, shape);
    if !added {
        (w, false)
    } else {
        match bounds {
            Some(b) => (InputView { dirty: mark_rect_spec(w.dirty, b), ..w }, true),
            None => (InputView { dirty: mark_full_spec(w.dirty), needs_redraw: true, ..w }, true),
        }
    }
}

/// Committing a finished shape: added to the active frame unless the frame
/// holds the most shapes allowed. The flag says whether it was added.
pub open spec fn commit_spec<S, C>(v: InputView<S, C>, shape: S) -> (InputView<S, C>, bool) {
    let shapes = active_shapes(v.canvas);
    let added = shape_fits(shapes.len(), v.max_shapes_per_frame);
    (
        InputView {
            canvas: with_active(v.canvas, if added { shapes.push(shape) } else { shapes }),
            needs_redraw: v.needs_redraw || added,
            ..v
        },
        added,
    )
}

/// The input state starting on board `mode`: that board's frame is active
/// and, with pen adjustment on, the board's pen is taken (nothing is
/// remembered to restore).
pub open spec fn start_on_board_spec<S, C>(v: InputView<S, C>, mode: BoardMode) -> InputView<S, C> {
    InputView {
        canvas: CanvasView { active_mode: mode, ..v.canvas },
        current_color: if v.board_config.auto_adjust_pen {
            match board_pen(mode, v.board_config) {
                Some(c) => c,
                None => v.current_color,
            }
        } else {
            v.current_color
        },
        ..v
    }
}

/// What a vertical scroll does: with Shift it steps the font size (down for
/// a scroll down), otherwise the stroke width.
pub open spec fn scroll_spec<S, C>(v: InputView<S, C>, direction: i32) -> (InputView<S, C>, EffectView) {
    if direction == 0 {
        (v, EffectView::Nothing)
    } else if v.modifiers.shift {
        (
            InputView { dirty: mark_full_spec(v.dirty), needs_redraw: true, ..v },
            if direction > 0 { EffectView::FontSizeDown } else { EffectView::FontSizeUp },
        )
    } else {
        (redrawn(v), if direction > 0 { EffectView::ThicknessDown } else { EffectView::ThicknessUp })
    }
}

/// The shape that would be drawn if the drag ended at `(x, y)`.
pub open spec fn provisional_spec(s: DrawingView, x: i32, y: i32) -> Option<GeometryView> {
    match s {
        DrawingView::Drawing { tool, start_x, start_y, points } => drag_geometry(tool, start_x, start_y, points, x, y),
        _ => None,
    }
}

/// Dirty tracking for a preview whose bounds move from `previous` to `new_bounds`.
pub open spec fn preview_dirty_spec(d: DirtyView, previous: Option<Rect>, new_bounds: Option<Rect>) -> DirtyView {
    let d1 = if new_bounds != previous {
        match previous {
            Some(p) => mark_rect_spec(d, p),
            None => d,
        }
    } else {
        d
    };
    match new_bounds {
        Some(b) => mark_rect_spec(d1, b),
        None => d1,
    }
}

/// The tool in use: the drawing's, else the override, else the modifiers'.
pub open spec fn active_tool_spec<S, C>(v: InputView<S, C>) -> Tool {
    match v.state {
        DrawingView::Drawing { tool, .. } => tool,
        _ => match v.tool_override {
            Some(t) => t,
            None => tool_for(v.modifiers),
        },
    }
}

pub open spec fn highlight_active_spec<S, C>(v: InputView<S, C>) -> bool {
    v.tool_override == Some(Tool::Highlight) || (v.state matches DrawingView::Drawing { tool, .. } && tool
        == Tool::Highlight)
}

impl<S, C: Copy> InputState<S, C> {
    /// The invariants of the parts: the canvas set's and the dirty tracker's.
    pub closed spec fn wf(&self) -> bool {
        &&& self.canvas_set.wf()
        &&& dirty_wf(self.dirty_tracker@)
        &&& self.click_highlight.wf()
    }

    /// Creates a new InputState: idle, on the transparent frame, with the
    /// whole surface to be drawn.
    ///
    /// Screen dimensions default to 0 and should be updated by the backend
    /// after surface configuration (see `update_screen_dimensions`).
    pub fn with_defaults(
        color: C,
        show_status_bar: bool,
        board_config: BoardSettings<C>,
        pen_colors: PenColors<C>,
        action_map: ActionMap,
        max_shapes_per_frame: usize,
        click_highlight: ClickHighlightState,
    ) -> (s: Self)
        requires
            click_highlight.wf(),
        ensures
            s.wf(),
            s@ == (InputView {
                canvas: CanvasView {
                    transparent: Seq::<S>::empty(),
                    whiteboard: None,
                    blackboard: None,
                    active_mode: BoardMode::Transparent,
                },
                current_color: color,
                modifiers: Modifiers { shift: false, ctrl: false, alt: false, tab: false },
                state: DrawingView::Idle,
                should_exit: false,
                needs_redraw: true,
                show_help: false,
                show_status_bar,
                screen_width: 0,
                screen_height: 0,
                board_previous_color: None,
                board_config,
                pen_colors,
                max_shapes_per_frame,
                dirty: empty_dirty(),
                provisional_bounds: None,
                text_preview_bounds: None,
                bindings: action_map@,
                tool_override: None,
                highlight: click_highlight@,
                pending_capture: None,
            }),
    {
        Self {
            canvas_set: CanvasSet::new(),
            current_color: color,
            modifiers: Modifiers::new(),
            state: DrawingState::Idle,
            should_exit: false,
            needs_redraw: true,
            show_help: false,
            show_status_bar,
            screen_width: 0,
            screen_height: 0,
            board_previous_color: None,
            board_config,
            pen_colors,
            max_shapes_per_frame,
            dirty_tracker: DirtyTracker::new(),
            last_provisional_bounds: None,
            last_text_preview_bounds: None,
            action_map,
            tool_override: None,
            click_highlight,
            pending_capture_action: None,
        }
    }

    /// Updates screen dimensions after backend configuration.
    pub fn update_screen_dimensions(&mut self, width: u32, height: u32)
        ensures
            final(self).wf() == old(self).wf(),
            final(self)@ == (InputView { screen_width: width, screen_height: height, ..old(self)@ }),
    {
        self.screen_width = width;
        self.screen_height = height;
    }

    /// Asks for the overlay to be drawn again.
    pub fn request_redraw(&mut self)
        ensures
            final(self).wf() == old(self).wf(),
            final(self)@ == redrawn(old(self)@),
    {
        self.needs_redraw = true;
    }

    /// Records that the overlay has been drawn (or that drawing failed and
    /// is not to be retried at once).
    pub fn redraw_done(&mut self)
        ensures
            final(self).wf() == old(self).wf(),
            final(self)@ == (InputView { needs_redraw: false, ..old(self)@ }),
    {
        self.needs_redraw = false;
    }

    /// Whether a redraw is wanted.
    pub fn needs_redraw(&self) -> (b: bool)
        ensures
            b == self@.needs_redraw,
    {
        self.needs_redraw
    }

    /// Asks the overlay to close.
    pub fn request_exit(&mut self)
        ensures
            final(self).wf() == old(self).wf(),
            final(self)@ == (InputView { should_exit: true, ..old(self)@ }),
    {
        self.should_exit = true;
    }

    /// Whether the overlay is to close.
    pub fn should_exit(&self) -> (b: bool)
        ensures
            b == self@.should_exit,
    {
        self.should_exit
    }

    /// Hands the pressed capture shortcut, if any, to the caller and forgets it.
    pub fn take_pending_capture_action(&mut self) -> (r: Option<Action>)
        ensures
            final(self).wf() == old(self).wf(),
            r == old(self)@.pending_capture,
            final(self)@ == (InputView { pending_capture: None, ..old(self)@ }),
    {
        self.pending_capture_action.take()
    }

    /// Drains pending dirty rectangles for the current surface size.
    pub fn take_dirty_regions(&mut self) -> (r: Vec<Rect>)
        requires
            old(self).wf(),
        ensures
            final(self).wf(),
            r@ == take_regions_spec(
                old(self)@.dirty,
                if old(self)@.screen_width <= i32::MAX { old(self)@.screen_width as i32 } else { i32::MAX },
                if old(self)@.screen_height <= i32::MAX { old(self)@.screen_height as i32 } else { i32::MAX },
            ),
            final(self)@ == (InputView { dirty: empty_dirty(), ..old(self)@ }),
    {
        let width: i32 = if self.screen_width <= 2147483647 { self.screen_width as i32 } else { 2147483647 };
        let height: i32 = if self.screen_height <= 2147483647 { self.screen_height as i32 } else { 2147483647 };
        self.dirty_tracker.take_regions(width, height)
    }

    /// Marks the whole surface for repaint and requests a redraw (after a
    /// change the state does not see, such as the font size).
    pub fn mark_full_redraw(&mut self)
        requires
            old(self).wf(),
        ensures
            final(self).wf(),
            final(self)@ == (InputView { dirty: mark_full_spec(old(self)@.dirty), needs_redraw: true, ..old(self)@ }),
    {
        self.dirty_tracker.mark_full();
        self.needs_redraw = true;
    }

    /// Marks a rectangle of the surface for repaint.
    pub fn mark_dirty_rect(&mut self, rect: Rect)
        requires
            old(self).wf(),
        ensures
            final(self).wf(),
            final(self)@ == (InputView { dirty: mark_rect_spec(old(self)@.dirty, rect), ..old(self)@ }),
    {
        self.dirty_tracker.mark_rect(rect);
    }

    /// Clears any cached provisional shape bounds and marks their damage region.
    pub fn clear_provisional_dirty(&mut self)
        requires
            old(self).wf(),
        ensures
            final(self).wf(),
            final(self)@ == (InputView {
                dirty: match old(self)@.provisional_bounds {
                    Some(p) => mark_rect_spec(old(self)@.dirty, p),
                    None => old(self)@.dirty,
                },
                provisional_bounds: None,
                ..old(self)@
            }),
    {
        if let Some(prev) = self.last_provisional_bounds {
            self.dirty_tracker.mark_rect(prev);
        }
        self.last_provisional_bounds = None;
    }

    /// Updates tracked provisional shape bounds for dirty-region purposes:
    /// the old bounds are repainted when they change, the new ones always.
    pub fn update_provisional_dirty(&mut self, new_bounds: Option<Rect>)
        requires
            old(self).wf(),
        ensures
            final(self).wf(),
            final(self)@ == (InputView {
                dirty: preview_dirty_spec(old(self)@.dirty, old(self)@.provisional_bounds, new_bounds),
                provisional_bounds: new_bounds,
                ..old(self)@
            }),
    {
        let previous = self.last_provisional_bounds;
        if new_bounds != previous {
            if let Some(prev) = previous {
                self.dirty_tracker.mark_rect(prev);
            }
        }
        if let Some(bounds) = new_bounds {
            self.dirty_tracker.mark_rect(bounds);
        }
        self.last_provisional_bounds = new_bounds;
    }

    /// Updates dirty tracking for the live text preview/caret overlay.
    pub fn update_text_preview_dirty(&mut self, new_bounds: Option<Rect>)
        requires
            old(self).wf(),
        ensures
            final(self).wf(),
            final(self)@ == (InputView {
                dirty: preview_dirty_spec(old(self)@.dirty, old(self)@.text_preview_bounds, new_bounds),
                text_preview_bounds: new_bounds,
                ..old(self)@
            }),
    {
        let previous = self.last_text_preview_bounds;
        if new_bounds != previous {
            if let Some(prev) = previous {
                self.dirty_tracker.mark_rect(prev);
            }
        }
        if let Some(bounds) = new_bounds {
            self.dirty_tracker.mark_rect(bounds);
        }
        self.last_text_preview_bounds = new_bounds;
    }

    /// Clears the cached text preview bounds, marking them for repaint.
    pub fn clear_text_preview_dirty(&mut self)
        requires
            old(self).wf(),
        ensures
            final(self).wf(),
            final(self)@ == (InputView {
                dirty: match old(self)@.text_preview_bounds {
                    Some(p) => mark_rect_spec(old(self)@.dirty, p),
                    None => old(self)@.dirty,
                },
                text_preview_bounds: None,
                ..old(self)@
            }),
    {
        if let Some(prev) = self.last_text_preview_bounds {
            self.dirty_tracker.mark_rect(prev);
        }
        self.last_text_preview_bounds = None;
    }

    /// Returns the current board mode.
    pub fn board_mode(&self) -> (m: BoardMode)
        ensures
            m == self@.canvas.active_mode,
    {
        self.canvas_set.active_mode()
    }

    /// Look up an action for the given key and the held modifiers.
    pub fn find_action(&self, key_str: &str) -> (r: Option<Action>)
        ensures
            r == lookup_action(self@, key_str@),
    {
        self.action_map.find_match(key_str, self.modifiers.ctrl, self.modifiers.shift, self.modifiers.alt)
    }

    /// Returns whether the click highlight feature is currently enabled.
    pub fn click_highlight_enabled(&self) -> (b: bool)
        ensures
            b == self@.highlight.enabled,
    {
        self.click_highlight.enabled()
    }

    /// The click highlight state, for drawing the highlights.
    pub fn click_highlight(&self) -> (h: &ClickHighlightState)
        ensures
            h@ == self@.highlight,
    {
        &self.click_highlight
    }

    /// Toggles the click highlight feature and requests a redraw; returns
    /// whether highlights are now on.
    pub fn toggle_click_highlight(&mut self) -> (enabled: bool)
        requires
            old(self).wf(),
        ensures
            final(self).wf(),
            enabled == !old(self)@.highlight.enabled,
            final(self)@ == (InputView {
                highlight: HighlightView {
                    enabled,
                    highlights: if enabled { old(self)@.highlight.highlights } else { Seq::empty() },
                    ..old(self)@.highlight
                },
                dirty: mark_full_spec(old(self)@.dirty),
                needs_redraw: true,
                ..old(self)@
            }),
    {
        let enabled = self.click_highlight.toggle(&mut self.dirty_tracker);
        self.needs_redraw = true;
        enabled
    }

    /// Clears any active highlights without changing the enabled flag.
    pub fn clear_click_highlights(&mut self)
        requires
            old(self).wf(),
        ensures
            final(self).wf(),
            old(self)@.highlight.highlights.len() == 0 ==> final(self)@ == old(self)@,
            old(self)@.highlight.highlights.len() > 0 ==> final(self)@ == (InputView {
                highlight: HighlightView { highlights: Seq::empty(), ..old(self)@.highlight },
                dirty: mark_last_bounds(old(self)@.dirty, old(self)@.highlight.highlights),
                needs_redraw: true,
                ..old(self)@
            }),
    {
        if self.click_highlight.has_active() {
            self.click_highlight.clear_all(&mut self.dirty_tracker);
            self.needs_redraw = true;
        }
    }

    /// Whether a click highlight at `(x, y)` can be started: its box stays
    /// within the `i32` range (the condition of `trigger_click_highlight`).
    pub fn highlight_in_range(&self, x: i32, y: i32) -> (b: bool)
        ensures
            b == highlight_fits(self@.highlight.extent, x, y),
    {
        let extent = self.click_highlight.extent();
        x as i64 - extent as i64 >= i32::MIN as i64 && y as i64 - extent as i64 >= i32::MIN as i64
    }

    /// Whether a drag ending at `(x, y)` can be shaped: the shape's measures
    /// stay within the `i32` range (the condition of `on_mouse_release` and
    /// `get_provisional_shape`).
    pub fn release_in_range(&self, x: i32, y: i32) -> (b: bool)
        ensures
            b == release_fits(self@.state, x, y),
    {
        match &self.state {
            DrawingState::Drawing { tool, start_x, start_y, .. } => drag_in_range(*tool, *start_x, *start_y, x, y),
            _ => true,
        }
    }

    /// Spawns a highlight at `(x, y)`, started at `now`, if the feature is
    /// enabled, requesting a redraw when it does.
    pub fn trigger_click_highlight(&mut self, x: i32, y: i32, now: u64)
        requires
            old(self).wf(),
            highlight_fits(old(self)@.highlight.extent, x, y),
        ensures
            final(self).wf(),
            ({
                let (h, d, added) = spawn_spec(old(self)@.highlight, old(self)@.dirty, x, y, now);
                final(self)@ == InputView { highlight: h, dirty: d, needs_redraw: old(self)@.needs_redraw || added, ..old(self)@ }
            }),
    {
        if self.click_highlight.spawn(x, y, now, &mut self.dirty_tracker) {
            self.needs_redraw = true;
        }
    }

    /// Advances highlight animations to `now`; returns true if highlights remain active.
    pub fn advance_click_highlights(&mut self, now: u64) -> (alive: bool)
        requires
            old(self).wf(),
        ensures
            final(self).wf(),
            alive == (final(self)@.highlight.highlights.len() > 0),
            final(self)@ == (InputView {
                highlight: HighlightView {
                    highlights: advance_kept(
                        old(self)@.highlight.highlights,
                        now,
                        old(self)@.highlight.duration,
                        old(self)@.highlight.extent,
                    ),
                    ..old(self)@.highlight
                },
                dirty: advance_dirty(
                    old(self)@.dirty,
                    old(self)@.highlight.highlights,
                    now,
                    old(self)@.highlight.duration,
                    old(self)@.highlight.extent,
                ),
                ..old(self)@
            }),
    {
        self.click_highlight.advance(now, &mut self.dirty_tracker)
    }

    /// Returns the active tool considering overrides and drawing state.
    pub fn active_tool(&self) -> (t: Tool)
        ensures
            t == active_tool_spec(self@),
    {
        if let DrawingState::Drawing { tool, .. } = &self.state {
            *tool
        } else if let Some(tool) = self.tool_override {
            tool
        } else {
            self.modifiers.current_tool()
        }
    }

    /// Returns whether the highlight tool is currently selected.
    pub fn highlight_tool_active(&self) -> (b: bool)
        ensures
            b == highlight_active_spec(self@),
    {
        let drawing_highlight = match &self.state {
            DrawingState::Drawing { tool, .. } => *tool == Tool::Highlight,
            _ => false,
        };
        self.tool_override == Some(Tool::Highlight) || drawing_highlight
    }

    /// Toggles highlight-only tool mode; returns whether it is now on.
    ///
    /// Turning it on drops a drawing in progress.
    pub fn toggle_highlight_tool(&mut self) -> (enabled: bool)
        requires
            old(self).wf(),
        ensures
            final(self).wf(),
            enabled == !highlight_active_spec(old(self)@),
            final(self)@ == (InputView {
                tool_override: if enabled { Some(Tool::Highlight) } else { None },
                state: if enabled && old(self)@.state is Drawing { DrawingView::Idle } else { old(self)@.state },
                dirty: mark_full_spec(old(self)@.dirty),
                needs_redraw: true,
                ..old(self)@
            }),
    {
        let enable = !self.highlight_tool_active();
        if enable {
            self.tool_override = Some(Tool::Highlight);
            if let DrawingState::Drawing { .. } = &self.state {
                self.state = DrawingState::Idle;
            }
        } else {
            self.tool_override = None;
        }
        self.dirty_tracker.mark_full();
        self.needs_redraw = true;
        enable
    }

    /// Switches to a different board mode with color auto-adjustment.
    ///
    /// Handles mode transitions with automatic color adjustment for contrast:
    /// - Entering board mode: saves current color, applies mode default
    /// - Exiting board mode: restores previous color
    /// - Switching between boards: applies new mode default
    ///
    /// Asking for the board already shown goes back to the transparent
    /// overlay. Also resets drawing state to prevent partial shapes crossing
    /// modes. Returns whether the pen color changed.
    pub fn switch_board_mode(&mut self, new_mode: BoardMode) -> (changed: bool)
        requires
            old(self).wf(),
        ensures
            final(self).wf(),
            (final(self)@, changed) == switch_board_spec(old(self)@, new_mode),
    {
        let current_mode = self.canvas_set.active_mode();
        let target_mode = if current_mode == new_mode && new_mode != BoardMode::Transparent {
            BoardMode::Transparent
        } else {
            new_mode
        };
        if current_mode == target_mode {
            return false;
        }
        let mut changed = false;
        if self.board_config.auto_adjust_pen {
            if current_mode == BoardMode::Transparent {
                self.board_previous_color = Some(self.current_color);
                if let Some(default_color) = target_mode.default_pen_color(&self.board_config) {
                    self.current_color = default_color;
                    changed = true;
                }
            } else if target_mode == BoardMode::Transparent {
                if let Some(prev_color) = self.board_previous_color {
                    self.current_color = prev_color;
                    self.board_previous_color = None;
                    changed = true;
                }
            } else {
                if let Some(default_color) = target_mode.default_pen_color(&self.board_config) {
                    self.current_color = default_color;
                    changed = true;
                }
            }
        }
        self.canvas_set.switch_mode(target_mode);
        self.state = DrawingState::Idle;
        self.dirty_tracker.mark_full();
        self.needs_redraw = true;
        changed
    }

    /// Starts on board `mode` (at startup): that board's frame becomes active
    /// and, with pen adjustment on, the board's pen is taken.
    pub fn start_on_board(&mut self, mode: BoardMode)
        ensures
            final(self).wf() == old(self).wf(),
            final(self)@ == start_on_board_spec(old(self)@, mode),
    {
        self.canvas_set.switch_mode(mode);
        if self.board_config.auto_adjust_pen {
            if let Some(default_color) = mode.default_pen_color(&self.board_config) {
                self.current_color = default_color;
            }
        }
    }

    fn board_action(&mut self, requested: BoardMode) -> (e: InputEffect)
        requires
            old(self).wf(),
        ensures
            final(self).wf(),
            (final(self)@, effect_view(e)) == board_action_spec(old(self)@, requested),
    {
        if self.board_config.enabled {
            if self.switch_board_mode(requested) {
                InputEffect::SyncHighlightColor
            } else {
                InputEffect::Nothing
            }
        } else {
            InputEffect::Nothing
        }
    }

    fn set_pen(&mut self, color: C)
        ensures
            final(self).wf() == old(self).wf(),
            final(self)@ == (InputView { current_color: color, needs_redraw: true, ..old(self)@ }),
    {
        self.current_color = color;
        self.needs_redraw = true;
    }

    /// Handle an action triggered by a keybinding.
    pub fn handle_action(&mut self, action: Action) -> (e: InputEffect)
        requires
            old(self).wf(),
        ensures
            final(self).wf(),
            (final(self)@, effect_view(e)) == handle_action_spec(old(self)@, action),
    {
        match action {
            Action::Exit => {
                match &self.state {
                    DrawingState::Idle => {
                        self.should_exit = true;
                    },
                    _ => {
                        self.state = DrawingState::Idle;
                        self.needs_redraw = true;
                    },
                }
                InputEffect::Nothing
            },
            Action::EnterTextMode => {
                if let DrawingState::Idle = &self.state {
                    self.state = DrawingState::TextInput {
                        x: (self.screen_width / 2) as i32,
                        y: (self.screen_height / 2) as i32,
                        buffer: String::new(),
                    };
                    self.needs_redraw = true;
                }
                InputEffect::Nothing
            },
            Action::ClearCanvas => {
                self.canvas_set.clear_active();
                self.needs_redraw = true;
                InputEffect::Nothing
            },
            Action::Undo => {
                let frame = self.canvas_set.active_frame_mut();
                let removed = frame.undo();
                if removed.is_some() {
                    self.needs_redraw = true;
                }
                InputEffect::Nothing
            },
            Action::IncreaseThickness => {
                self.needs_redraw = true;
                InputEffect::ThicknessUp
            },
            Action::DecreaseThickness => {
                self.needs_redraw = true;
                InputEffect::ThicknessDown
            },
            Action::IncreaseFontSize => {
                self.mark_full_redraw();
                InputEffect::FontSizeUp
            },
            Action::DecreaseFontSize => {
                self.mark_full_redraw();
                InputEffect::FontSizeDown
            },
            Action::ToggleWhiteboard => self.board_action(BoardMode::Whiteboard),
            Action::ToggleBlackboard => self.board_action(BoardMode::Blackboard),
            Action::ReturnToTransparent => self.board_action(BoardMode::Transparent),
            Action::ToggleHelp => {
                self.show_help = !self.show_help;
                self.needs_redraw = true;
                InputEffect::Nothing
            },
            Action::ToggleStatusBar => {
                self.show_status_bar = !self.show_status_bar;
                self.needs_redraw = true;
                InputEffect::Nothing
            },
            Action::OpenConfigurator => InputEffect::LaunchConfigurator,
            Action::CaptureFullScreen
            | Action::CaptureActiveWindow
            | Action::CaptureSelection
            | Action::CaptureClipboardFull
            | Action::CaptureFileFull
            | Action::CaptureClipboardSelection
            | Action::CaptureFileSelection
            | Action::CaptureClipboardRegion
            | Action::CaptureFileRegion => {
                // The portal dialog swallows key releases, so the modifiers
                // would otherwise stay held after the capture.
                self.pending_capture_action = Some(action);
                self.modifiers.ctrl = false;
                self.modifiers.shift = false;
                self.modifiers.alt = false;
                InputEffect::Nothing
            },
            Action::SetColorRed => {
                let c = self.pen_colors.red;
                self.set_pen(c);
                InputEffect::Nothing
            },
            Action::SetColorGreen => {
                let c = self.pen_colors.green;
                self.set_pen(c);
                InputEffect::Nothing
            },
            Action::SetColorBlue => {
                let c = self.pen_colors.blue;
                self.set_pen(c);
                InputEffect::Nothing
            },
            Action::SetColorYellow => {
                let c = self.pen_colors.yellow;
                self.set_pen(c);
                InputEffect::Nothing
            },
            Action::SetColorOrange => {
                let c = self.pen_colors.orange;
                self.set_pen(c);
                InputEffect::Nothing
            },
            Action::SetColorPink => {
                let c = self.pen_colors.pink;
                self.set_pen(c);
                InputEffect::Nothing
            },
            Action::SetColorWhite => {
                let c = self.pen_colors.white;
                self.set_pen(c);
                InputEffect::Nothing
            },
            Action::SetColorBlack => {
                let c = self.pen_colors.black;
                self.set_pen(c);
                InputEffect::Nothing
            },
        }
    }
    /// Processes a key press event.
    ///
    /// Handles all keyboard input: modifier tracking, the bound actions
    /// (colors, tools, text mode, clear, undo, exit, sizes, boards, help), and
    /// text typed in text mode, where plain characters are typed rather than
    /// looked up. Returns what the caller still has to do.
    pub fn on_key_press(&mut self, key: Key) -> (e: InputEffect)
        requires
            old(self).wf(),
        ensures
            final(self).wf(),
            (final(self)@, effect_view(e)) == key_press_spec(old(self)@, key),
    {
        match key {
            Key::Shift => {
                self.modifiers.shift = true;
                return InputEffect::Nothing;
            },
            Key::Ctrl => {
                self.modifiers.ctrl = true;
                return InputEffect::Nothing;
            },
            Key::Alt => {
                self.modifiers.alt = true;
                return InputEffect::Nothing;
            },
            Key::Tab => {
                self.modifiers.tab = true;
                return InputEffect::Nothing;
            },
            _ => {},
        }
        if let DrawingState::TextInput { .. } = &self.state {
            return self.on_text_key(key);
        }
        self.on_command_key(key)
    }

    fn on_text_key(&mut self, key: Key) -> (e: InputEffect)
        requires
            old(self).wf(),
            old(self)@.state is TextInput,
            !is_modifier_key(key),
        ensures
            final(self).wf(),
            (final(self)@, effect_view(e)) == text_key_spec(old(self)@, key),
    {
        let check = match key {
            Key::Escape | Key::F10 | Key::F11 | Key::F12 | Key::Return => true,
            _ => self.modifiers.ctrl || self.modifiers.alt,
        };
        if check {
            if let Some(name) = key.lookup_name() {
                if let Some(action) = self.find_action(name.as_str()) {
                    return self.handle_action(action);
                }
            }
        }
        self.type_key(key)
    }

    fn type_key(&mut self, key: Key) -> (e: InputEffect)
        requires
            old(self).wf(),
            old(self)@.state is TextInput,
        ensures
            final(self).wf(),
            (final(self)@, effect_view(e)) == typing_spec(old(self)@, key),
    {
        let is_return = match key {
            Key::Return => true,
            _ => false,
        };
        if is_return && !self.modifiers.shift {
            let mut st = DrawingState::Idle;
            std::mem::swap(&mut st, &mut self.state);
            match st {
                DrawingState::TextInput { x, y, buffer } => {
                    if buffer.as_str().unicode_len() > 0 {
                        self.needs_redraw = true;
                        return InputEffect::CommitText { x, y, text: buffer };
                    }
                    return InputEffect::Nothing;
                },
                other => {
                    self.state = other;
                    return InputEffect::Nothing;
                },
            }
        }
        match key {
            Key::Char(c) => self.append_char(c),
            Key::Space => self.append_char(' '),
            Key::Return => self.append_char('\n'),
            Key::Backspace => self.backspace(),
            _ => InputEffect::Nothing,
        }
    }

    fn append_char(&mut self, c: char) -> (e: InputEffect)
        requires
            old(self).wf(),
            old(self)@.state is TextInput,
        ensures
            final(self).wf(),
            (final(self)@, effect_view(e)) == append_spec(old(self)@, c),
    {
        let mut st = DrawingState::Idle;
        std::mem::swap(&mut st, &mut self.state);
        match st {
            DrawingState::TextInput { x, y, mut buffer } => {
                if buffer.as_str().unicode_len() < MAX_TEXT_LEN {
                    push_char(&mut buffer, c);
                    self.state = DrawingState::TextInput { x, y, buffer };
                    self.needs_redraw = true;
                } else {
                    self.state = DrawingState::TextInput { x, y, buffer };
                }
            },
            other => {
                self.state = other;
            },
        }
        InputEffect::Nothing
    }

    fn backspace(&mut self) -> (e: InputEffect)
        requires
            old(self).wf(),
            old(self)@.state is TextInput,
        ensures
            final(self).wf(),
            (final(self)@, effect_view(e)) == typing_spec(old(self)@, Key::Backspace),
    {
        let mut st = DrawingState::Idle;
        std::mem::swap(&mut st, &mut self.state);
        match st {
            DrawingState::TextInput { x, y, buffer } => {
                let chars = str_chars(buffer.as_str());
                let n = chars.len();
                let kept = if n > 0 {
                    let head = sub_chars(&chars, 0, n - 1);
                    proof {
                        assert(head@ =~= buffer@.drop_last());
                    }
                    chars_to_string(&head)
                } else {
                    buffer
                };
                self.state = DrawingState::TextInput { x, y, buffer: kept };
                self.needs_redraw = true;
            },
            other => {
                self.state = other;
            },
        }
        InputEffect::Nothing
    }

    fn on_command_key(&mut self, key: Key) -> (e: InputEffect)
        requires
            old(self).wf(),
            !(old(self)@.state is TextInput),
            !is_modifier_key(key),
        ensures
            final(self).wf(),
            (final(self)@, effect_view(e)) == command_key_spec(old(self)@, key),
    {
        let is_escape = match key {
            Key::Escape => true,
            _ => false,
        };
        let drawing = match &self.state {
            DrawingState::Drawing { .. } => true,
            _ => false,
        };
        if is_escape && drawing {
            if let Some(Action::Exit) = self.find_action("Escape") {
                self.state = DrawingState::Idle;
                self.needs_redraw = true;
                return InputEffect::Nothing;
            }
        }
        match key.lookup_name() {
            Some(name) => match self.find_action(name.as_str()) {
                Some(action) => self.handle_action(action),
                None => InputEffect::Nothing,
            },
            None => InputEffect::Nothing,
        }
    }

    /// Processes a key release event: only modifier releases change the state.
    pub fn on_key_release(&mut self, key: Key)
        ensures
            final(self).wf() == old(self).wf(),
            final(self)@ == key_release_spec(old(self)@, key),
    {
        match key {
            Key::Shift => self.modifiers.shift = false,
            Key::Ctrl => self.modifiers.ctrl = false,
            Key::Alt => self.modifiers.alt = false,
            Key::Tab => self.modifiers.tab = false,
            _ => {},
        }
    }

    /// Processes a mouse button press event.
    ///
    /// - Left click while Idle: starts drawing with the tool of the held modifiers
    /// - Left click during TextInput: moves the text position
    /// - Right click: cancels the current action
    pub fn on_mouse_press(&mut self, button: MouseButton, x: i32, y: i32)
        ensures
            final(self).wf() == old(self).wf(),
            final(self)@ == mouse_press_spec(old(self)@, button, x, y),
    {
        match button {
            MouseButton::Left => {
                let mut st = DrawingState::Idle;
                std::mem::swap(&mut st, &mut self.state);
                match st {
                    DrawingState::Idle => {
                        let tool = self.modifiers.current_tool();
                        let points = vec![(x, y)];
                        proof {
                            assert(points@ =~= seq![(x, y)]);
                        }
                        self.state = DrawingState::Drawing { tool, start_x: x, start_y: y, points };
                        self.needs_redraw = true;
                    },
                    DrawingState::TextInput { buffer, .. } => {
                        self.state = DrawingState::TextInput { x, y, buffer };
                        self.needs_redraw = true;
                    },
                    other => {
                        self.state = other;
                    },
                }
            },
            MouseButton::Right => {
                if let DrawingState::Idle = &self.state {
                } else {
                    self.state = DrawingState::Idle;
                    self.needs_redraw = true;
                }
            },
            MouseButton::Middle => {},
        }
    }

    /// Processes mouse motion: the pen records the point, any drawing redraws.
    pub fn on_mouse_motion(&mut self, x: i32, y: i32)
        ensures
            final(self).wf() == old(self).wf(),
            final(self)@ == mouse_motion_spec(old(self)@, x, y),
    {
        let mut st = DrawingState::Idle;
        std::mem::swap(&mut st, &mut self.state);
        match st {
            DrawingState::Drawing { tool, start_x, start_y, mut points } => {
                if tool == Tool::Pen {
                    points.push((x, y));
                }
                self.state = DrawingState::Drawing { tool, start_x, start_y, points };
                self.needs_redraw = true;
            },
            other => {
                self.state = other;
            },
        }
    }

    /// Processes a mouse button release: releasing the left button while
    /// drawing ends the drawing and returns the shape drawn, for the caller
    /// to give it color and width and pass it to `commit_shape`.
    pub fn on_mouse_release(&mut self, button: MouseButton, x: i32, y: i32) -> (r: Option<ShapeGeometry>)
        requires
            release_fits(old(self)@.state, x, y),
        ensures
            final(self).wf() == old(self).wf(),
            (final(self)@, geometry_opt_view(r)) == mouse_release_spec(old(self)@, button, x, y),
    {
        if button != MouseButton::Left {
            return None;
        }
        let mut st = DrawingState::Idle;
        std::mem::swap(&mut st, &mut self.state);
        match st {
            DrawingState::Drawing { tool, start_x, start_y, points } => drag_shape(tool, start_x, start_y, points, x, y),
            other => {
                self.state = other;
                None
            },
        }
    }

    /// Processes a vertical scroll of `direction` steps (positive is down).
    pub fn on_scroll(&mut self, direction: i32) -> (e: InputEffect)
        requires
            old(self).wf(),
        ensures
            final(self).wf(),
            (final(self)@, effect_view(e)) == scroll_spec(old(self)@, direction),
    {
        if direction == 0 {
            InputEffect::Nothing
        } else if self.modifiers.shift {
            self.mark_full_redraw();
            if direction > 0 {
                InputEffect::FontSizeDown
            } else {
                InputEffect::FontSizeUp
            }
        } else {
            self.needs_redraw = true;
            if direction > 0 {
                InputEffect::ThicknessDown
            } else {
                InputEffect::ThicknessUp
            }
        }
    }

    /// Releases a mouse button and places the finished shape: `build` makes
    /// the shape from its geometry, with the box it covers on screen when
    /// known. The shape joins the active frame unless the frame already holds
    /// the most shapes allowed; when it joins, its box (or, unknown, the whole
    /// surface) is marked for repaint. The preview's box is marked first.
    /// Gives whether a shape was added, `None` when the release ended no shape.
    pub fn release_and_place<F: Fn(ShapeGeometry) -> (S, Option<Rect>)>(
        &mut self,
        button: MouseButton,
        x: i32,
        y: i32,
        build: F,
    ) -> (r: Option<bool>)
        requires
            old(self).wf(),
            release_fits(old(self)@.state, x, y),
            forall|g: ShapeGeometry| #[trigger] build.requires((g,)),
        ensures
            final(self).wf(),
            ({
                let (v1, shape) = mouse_release_spec(cleared_preview(old(self)@), button, x, y);
                match shape {
                    None => final(self)@ == v1 && r is None,
                    Some(g) => r is Some && exists|sg: ShapeGeometry, out: (S, Option<Rect>)|
                        #![trigger build.ensures((sg,), out)]
                        sg@ == g && build.ensures((sg,), out) && (final(self)@, r->Some_0) == place_spec(
                            v1,
                            out.0,
                            out.1,
                        ),
                }
            }),
    {
        self.clear_provisional_dirty();
        match self.on_mouse_release(button, x, y) {
            None => None,
            Some(geometry) => {
                let ghost g = geometry;
                let out = build(geometry);
                let ghost o = out;
                let (shape, bounds) = out;
                let added = self.commit_shape(shape);
                if added {
                    match bounds {
                        Some(rect) => self.mark_dirty_rect(rect),
                        None => self.mark_full_redraw(),
                    }
                }
                proof {
                    assert(build.ensures((g,), o));
                }
                Some(added)
            },
        }
    }

    /// Adds a finished shape to the active frame unless the frame already
    /// holds the most shapes allowed; returns whether it was added.
    pub fn commit_shape(&mut self, shape: S) -> (added: bool)
        requires
            old(self).wf(),
        ensures
            final(self).wf(),
            (final(self)@, added) == commit_spec(old(self)@, shape),
    {
        let max = self.max_shapes_per_frame;
        let frame = self.canvas_set.active_frame_mut();
        let added = frame.try_add_shape(shape, max);
        if added {
            self.needs_redraw = true;
        }
        added
    }

    /// Adds a shape to the active frame, with no limit (placed text).
    pub fn add_shape(&mut self, shape: S)
        requires
            old(self).wf(),
        ensures
            final(self).wf(),
            final(self)@ == (InputView {
                canvas: with_active(old(self)@.canvas, active_shapes(old(self)@.canvas).push(shape)),
                ..old(self)@
            }),
    {
        let frame = self.canvas_set.active_frame_mut();
        frame.add_shape(shape);
    }

    /// Returns the shape currently being drawn, as it would be if the drag
    /// ended at `(current_x, current_y)`; none when not drawing.
    pub fn get_provisional_shape(&self, current_x: i32, current_y: i32) -> (r: Option<ShapeGeometry>)
        requires
            release_fits(self@.state, current_x, current_y),
        ensures
            geometry_opt_view(r) == provisional_spec(self@.state, current_x, current_y),
    {
        match &self.state {
            DrawingState::Drawing { tool, start_x, start_y, points } => {
                let copied = copy_points(points);
                drag_shape(*tool, *start_x, *start_y, copied, current_x, current_y)
            },
            _ => None,
        }
    }
}

// ---------------------------------------------------------------------------
// Laws of the input state machine.
// ---------------------------------------------------------------------------

/// Law: with board modes on, asking twice for the same board from the
/// transparent overlay shows the board, then the overlay again with the pen
/// it had; every frame keeps its shapes. With pen adjustment on, the board's
/// pen is used on the board and nothing stays remembered afterwards.
pub proof fn law_board_toggle_round_trip<S, C>(v: InputView<S, C>, board: BoardMode)
    requires
        v.canvas.active_mode == BoardMode::Transparent,
        board != BoardMode::Transparent,
    ensures
        ({
            let w1 = switch_board_spec(v, board).0;
            let w2 = switch_board_spec(w1, board).0;
            &&& w1.canvas.active_mode == board
            &&& w2.canvas.active_mode == BoardMode::Transparent
            &&& w2.current_color == v.current_color
            &&& w2.canvas.transparent == v.canvas.transparent
            &&& w2.canvas.whiteboard == v.canvas.whiteboard
            &&& w2.canvas.blackboard == v.canvas.blackboard
            &&& w2.state == DrawingView::Idle
            &&& v.board_config.auto_adjust_pen ==> {
                &&& Some(w1.current_color) == board_pen(board, v.board_config)
                &&& w1.board_previous_color == Some(v.current_color)
                &&& w2.board_previous_color is None
            }
            &&& !v.board_config.auto_adjust_pen ==> w2.board_previous_color == v.board_previous_color
        }),
{
}

/// Law: a capture shortcut changes nothing on the canvas: it waits for the
/// backend, which takes it and captures what the shortcut asks for, and
/// Ctrl, Shift and Alt count as released. The actions that wait so are
/// exactly those the capture pipeline has a request for.
pub proof fn law_capture_shortcut_waits_for_backend<S, C>(v: InputView<S, C>, a: Action, copy_to_clipboard: bool)
    ensures
        is_capture_action(a) <==> capture_request_spec(a, copy_to_clipboard) is Some,
        is_capture_action(a) ==> handle_action_spec(v, a) == (
            InputView {
                pending_capture: Some(a),
                modifiers: Modifiers { ctrl: false, shift: false, alt: false, ..v.modifiers },
                ..v
            },
            EffectView::Nothing,
        ),
{
}

/// Law: the shape previewed while dragging is the one that releasing the
/// left button at the same point hands back to be committed (none while
/// idle or typing, nor for the highlight tool).
pub proof fn law_preview_is_released_shape<S, C>(v: InputView<S, C>, x: i32, y: i32)
    ensures
        provisional_spec(v.state, x, y) == mouse_release_spec(v, MouseButton::Left, x, y).1,
        !(v.state is Drawing) ==> provisional_spec(v.state, x, y) is None,
        (v.state matches DrawingView::Drawing { tool, .. } && tool == Tool::Highlight) ==> provisional_spec(
            v.state,
            x,
            y,
        ) is None,
{
}

/// Law: each action does what it names. Exit closes an idle overlay and
/// otherwise only drops the drawing in progress; text mode opens, when idle,
/// at the middle of the screen with no text; clearing empties the active
/// frame; undo drops its last shape; the size actions ask for the matching
/// step; with boards on, the board actions show the board they name from
/// the transparent overlay, and going back to transparent from a board shows
/// the overlay; the help and status-bar toggles flip their flag; opening the
/// configurator changes nothing here and asks for the editor.
pub proof fn law_actions_do_what_they_name<S, C>(v: InputView<S, C>)
    ensures
        v.state is Idle ==> handle_action_spec(v, Action::Exit).0.should_exit,
        !(v.state is Idle) ==> (handle_action_spec(v, Action::Exit).0.state is Idle && handle_action_spec(
            v,
            Action::Exit,
        ).0.should_exit == v.should_exit),
        v.state is Idle ==> handle_action_spec(v, Action::EnterTextMode).0.state == (DrawingView::TextInput {
            x: (v.screen_width / 2) as i32,
            y: (v.screen_height / 2) as i32,
            buffer: Seq::<char>::empty(),
        }),
        active_shapes(handle_action_spec(v, Action::ClearCanvas).0.canvas) == Seq::<S>::empty(),
        handle_action_spec(v, Action::ClearCanvas).0.canvas.active_mode == v.canvas.active_mode,
        active_shapes(v.canvas).len() > 0 ==> active_shapes(handle_action_spec(v, Action::Undo).0.canvas) == active_shapes(
            v.canvas,
        ).drop_last(),
        handle_action_spec(v, Action::IncreaseThickness).1 == EffectView::ThicknessUp,
        handle_action_spec(v, Action::DecreaseThickness).1 == EffectView::ThicknessDown,
        handle_action_spec(v, Action::IncreaseFontSize).1 == EffectView::FontSizeUp,
        handle_action_spec(v, Action::DecreaseFontSize).1 == EffectView::FontSizeDown,
        v.board_config.enabled && v.canvas.active_mode == BoardMode::Transparent ==> handle_action_spec(
            v,
            Action::ToggleWhiteboard,
        ).0.canvas.active_mode == BoardMode::Whiteboard,
        v.board_config.enabled && v.canvas.active_mode == BoardMode::Transparent ==> handle_action_spec(
            v,
            Action::ToggleBlackboard,
        ).0.canvas.active_mode == BoardMode::Blackboard,
        v.board_config.enabled && v.canvas.active_mode != BoardMode::Transparent ==> handle_action_spec(
            v,
            Action::ReturnToTransparent,
        ).0.canvas.active_mode == BoardMode::Transparent,
        !v.board_config.enabled ==> handle_action_spec(v, Action::ToggleWhiteboard).0 == v,
        !v.board_config.enabled ==> handle_action_spec(v, Action::ToggleBlackboard).0 == v,
        handle_action_spec(v, Action::ToggleHelp).0.show_help == !v.show_help,
        handle_action_spec(v, Action::ToggleStatusBar).0.show_status_bar == !v.show_status_bar,
        handle_action_spec(v, Action::OpenConfigurator) == (v, EffectView::LaunchConfigurator),
{
}

/// Law: each color action takes the pen of its own color: `SetColorRed`
/// the red pen, `SetColorOrange` the orange pen, and so on; nothing else
/// changes but the redraw request.
pub proof fn law_color_actions_take_their_pen<S, C>(v: InputView<S, C>)
    ensures
        handle_action_spec(v, Action::SetColorRed).0 == (InputView { current_color: v.pen_colors.red, needs_redraw: true, ..v }),
        handle_action_spec(v, Action::SetColorGreen).0 == (InputView { current_color: v.pen_colors.green, needs_redraw: true, ..v }),
        handle_action_spec(v, Action::SetColorBlue).0 == (InputView { current_color: v.pen_colors.blue, needs_redraw: true, ..v }),
        handle_action_spec(v, Action::SetColorYellow).0 == (InputView { current_color: v.pen_colors.yellow, needs_redraw: true, ..v }),
        handle_action_spec(v, Action::SetColorOrange).0 == (InputView { current_color: v.pen_colors.orange, needs_redraw: true, ..v }),
        handle_action_spec(v, Action::SetColorPink).0 == (InputView { current_color: v.pen_colors.pink, needs_redraw: true, ..v }),
        handle_action_spec(v, Action::SetColorWhite).0 == (InputView { current_color: v.pen_colors.white, needs_redraw: true, ..v }),
        handle_action_spec(v, Action::SetColorBlack).0 == (InputView { current_color: v.pen_colors.black, needs_redraw: true, ..v }),
{
}

/// Law: pressing a modifier that is not held and releasing it leaves the
/// input state exactly as it was.
pub proof fn law_modifier_press_release<S, C>(v: InputView<S, C>, key: Key)
    requires
        is_modifier_key(key),
        !modifier_held(v.modifiers, key),
    ensures
        key_press_spec(v, key).1 == EffectView::Nothing,
        key_release_spec(key_press_spec(v, key).0, key) == v,
{
    assert(set_modifier(set_modifier(v.modifiers, key, true), key, false) == v.modifiers);
}

/// Law: while text is typed without Ctrl or Alt, a character key is typed
/// into the text (unless it is full) and triggers no shortcut: the pen,
/// the frames and every flag but the redraw request stay as they were.
pub proof fn law_plain_characters_are_typed<S, C>(v: InputView<S, C>, c: char)
    requires
        v.state is TextInput,
        !v.modifiers.ctrl,
        !v.modifiers.alt,
    ensures
        ({
            let (w, e) = key_press_spec(v, Key::Char(c));
            &&& e == EffectView::Nothing
            &&& match v.state {
                DrawingView::TextInput { x, y, buffer } => if buffer.len() < MAX_TEXT_LEN {
                    w == InputView { state: DrawingView::TextInput { x, y, buffer: buffer.push(c) }, needs_redraw: true, ..v }
                } else {
                    w == v
                },
                _ => false,
            }
        }),
{
}

/// Law: when Escape is bound to Exit, Escape while typing drops the text and
/// goes back to idle without leaving the overlay or placing anything, and
/// Escape when idle asks to leave the overlay.
pub proof fn law_escape_cancels_then_exits<S, C>(v: InputView<S, C>)
    requires
        lookup_action(v, "Escape"@) == Some(Action::Exit),
    ensures
        v.state is TextInput ==> {
            let (w, e) = key_press_spec(v, Key::Escape);
            &&& w == InputView { state: DrawingView::Idle, needs_redraw: true, ..v }
            &&& e == EffectView::Nothing
        },
        v.state is Idle ==> key_press_spec(v, Key::Escape) == (
            InputView { should_exit: true, ..v },
            EffectView::Nothing,
        ),
{
    assert(key_name(Key::Escape) == Some("Escape"@));
}

/// Law: pressing the left button when idle and releasing it gives the shape
/// of the drag with the tool of the held modifiers, leaves the state idle
/// and the frames untouched; committing that shape then adds exactly it to
/// the active frame when the frame has room.
pub proof fn law_drag_draws_one_shape<S, C>(v: InputView<S, C>, x0: i32, y0: i32, x1: i32, y1: i32, shape: S)
    requires
        v.state is Idle,
    ensures
        ({
            let v1 = mouse_press_spec(v, MouseButton::Left, x0, y0);
            let (v2, g) = mouse_release_spec(v1, MouseButton::Left, x1, y1);
            let (v3, added) = commit_spec(v2, shape);
            &&& g == drag_geometry(tool_for(v.modifiers), x0, y0, seq![(x0, y0)], x1, y1)
            &&& g is Some
            &&& v2.state is Idle
            &&& v2.canvas == v.canvas
            &&& added == shape_fits(active_shapes(v.canvas).len(), v.max_shapes_per_frame)
            &&& added ==> active_shapes(v3.canvas) == active_shapes(v.canvas).push(shape)
            &&& !added ==> active_shapes(v3.canvas) == active_shapes(v.canvas)
            &&& v3.canvas.active_mode == v.canvas.active_mode
        }),
{
    let c = v.canvas;
    let shapes = active_shapes(c);
    assert(active_shapes(with_active(c, shapes.push(shape))) == shapes.push(shape));
    assert(active_shapes(with_active(c, shapes)) == shapes);
}

/// Law: undo right after a committed shape removes that shape and nothing else.
pub proof fn law_undo_after_commit<S, C>(v: InputView<S, C>, shape: S)
    requires
        shape_fits(active_shapes(v.canvas).len(), v.max_shapes_per_frame),
    ensures
        active_shapes(handle_action_spec(commit_spec(v, shape).0, Action::Undo).0.canvas) == active_shapes(v.canvas),
{
    let shapes = active_shapes(v.canvas);
    let c1 = with_active(v.canvas, shapes.push(shape));
    assert(active_shapes(c1) == shapes.push(shape));
    assert(shapes.push(shape).drop_last() =~= shapes);
    assert(active_shapes(with_active(c1, shapes)) == shapes);
}

/// Law: a right click cancels whatever is in progress (a drawing or a text
/// being typed) without touching the frames or the pen.
pub proof fn law_right_click_cancels<S, C>(v: InputView<S, C>, x: i32, y: i32)
    ensures
        ({
            let w = mouse_press_spec(v, MouseButton::Right, x, y);
            &&& w.state is Idle
            &&& w.canvas == v.canvas
            &&& w.current_color == v.current_color
            &&& w.should_exit == v.should_exit
        }),
{
}

} // verus!
