//! Keybinding configuration types and parsing.
//!
//! This module defines the configurable keybinding system that allows users
//! to customize keyboard shortcuts for all actions in the application.
use vstd::prelude::*;
use vstd::string::*;

use crate::text::{
    append_chars, ascii_fold, chars_eq_ignore_ascii_case, chars_eq_lower_word, chars_to_string,
    eq_ignore_ascii_case_seq, eq_lower_word, join_chars, join_with, replace_all, replace_chars,
    seqs_of, split_chars, split_on, str_chars, strings_of, sub_chars, trim_chars, trim_seq,
    is_space, lemma_split_at_sep, lemma_split_without_sep, trim_end_seq, trim_start_seq,
};

verus! {

/// All possible actions that can be bound to keys.
#[derive(Debug, Clone, Copy, PartialEq, Eq, Hash, Structural)]
pub enum Action {
    // Exit and cancellation
    Exit,
    // Drawing actions
    EnterTextMode,
    ClearCanvas,
    Undo,
    // Thickness controls
    IncreaseThickness,
    DecreaseThickness,
    IncreaseFontSize,
    DecreaseFontSize,
    // Board mode toggles
    ToggleWhiteboard,
    ToggleBlackboard,
    ReturnToTransparent,
    // UI toggles
    ToggleHelp,
    ToggleStatusBar,
    OpenConfigurator,
    // Color selections
    SetColorRed,
    SetColorGreen,
    SetColorBlue,
    SetColorYellow,
    SetColorOrange,
    SetColorPink,
    SetColorWhite,
    SetColorBlack,
    // Screenshot capture
    CaptureFullScreen,
    CaptureActiveWindow,
    CaptureSelection,
    CaptureClipboardFull,
    CaptureFileFull,
    CaptureClipboardSelection,
    CaptureFileSelection,
    CaptureClipboardRegion,
    CaptureFileRegion,
}

/// The name `{:?}` prints for an action.
pub open spec fn action_name(a: Action) -> Seq<char> {
    match a {
        Action::Exit => "Exit"@,
        Action::EnterTextMode => "EnterTextMode"@,
        Action::ClearCanvas => "ClearCanvas"@,
        Action::Undo => "Undo"@,
        Action::IncreaseThickness => "IncreaseThickness"@,
        Action::DecreaseThickness => "DecreaseThickness"@,
        Action::IncreaseFontSize => "IncreaseFontSize"@,
        Action::DecreaseFontSize => "DecreaseFontSize"@,
        Action::ToggleWhiteboard => "ToggleWhiteboard"@,
        Action::ToggleBlackboard => "ToggleBlackboard"@,
        Action::ReturnToTransparent => "ReturnToTransparent"@,
        Action::ToggleHelp => "ToggleHelp"@,
        Action::ToggleStatusBar => "ToggleStatusBar"@,
        Action::OpenConfigurator => "OpenConfigurator"@,
        Action::SetColorRed => "SetColorRed"@,
        Action::SetColorGreen => "SetColorGreen"@,
        Action::SetColorBlue => "SetColorBlue"@,
        Action::SetColorYellow => "SetColorYellow"@,
        Action::SetColorOrange => "SetColorOrange"@,
        Action::SetColorPink => "SetColorPink"@,
        Action::SetColorWhite => "SetColorWhite"@,
        Action::SetColorBlack => "SetColorBlack"@,
        Action::CaptureFullScreen => "CaptureFullScreen"@,
        Action::CaptureActiveWindow => "CaptureActiveWindow"@,
        Action::CaptureSelection => "CaptureSelection"@,
        Action::CaptureClipboardFull => "CaptureClipboardFull"@,
        Action::CaptureFileFull => "CaptureFileFull"@,
        Action::CaptureClipboardSelection => "CaptureClipboardSelection"@,
        Action::CaptureFileSelection => "CaptureFileSelection"@,
        Action::CaptureClipboardRegion => "CaptureClipboardRegion"@,
        Action::CaptureFileRegion => "CaptureFileRegion"@,
    }
}

impl Action {
    /// The name `{:?}` prints for this action.
    pub fn name(&self) -> (s: &'static str)
        ensures
            s@ == action_name(*self),
    {
        match self {
            Action::Exit => "Exit",
            Action::EnterTextMode => "EnterTextMode",
            Action::ClearCanvas => "ClearCanvas",
            Action::Undo => "Undo",
            Action::IncreaseThickness => "IncreaseThickness",
            Action::DecreaseThickness => "DecreaseThickness",
            Action::IncreaseFontSize => "IncreaseFontSize",
            Action::DecreaseFontSize => "DecreaseFontSize",
            Action::ToggleWhiteboard => "ToggleWhiteboard",
            Action::ToggleBlackboard => "ToggleBlackboard",
            Action::ReturnToTransparent => "ReturnToTransparent",
            Action::ToggleHelp => "ToggleHelp",
            Action::ToggleStatusBar => "ToggleStatusBar",
            Action::OpenConfigurator => "OpenConfigurator",
            Action::SetColorRed => "SetColorRed",
            Action::SetColorGreen => "SetColorGreen",
            Action::SetColorBlue => "SetColorBlue",
            Action::SetColorYellow => "SetColorYellow",
            Action::SetColorOrange => "SetColorOrange",
            Action::SetColorPink => "SetColorPink",
            Action::SetColorWhite => "SetColorWhite",
            Action::SetColorBlack => "SetColorBlack",
            Action::CaptureFullScreen => "CaptureFullScreen",
            Action::CaptureActiveWindow => "CaptureActiveWindow",
            Action::CaptureSelection => "CaptureSelection",
            Action::CaptureClipboardFull => "CaptureClipboardFull",
            Action::CaptureFileFull => "CaptureFileFull",
            Action::CaptureClipboardSelection => "CaptureClipboardSelection",
            Action::CaptureFileSelection => "CaptureFileSelection",
            Action::CaptureClipboardRegion => "CaptureClipboardRegion",
            Action::CaptureFileRegion => "CaptureFileRegion",
        }
    }
}

/// A single keybinding: a key with optional modifiers.
#[derive(Debug, Clone, PartialEq, Eq, Hash)]
pub struct KeyBinding {
    pub key: String,
    pub ctrl: bool,
    pub shift: bool,
    pub alt: bool,
}

/// The mathematical content of a [`KeyBinding`].
pub struct BindingView {
    pub key: Seq<char>,
    pub ctrl: bool,
    pub shift: bool,
    pub alt: bool,
}

impl View for KeyBinding {
    type V = BindingView;

    open spec fn view(&self) -> BindingView {
        BindingView { key: self.key@, ctrl: self.ctrl, shift: self.shift, alt: self.alt }
    }
}

/// A part naming the Ctrl modifier ("ctrl" or "control", any case).
pub open spec fn ctrl_word(p: Seq<char>) -> bool {
    eq_lower_word(p, seq!['c', 't', 'r', 'l']) || eq_lower_word(
        p,
        seq!['c', 'o', 'n', 't', 'r', 'o', 'l'],
    )
}

/// A part naming the Shift modifier ("shift", any case).
pub open spec fn shift_word(p: Seq<char>) -> bool {
    eq_lower_word(p, seq!['s', 'h', 'i', 'f', 't'])
}

/// A part naming the Alt modifier ("alt", any case).
pub open spec fn alt_word(p: Seq<char>) -> bool {
    eq_lower_word(p, seq!['a', 'l', 't'])
}

/// A part naming one of the modifiers.
pub open spec fn modifier_word(p: Seq<char>) -> bool {
    ctrl_word(p) || shift_word(p) || alt_word(p)
}

/// The parts that name no modifier, in their order.
pub open spec fn key_parts(ps: Seq<Seq<char>>) -> Seq<Seq<char>>
    decreases ps.len(),
{
    if ps.len() == 0 {
        Seq::<Seq<char>>::empty()
    } else {
        let r = key_parts(ps.drop_last());
        if modifier_word(ps.last()) {
            r
        } else {
            r.push(ps.last())
        }
    }
}

pub open spec fn has_ctrl(ps: Seq<Seq<char>>) -> bool {
    exists|j: int| 0 <= j < ps.len() && #[trigger] ctrl_word(ps[j])
}

pub open spec fn has_shift(ps: Seq<Seq<char>>) -> bool {
    exists|j: int| 0 <= j < ps.len() && #[trigger] shift_word(ps[j])
}

pub open spec fn has_alt(ps: Seq<Seq<char>>) -> bool {
    exists|j: int| 0 <= j < ps.len() && #[trigger] alt_word(ps[j])
}

/// The binding named by the '+'-separated parts: each modifier is set when
/// some part names it, and the key is the other parts joined with '+'
/// (a lone '+' when that join is empty). `None` when every part is a modifier.
pub open spec fn binding_from_parts(ps: Seq<Seq<char>>) -> Option<BindingView> {
    let ks = key_parts(ps);
    if ks.len() == 0 {
        None
    } else {
        let k = join_with(ks, seq!['+']);
        Some(
            BindingView {
                key: if k.len() == 0 {
                    seq!['+']
                } else {
                    k
                },
                ctrl: has_ctrl(ps),
                shift: has_shift(ps),
                alt: has_alt(ps),
            },
        )
    }
}

/// `s` with spaces around '+' removed: " + ", then "+ ", then " +" become "+".
pub open spec fn normalize_plus(s: Seq<char>) -> Seq<char> {
    replace_all(
        replace_all(replace_all(s, seq![' ', '+', ' '], seq!['+']), seq!['+', ' '], seq!['+']),
        seq![' ', '+'],
        seq!['+'],
    )
}

/// What parsing the keybinding text `s` gives: the binding, or the error message.
pub open spec fn parse_binding(s: Seq<char>) -> Result<BindingView, Seq<char>> {
    let t = trim_seq(s);
    if t.len() == 0 {
        Err("Empty keybinding string"@)
    } else {
        match binding_from_parts(split_on(normalize_plus(t), '+')) {
            None => Err("No key specified in: "@ + t),
            Some(b) => Ok(b),
        }
    }
}

/// A binding given by a key name and modifier state matches it when the key
/// names are equal up to ASCII case and the three modifiers are equal.
pub open spec fn binding_matches(b: BindingView, key: Seq<char>, ctrl: bool, shift: bool, alt: bool) -> bool {
    &&& eq_ignore_ascii_case_seq(b.key, key)
    &&& b.ctrl == ctrl
    &&& b.shift == shift
    &&& b.alt == alt
}

pub open spec fn binding_result_view(r: Result<KeyBinding, String>) -> Result<BindingView, Seq<char>> {
    match r {
        Ok(b) => Ok(b@),
        Err(e) => Err(e@),
    }
}

impl KeyBinding {
    /// Parse a keybinding string like "Ctrl+Shift+W" or "Escape".
    /// Modifiers can appear in any order: "Shift+Ctrl+W", "Alt+Shift+Ctrl+W", etc.
    /// Supports spaces around '+' (e.g., "Ctrl + Shift + W")
    pub fn parse(s: &str) -> (r: Result<Self, String>)
        ensures
            binding_result_view(r) == parse_binding(s@),
    {
        let chars = str_chars(s);
        let t = trim_chars(&chars);
        if t.len() == 0 {
            return Err(String::from_str("Empty keybinding string"));
        }
        let plus = vec!['+'];
        let spaced = vec![' ', '+', ' '];
        let after = vec!['+', ' '];
        let before = vec![' ', '+'];
        let n1 = replace_chars(&t, &spaced, &plus);
        let n2 = replace_chars(&n1, &after, &plus);
        let n3 = replace_chars(&n2, &before, &plus);
        let parts = split_chars(&n3, '+');
        let ghost ps = seqs_of(parts@);
        let w_ctrl = vec!['c', 't', 'r', 'l'];
        let w_control = vec!['c', 'o', 'n', 't', 'r', 'o', 'l'];
        let w_shift = vec!['s', 'h', 'i', 'f', 't'];
        let w_alt = vec!['a', 'l', 't'];
        let mut ctrl = false;
        let mut shift = false;
        let mut alt = false;
        let mut keys: Vec<Vec<char>> = Vec::new();
        let mut i: usize = 0;
        while i < parts.len()
            invariant
                i <= parts.len(),
                ps == seqs_of(parts@),
                w_ctrl@ == seq!['c', 't', 'r', 'l'],
                w_control@ == seq!['c', 'o', 'n', 't', 'r', 'o', 'l'],
                w_shift@ == seq!['s', 'h', 'i', 'f', 't'],
                w_alt@ == seq!['a', 'l', 't'],
                ctrl == has_ctrl(ps.take(i as int)),
                shift == has_shift(ps.take(i as int)),
                alt == has_alt(ps.take(i as int)),
                seqs_of(keys@) == key_parts(ps.take(i as int)),
            decreases parts.len() - i,
        {
            let p = &parts[i];
            let is_ctrl = chars_eq_lower_word(p, &w_ctrl) || chars_eq_lower_word(p, &w_control);
            let is_shift = chars_eq_lower_word(p, &w_shift);
            let is_alt = chars_eq_lower_word(p, &w_alt);
            let ghost pre = ps.take(i as int);
            let ghost post = ps.take(i as int + 1);
            proof {
                assert(post.drop_last() =~= pre);
                assert(post.last() == p@);
                assert(is_ctrl == ctrl_word(p@));
                assert(is_shift == shift_word(p@));
                assert(is_alt == alt_word(p@));
                assert(has_ctrl(post) == (has_ctrl(pre) || ctrl_word(p@))) by {
                    if ctrl_word(p@) {
                        assert(ctrl_word(post[i as int]));
                    }
                    if has_ctrl(post) {
                        let j = choose|j: int| 0 <= j < post.len() && #[trigger] ctrl_word(post[j]);
                        if j < i {
                            assert(ctrl_word(pre[j]));
                        }
                    }
                    if has_ctrl(pre) {
                        let j = choose|j: int| 0 <= j < pre.len() && #[trigger] ctrl_word(pre[j]);
                        assert(ctrl_word(post[j]));
                    }
                }
                assert(has_shift(post) == (has_shift(pre) || shift_word(p@))) by {
                    if shift_word(p@) {
                        assert(shift_word(post[i as int]));
                    }
                    if has_shift(post) {
                        let j = choose|j: int| 0 <= j < post.len() && #[trigger] shift_word(post[j]);
                        if j < i {
                            assert(shift_word(pre[j]));
                        }
                    }
                    if has_shift(pre) {
                        let j = choose|j: int| 0 <= j < pre.len() && #[trigger] shift_word(pre[j]);
                        assert(shift_word(post[j]));
                    }
                }
                assert(has_alt(post) == (has_alt(pre) || alt_word(p@))) by {
                    if alt_word(p@) {
                        assert(alt_word(post[i as int]));
                    }
                    if has_alt(post) {
                        let j = choose|j: int| 0 <= j < post.len() && #[trigger] alt_word(post[j]);
                        if j < i {
                            assert(alt_word(pre[j]));
                        }
                    }
                    if has_alt(pre) {
                        let j = choose|j: int| 0 <= j < pre.len() && #[trigger] alt_word(pre[j]);
                        assert(alt_word(post[j]));
                    }
                }
            }
            if is_ctrl {
                ctrl = true;
            } else if is_shift {
                shift = true;
            } else if is_alt {
                alt = true;
            } else {
                let copy = sub_chars(p, 0, p.len());
                proof {
                    assert(copy@ =~= p@);
                }
                keys.push(copy);
                proof {
                    assert(seqs_of(keys@) =~= key_parts(pre).push(p@));
                }
            }
            i += 1;
        }
        proof {
            assert(ps.take(parts.len() as int) =~= ps);
            assert(t@ == trim_seq(s@));
            assert(spaced@ == seq![' ', '+', ' ']);
            assert(after@ == seq!['+', ' ']);
            assert(before@ == seq![' ', '+']);
            assert(plus@ == seq!['+']);
            assert(n3@ == normalize_plus(t@));
            assert(ps == split_on(normalize_plus(trim_seq(s@)), '+'));
        }
        if keys.len() == 0 {
            let mut msg = String::from_str("No key specified in: ");
            append_chars(&mut msg, &t);
            return Err(msg);
        }
        let joined = join_chars(&keys, '+');
        let key = if joined.len() == 0 {
            String::from_str("+")
        } else {
            chars_to_string(&joined)
        };
        proof {
            reveal_strlit("+");
            if joined.len() == 0 {
                assert(key@ =~= seq!['+']);
            }
        }
        Ok(Self { key, ctrl, shift, alt })
    }

    /// Check if this keybinding matches the current input state.
    pub fn matches(&self, key: &str, ctrl: bool, shift: bool, alt: bool) -> (b: bool)
        ensures
            b == binding_matches(self@, key@, ctrl, shift, alt),
    {
        let mine = str_chars(self.key.as_str());
        let theirs = str_chars(key);
        chars_eq_ignore_ascii_case(&mine, &theirs) && self.ctrl == ctrl && self.shift == shift
            && self.alt == alt
    }
}


/// Configuration for all keybindings.
///
/// Each action can have multiple keybindings. Users specify them in config.toml as:
/// ```toml
/// [keybindings]
/// exit = ["Escape", "Ctrl+Q"]
/// undo = ["Ctrl+Z"]
/// clear_canvas = ["E"]
/// ```
#[derive(Debug, Clone)]
pub struct KeybindingsConfig {
    pub exit: Vec<String>,
    pub enter_text_mode: Vec<String>,
    pub clear_canvas: Vec<String>,
    pub undo: Vec<String>,
    pub increase_thickness: Vec<String>,
    pub decrease_thickness: Vec<String>,
    pub increase_font_size: Vec<String>,
    pub decrease_font_size: Vec<String>,
    pub toggle_whiteboard: Vec<String>,
    pub toggle_blackboard: Vec<String>,
    pub return_to_transparent: Vec<String>,
    pub toggle_help: Vec<String>,
    pub toggle_status_bar: Vec<String>,
    pub open_configurator: Vec<String>,
    pub set_color_red: Vec<String>,
    pub set_color_green: Vec<String>,
    pub set_color_blue: Vec<String>,
    pub set_color_yellow: Vec<String>,
    pub set_color_orange: Vec<String>,
    pub set_color_pink: Vec<String>,
    pub set_color_white: Vec<String>,
    pub set_color_black: Vec<String>,
    pub capture_full_screen: Vec<String>,
    pub capture_active_window: Vec<String>,
    pub capture_selection: Vec<String>,
    pub capture_clipboard_full: Vec<String>,
    pub capture_file_full: Vec<String>,
    pub capture_clipboard_selection: Vec<String>,
    pub capture_file_selection: Vec<String>,
    pub capture_clipboard_region: Vec<String>,
    pub capture_file_region: Vec<String>,
}

/// Every field holds its default bindings.
pub open spec fn is_default_keybindings(c: KeybindingsConfig) -> bool {
    &&& strings_of(c.exit@) == seq!["Escape"@, "Ctrl+Q"@]
    &&& strings_of(c.enter_text_mode@) == seq!["T"@]
    &&& strings_of(c.clear_canvas@) == seq!["E"@]
    &&& strings_of(c.undo@) == seq!["Ctrl+Z"@]
    &&& strings_of(c.increase_thickness@) == seq!["+"@, "="@]
    &&& strings_of(c.decrease_thickness@) == seq!["-"@, "_"@]
    &&& strings_of(c.increase_font_size@) == seq!["Ctrl+Shift++"@, "Ctrl+Shift+="@]
    &&& strings_of(c.decrease_font_size@) == seq!["Ctrl+Shift+-"@, "Ctrl+Shift+_"@]
    &&& strings_of(c.toggle_whiteboard@) == seq!["Ctrl+W"@]
    &&& strings_of(c.toggle_blackboard@) == seq!["Ctrl+B"@]
    &&& strings_of(c.return_to_transparent@) == seq!["Ctrl+Shift+T"@]
    &&& strings_of(c.toggle_help@) == seq!["F10"@]
    &&& strings_of(c.toggle_status_bar@) == seq!["F12"@]
    &&& strings_of(c.open_configurator@) == seq!["F11"@]
    &&& strings_of(c.set_color_red@) == seq!["R"@]
    &&& strings_of(c.set_color_green@) == seq!["G"@]
    &&& strings_of(c.set_color_blue@) == seq!["B"@]
    &&& strings_of(c.set_color_yellow@) == seq!["Y"@]
    &&& strings_of(c.set_color_orange@) == seq!["O"@]
    &&& strings_of(c.set_color_pink@) == seq!["P"@]
    &&& strings_of(c.set_color_white@) == seq!["W"@]
    &&& strings_of(c.set_color_black@) == seq!["K"@]
    &&& strings_of(c.capture_full_screen@) == seq!["Ctrl+Shift+P"@]
    &&& strings_of(c.capture_active_window@) == seq!["Ctrl+Shift+O"@]
    &&& strings_of(c.capture_selection@) == seq!["Ctrl+Shift+I"@]
    &&& strings_of(c.capture_clipboard_full@) == seq!["Ctrl+C"@]
    &&& strings_of(c.capture_file_full@) == seq!["Ctrl+S"@]
    &&& strings_of(c.capture_clipboard_selection@) == seq!["Ctrl+Shift+C"@]
    &&& strings_of(c.capture_file_selection@) == seq!["Ctrl+Shift+S"@]
    &&& strings_of(c.capture_clipboard_region@) == seq!["Ctrl+6"@]
    &&& strings_of(c.capture_file_region@) == seq!["Ctrl+Shift+6"@]
}

impl Default for KeybindingsConfig {
    fn default() -> (c: Self)
        ensures
            is_default_keybindings(c),
    {
        Self {
            exit: default_exit(),
            enter_text_mode: default_enter_text_mode(),
            clear_canvas: default_clear_canvas(),
            undo: default_undo(),
            increase_thickness: default_increase_thickness(),
            decrease_thickness: default_decrease_thickness(),
            increase_font_size: default_increase_font_size(),
            decrease_font_size: default_decrease_font_size(),
            toggle_whiteboard: default_toggle_whiteboard(),
            toggle_blackboard: default_toggle_blackboard(),
            return_to_transparent: default_return_to_transparent(),
            toggle_help: default_toggle_help(),
            toggle_status_bar: default_toggle_status_bar(),
            open_configurator: default_open_configurator(),
            set_color_red: default_set_color_red(),
            set_color_green: default_set_color_green(),
            set_color_blue: default_set_color_blue(),
            set_color_yellow: default_set_color_yellow(),
            set_color_orange: default_set_color_orange(),
            set_color_pink: default_set_color_pink(),
            set_color_white: default_set_color_white(),
            set_color_black: default_set_color_black(),
            capture_full_screen: default_capture_full_screen(),
            capture_active_window: default_capture_active_window(),
            capture_selection: default_capture_selection(),
            capture_clipboard_full: default_capture_clipboard_full(),
            capture_file_full: default_capture_file_full(),
            capture_clipboard_selection: default_capture_clipboard_selection(),
            capture_file_selection: default_capture_file_selection(),
            capture_clipboard_region: default_capture_clipboard_region(),
            capture_file_region: default_capture_file_region(),
        }
    }
}

/// The configured binding texts of each action, in the order the action map
/// is built: exit first, black last.
pub open spec fn binding_groups(c: KeybindingsConfig) -> Seq<(Seq<Seq<char>>, Action)> {
    seq![
        (strings_of(c.exit@), Action::Exit),
        (strings_of(c.enter_text_mode@), Action::EnterTextMode),
        (strings_of(c.clear_canvas@), Action::ClearCanvas),
        (strings_of(c.undo@), Action::Undo),
        (strings_of(c.increase_thickness@), Action::IncreaseThickness),
        (strings_of(c.decrease_thickness@), Action::DecreaseThickness),
        (strings_of(c.increase_font_size@), Action::IncreaseFontSize),
        (strings_of(c.decrease_font_size@), Action::DecreaseFontSize),
        (strings_of(c.toggle_whiteboard@), Action::ToggleWhiteboard),
        (strings_of(c.toggle_blackboard@), Action::ToggleBlackboard),
        (strings_of(c.return_to_transparent@), Action::ReturnToTransparent),
        (strings_of(c.toggle_help@), Action::ToggleHelp),
        (strings_of(c.toggle_status_bar@), Action::ToggleStatusBar),
        (strings_of(c.open_configurator@), Action::OpenConfigurator),
        (strings_of(c.set_color_red@), Action::SetColorRed),
        (strings_of(c.set_color_green@), Action::SetColorGreen),
        (strings_of(c.set_color_blue@), Action::SetColorBlue),
        (strings_of(c.set_color_yellow@), Action::SetColorYellow),
        (strings_of(c.set_color_orange@), Action::SetColorOrange),
        (strings_of(c.set_color_pink@), Action::SetColorPink),
        (strings_of(c.set_color_white@), Action::SetColorWhite),
        (strings_of(c.set_color_black@), Action::SetColorBlack),
        (strings_of(c.capture_full_screen@), Action::CaptureFullScreen),
        (strings_of(c.capture_active_window@), Action::CaptureActiveWindow),
        (strings_of(c.capture_selection@), Action::CaptureSelection),
        (strings_of(c.capture_clipboard_full@), Action::CaptureClipboardFull),
        (strings_of(c.capture_file_full@), Action::CaptureFileFull),
        (strings_of(c.capture_clipboard_selection@), Action::CaptureClipboardSelection),
        (strings_of(c.capture_file_selection@), Action::CaptureFileSelection),
        (strings_of(c.capture_clipboard_region@), Action::CaptureClipboardRegion),
        (strings_of(c.capture_file_region@), Action::CaptureFileRegion),
    ]
}

/// Each text of a group paired with the group's action.
pub open spec fn group_entries(strs: Seq<Seq<char>>, a: Action) -> Seq<(Seq<char>, Action)> {
    strs.map_values(|s: Seq<char>| (s, a))
}

/// The groups' entries, one group after another.
pub open spec fn flatten_groups(gs: Seq<(Seq<Seq<char>>, Action)>) -> Seq<(Seq<char>, Action)>
    decreases gs.len(),
{
    if gs.len() == 0 {
        Seq::<(Seq<char>, Action)>::empty()
    } else {
        group_entries(gs[0].0, gs[0].1) + flatten_groups(gs.drop_first())
    }
}

/// Every (binding text, action) pair of the configuration, in build order.
pub open spec fn config_entries(c: KeybindingsConfig) -> Seq<(Seq<char>, Action)> {
    flatten_groups(binding_groups(c))
}

/// The action bound to `b` in the map model `m`, if any.
pub open spec fn lookup(m: Seq<(BindingView, Action)>, b: BindingView) -> Option<Action>
    decreases m.len(),
{
    if m.len() == 0 {
        None
    } else if m.last().0 == b {
        Some(m.last().1)
    } else {
        lookup(m.drop_last(), b)
    }
}

/// The error reported when `text` parses to a binding already bound to `prev`.
pub open spec fn duplicate_message(text: Seq<char>, prev: Action, a: Action) -> Seq<char> {
    "Duplicate keybinding '"@ + text + "' assigned to both "@ + action_name(prev) + " and "@
        + action_name(a)
}

/// Adds one (text, action) entry to the map model.
pub open spec fn insert_step(m: Seq<(BindingView, Action)>, e: (Seq<char>, Action)) -> Result<
    Seq<(BindingView, Action)>,
    Seq<char>,
> {
    match parse_binding(e.0) {
        Err(msg) => Err(msg),
        Ok(b) => match lookup(m, b) {
            Some(prev) => Err(duplicate_message(e.0, prev, e.1)),
            None => Ok(m.push((b, e.1))),
        },
    }
}

/// Adds the entries `es` in order, stopping at the first error.
pub open spec fn build_from(m: Seq<(BindingView, Action)>, es: Seq<(Seq<char>, Action)>) -> Result<
    Seq<(BindingView, Action)>,
    Seq<char>,
>
    decreases es.len(),
{
    if es.len() == 0 {
        Ok(m)
    } else {
        match insert_step(m, es[0]) {
            Err(msg) => Err(msg),
            Ok(m2) => build_from(m2, es.drop_first()),
        }
    }
}

/// What building the action map of `c` gives.
pub open spec fn build_spec(c: KeybindingsConfig) -> Result<Seq<(BindingView, Action)>, Seq<char>> {
    build_from(Seq::<(BindingView, Action)>::empty(), config_entries(c))
}

pub open spec fn entries_view(v: Seq<(KeyBinding, Action)>) -> Seq<(BindingView, Action)> {
    v.map_values(|p: (KeyBinding, Action)| (p.0@, p.1))
}

/// Lookup table from keybindings to actions, kept in insertion order.
#[derive(Debug, Clone)]
pub struct ActionMap {
    entries: Vec<(KeyBinding, Action)>,
}

impl View for ActionMap {
    type V = Seq<(BindingView, Action)>;

    closed spec fn view(&self) -> Seq<(BindingView, Action)> {
        entries_view(self.entries@)
    }
}

/// The action of the first entry of `m` whose binding matches the key state.
pub open spec fn first_match(m: Seq<(BindingView, Action)>, key: Seq<char>, ctrl: bool, shift: bool, alt: bool) -> Option<Action>
    decreases m.len(),
{
    if m.len() == 0 {
        None
    } else if binding_matches(m[0].0, key, ctrl, shift, alt) {
        Some(m[0].1)
    } else {
        first_match(m.drop_first(), key, ctrl, shift, alt)
    }
}

/// Law: a key press finds an action only through a binding whose key name
/// equals the pressed one up to ASCII case and whose Ctrl, Shift and Alt
/// flags are exactly the pressed ones; with no such binding it finds none.
/// The first such binding decides.
pub proof fn law_match_needs_key_and_exact_modifiers(
    m: Seq<(BindingView, Action)>,
    key: Seq<char>,
    ctrl: bool,
    shift: bool,
    alt: bool,
)
    ensures
        first_match(m, key, ctrl, shift, alt) is None <==> forall|i: int|
            0 <= i < m.len() ==> !(#[trigger] m[i].0.ctrl == ctrl && m[i].0.shift == shift && m[i].0.alt == alt
                && eq_ignore_ascii_case_seq(m[i].0.key, key)),
        first_match(m, key, ctrl, shift, alt) is Some ==> exists|i: int|
            0 <= i < m.len() && #[trigger] m[i].0.ctrl == ctrl && m[i].0.shift == shift && m[i].0.alt == alt
                && eq_ignore_ascii_case_seq(m[i].0.key, key) && Some(m[i].1) == first_match(m, key, ctrl, shift, alt)
                && forall|j: int| 0 <= j < i ==> !(#[trigger] m[j].0.ctrl == ctrl && m[j].0.shift == shift
                && m[j].0.alt == alt && eq_ignore_ascii_case_seq(m[j].0.key, key)),
    decreases m.len(),
{
    if m.len() > 0 {
        let rest = m.drop_first();
        law_match_needs_key_and_exact_modifiers(rest, key, ctrl, shift, alt);
        assert forall|i: int| 0 < i < m.len() implies #[trigger] m[i] == rest[i - 1] by {}
        if binding_matches(m[0].0, key, ctrl, shift, alt) {
            assert(m[0].0.ctrl == ctrl);
        } else if first_match(rest, key, ctrl, shift, alt) is Some {
            let k = choose|i: int|
                0 <= i < rest.len() && #[trigger] rest[i].0.ctrl == ctrl && rest[i].0.shift == shift && rest[i].0.alt
                    == alt && eq_ignore_ascii_case_seq(rest[i].0.key, key) && Some(rest[i].1) == first_match(
                    rest,
                    key,
                    ctrl,
                    shift,
                    alt,
                ) && forall|j: int| 0 <= j < i ==> !(#[trigger] rest[j].0.ctrl == ctrl && rest[j].0.shift == shift
                    && rest[j].0.alt == alt && eq_ignore_ascii_case_seq(rest[j].0.key, key));
            assert(m[k + 1] == rest[k]);
            assert forall|j: int| 0 <= j < k + 1 implies !(#[trigger] m[j].0.ctrl == ctrl && m[j].0.shift == shift
                && m[j].0.alt == alt && eq_ignore_ascii_case_seq(m[j].0.key, key)) by {
                if j > 0 {
                    assert(m[j] == rest[j - 1]);
                }
            }
        } else {
            assert forall|i: int| 0 <= i < m.len() implies !(#[trigger] m[i].0.ctrl == ctrl && m[i].0.shift == shift
                && m[i].0.alt == alt && eq_ignore_ascii_case_seq(m[i].0.key, key)) by {
                if i > 0 {
                    assert(m[i] == rest[i - 1]);
                }
            }
        }
    }
}

fn same_binding(a: &KeyBinding, b: &KeyBinding) -> (r: bool)
    ensures
        r == (a@ == b@),
{
    a.key == b.key && a.ctrl == b.ctrl && a.shift == b.shift && a.alt == b.alt
}

fn lookup_entries(entries: &Vec<(KeyBinding, Action)>, b: &KeyBinding) -> (r: Option<usize>)
    ensures
        match r {
            Some(i) => i < entries.len() && lookup(entries_view(entries@), b@) == Some(entries@[i as int].1),
            None => lookup(entries_view(entries@), b@) is None,
        },
{
    let mut i = entries.len();
    proof {
        assert(entries_view(entries@).take(i as int) =~= entries_view(entries@));
    }
    while i > 0
        invariant
            i <= entries.len(),
            lookup(entries_view(entries@), b@) == lookup(entries_view(entries@).take(i as int), b@),
        decreases i,
    {
        let ghost pre = entries_view(entries@).take(i as int);
        proof {
            assert(pre.drop_last() =~= entries_view(entries@).take(i as int - 1));
        }
        if same_binding(&entries[i - 1].0, b) {
            return Some(i - 1);
        }
        i -= 1;
    }
    proof {
        assert(entries_view(entries@).take(0) =~= Seq::<(BindingView, Action)>::empty());
    }
    None
}

impl ActionMap {
    /// The number of bindings.
    pub fn len(&self) -> (n: usize)
        ensures
            n == self@.len(),
    {
        self.entries.len()
    }

    /// The action bound to `binding`, if any.
    pub fn get(&self, binding: &KeyBinding) -> (r: Option<&Action>)
        ensures
            match r {
                Some(a) => lookup(self@, binding@) == Some(*a),
                None => lookup(self@, binding@) is None,
            },
    {
        match lookup_entries(&self.entries, binding) {
            Some(i) => Some(&self.entries[i].1),
            None => None,
        }
    }

    /// The action of the first binding that matches the key name and modifiers.
    pub fn find_match(&self, key: &str, ctrl: bool, shift: bool, alt: bool) -> (r: Option<Action>)
        ensures
            r == first_match(self@, key@, ctrl, shift, alt),
    {
        let mut i: usize = 0;
        proof {
            assert(self@.skip(0) =~= self@);
        }
        while i < self.entries.len()
            invariant
                i <= self.entries.len(),
                first_match(self@, key@, ctrl, shift, alt) == first_match(self@.skip(i as int), key@, ctrl, shift, alt),
            decreases self.entries.len() - i,
        {
            proof {
                assert(self@.skip(i as int).drop_first() =~= self@.skip(i as int + 1));
            }
            if self.entries[i].0.matches(key, ctrl, shift, alt) {
                return Some(self.entries[i].1);
            }
            i += 1;
        }
        None
    }
}

proof fn lemma_build_concat(m: Seq<(BindingView, Action)>, a: Seq<(Seq<char>, Action)>, b: Seq<(Seq<char>, Action)>)
    ensures
        build_from(m, a + b) == match build_from(m, a) {
            Err(msg) => Err(msg),
            Ok(m2) => build_from(m2, b),
        },
    decreases a.len(),
{
    if a.len() == 0 {
        assert(a + b =~= b);
    } else {
        assert((a + b)[0] == a[0]);
        assert((a + b).drop_first() =~= a.drop_first() + b);
        match insert_step(m, a[0]) {
            Err(_) => {},
            Ok(m2) => {
                lemma_build_concat(m2, a.drop_first(), b);
            },
        }
    }
}

fn build_message(text: &String, prev: Action, action: Action) -> (msg: String)
    ensures
        msg@ == duplicate_message(text@, prev, action),
{
    let mut msg = String::from_str("Duplicate keybinding '");
    msg.append(text.as_str());
    msg.append("' assigned to both ");
    msg.append(prev.name());
    msg.append(" and ");
    msg.append(action.name());
    msg
}

fn insert_group(entries: &mut Vec<(KeyBinding, Action)>, strs: &Vec<String>, action: Action) -> (r: Result<(), String>)
    ensures
        match r {
            Ok(_) => build_from(entries_view(old(entries)@), group_entries(strings_of(strs@), action)) == Ok::<Seq<(BindingView, Action)>, Seq<char>>(entries_view(final(entries)@)),
            Err(e) => build_from(entries_view(old(entries)@), group_entries(strings_of(strs@), action)) == Err::<Seq<(BindingView, Action)>, Seq<char>>(e@),
        },
{
    let ghost ge = group_entries(strings_of(strs@), action);
    let ghost goal = build_from(entries_view(entries@), ge);
    let mut i: usize = 0;
    proof {
        assert(ge.skip(0) =~= ge);
    }
    while i < strs.len()
        invariant
            i <= strs.len(),
            ge == group_entries(strings_of(strs@), action),
            goal == build_from(entries_view(old(entries)@), ge),
            goal == build_from(entries_view(entries@), ge.skip(i as int)),
        decreases strs.len() - i,
    {
        let text = &strs[i];
        let ghost rest = ge.skip(i as int);
        proof {
            assert(rest[0] == (text@, action));
            assert(rest.drop_first() =~= ge.skip(i as int + 1));
        }
        let binding = KeyBinding::parse(text.as_str());
        proof {
            assert(rest.len() > 0);
            assert(build_from(entries_view(entries@), rest) == match insert_step(entries_view(entries@), rest[0]) {
                Err(msg) => Err(msg),
                Ok(m2) => build_from(m2, rest.drop_first()),
            });
        }
        match binding {
            Err(e) => {
                return Err(e);
            },
            Ok(b) => {
                match lookup_entries(entries, &b) {
                    Some(k) => {
                        let prev = entries[k].1;
                        return Err(build_message(text, prev, action));
                    },
                    None => {
                        let ghost before = entries_view(entries@);
                        entries.push((b, action));
                        proof {
                            assert(entries_view(entries@) =~= before.push((b@, action)));
                        }
                    },
                }
            },
        }
        i += 1;
    }
    proof {
        assert(ge.skip(strs.len() as int) =~= Seq::<(Seq<char>, Action)>::empty());
    }
    Ok(())
}

impl KeybindingsConfig {
    /// The bindings of one action, by position in build order.
    fn group(&self, k: usize) -> (g: (&Vec<String>, Action))
        requires
            k < 31,
        ensures
            (strings_of(g.0@), g.1) == binding_groups(*self)[k as int],
    {
        match k {
            0 => (&self.exit, Action::Exit),
            1 => (&self.enter_text_mode, Action::EnterTextMode),
            2 => (&self.clear_canvas, Action::ClearCanvas),
            3 => (&self.undo, Action::Undo),
            4 => (&self.increase_thickness, Action::IncreaseThickness),
            5 => (&self.decrease_thickness, Action::DecreaseThickness),
            6 => (&self.increase_font_size, Action::IncreaseFontSize),
            7 => (&self.decrease_font_size, Action::DecreaseFontSize),
            8 => (&self.toggle_whiteboard, Action::ToggleWhiteboard),
            9 => (&self.toggle_blackboard, Action::ToggleBlackboard),
            10 => (&self.return_to_transparent, Action::ReturnToTransparent),
            11 => (&self.toggle_help, Action::ToggleHelp),
            12 => (&self.toggle_status_bar, Action::ToggleStatusBar),
            13 => (&self.open_configurator, Action::OpenConfigurator),
            14 => (&self.set_color_red, Action::SetColorRed),
            15 => (&self.set_color_green, Action::SetColorGreen),
            16 => (&self.set_color_blue, Action::SetColorBlue),
            17 => (&self.set_color_yellow, Action::SetColorYellow),
            18 => (&self.set_color_orange, Action::SetColorOrange),
            19 => (&self.set_color_pink, Action::SetColorPink),
            20 => (&self.set_color_white, Action::SetColorWhite),
            21 => (&self.set_color_black, Action::SetColorBlack),
            22 => (&self.capture_full_screen, Action::CaptureFullScreen),
            23 => (&self.capture_active_window, Action::CaptureActiveWindow),
            24 => (&self.capture_selection, Action::CaptureSelection),
            25 => (&self.capture_clipboard_full, Action::CaptureClipboardFull),
            26 => (&self.capture_file_full, Action::CaptureFileFull),
            27 => (&self.capture_clipboard_selection, Action::CaptureClipboardSelection),
            28 => (&self.capture_file_selection, Action::CaptureFileSelection),
            29 => (&self.capture_clipboard_region, Action::CaptureClipboardRegion),
            _ => (&self.capture_file_region, Action::CaptureFileRegion),
        }
    }

    /// Build a lookup map from keybindings to actions for efficient matching.
    /// Returns an error if any keybinding string is invalid or if duplicates are detected.
    pub fn build_action_map(&self) -> (r: Result<ActionMap, String>)
        ensures
            match r {
                Ok(m) => build_spec(*self) == Ok::<Seq<(BindingView, Action)>, Seq<char>>(m@),
                Err(e) => build_spec(*self) == Err::<Seq<(BindingView, Action)>, Seq<char>>(e@),
            },
    {
        let mut entries: Vec<(KeyBinding, Action)> = Vec::new();
        let ghost gs = binding_groups(*self);
        let mut k: usize = 0;
        proof {
            assert(gs.skip(0) =~= gs);
            assert(entries_view(entries@) =~= Seq::<(BindingView, Action)>::empty());
        }
        while k < 31
            invariant
                k <= 31,
                gs == binding_groups(*self),
                gs.len() == 31,
                build_spec(*self) == build_from(entries_view(entries@), flatten_groups(gs.skip(k as int))),
            decreases 31 - k,
        {
            let (strs, action) = self.group(k);
            let ghost rest = gs.skip(k as int);
            let ghost before = entries_view(entries@);
            proof {
                assert(rest[0] == gs[k as int]);
                assert(rest.drop_first() =~= gs.skip(k as int + 1));
                lemma_build_concat(before, group_entries(rest[0].0, rest[0].1), flatten_groups(rest.drop_first()));
            }
            match insert_group(&mut entries, strs, action) {
                Err(e) => {
                    return Err(e);
                },
                Ok(()) => {},
            }
            k += 1;
        }
        proof {
            assert(gs.skip(31) =~= Seq::<(Seq<Seq<char>>, Action)>::empty());
        }
        Ok(ActionMap { entries })
    }
}


fn default_exit() -> (v: Vec<String>)
    ensures
        strings_of(v@) == seq!["Escape"@, "Ctrl+Q"@],
{
    let v = vec![String::from_str("Escape"), String::from_str("Ctrl+Q")];
    proof {
        assert(strings_of(v@) =~= seq!["Escape"@, "Ctrl+Q"@]);
    }
    v
}

fn default_enter_text_mode() -> (v: Vec<String>)
    ensures
        strings_of(v@) == seq!["T"@],
{
    let v = vec![String::from_str("T")];
    proof {
        assert(strings_of(v@) =~= seq!["T"@]);
    }
    v
}

fn default_clear_canvas() -> (v: Vec<String>)
    ensures
        strings_of(v@) == seq!["E"@],
{
    let v = vec![String::from_str("E")];
    proof {
        assert(strings_of(v@) =~= seq!["E"@]);
    }
    v
}

fn default_undo() -> (v: Vec<String>)
    ensures
        strings_of(v@) == seq!["Ctrl+Z"@],
{
    let v = vec![String::from_str("Ctrl+Z")];
    proof {
        assert(strings_of(v@) =~= seq!["Ctrl+Z"@]);
    }
    v
}

fn default_increase_thickness() -> (v: Vec<String>)
    ensures
        strings_of(v@) == seq!["+"@, "="@],
{
    let v = vec![String::from_str("+"), String::from_str("=")];
    proof {
        assert(strings_of(v@) =~= seq!["+"@, "="@]);
    }
    v
}

fn default_decrease_thickness() -> (v: Vec<String>)
    ensures
        strings_of(v@) == seq!["-"@, "_"@],
{
    let v = vec![String::from_str("-"), String::from_str("_")];
    proof {
        assert(strings_of(v@) =~= seq!["-"@, "_"@]);
    }
    v
}

fn default_increase_font_size() -> (v: Vec<String>)
    ensures
        strings_of(v@) == seq!["Ctrl+Shift++"@, "Ctrl+Shift+="@],
{
    let v = vec![String::from_str("Ctrl+Shift++"), String::from_str("Ctrl+Shift+=")];
    proof {
        assert(strings_of(v@) =~= seq!["Ctrl+Shift++"@, "Ctrl+Shift+="@]);
    }
    v
}

fn default_decrease_font_size() -> (v: Vec<String>)
    ensures
        strings_of(v@) == seq!["Ctrl+Shift+-"@, "Ctrl+Shift+_"@],
{
    let v = vec![String::from_str("Ctrl+Shift+-"), String::from_str("Ctrl+Shift+_")];
    proof {
        assert(strings_of(v@) =~= seq!["Ctrl+Shift+-"@, "Ctrl+Shift+_"@]);
    }
    v
}

fn default_toggle_whiteboard() -> (v: Vec<String>)
    ensures
        strings_of(v@) == seq!["Ctrl+W"@],
{
    let v = vec![String::from_str("Ctrl+W")];
    proof {
        assert(strings_of(v@) =~= seq!["Ctrl+W"@]);
    }
    v
}

fn default_toggle_blackboard() -> (v: Vec<String>)
    ensures
        strings_of(v@) == seq!["Ctrl+B"@],
{
    let v = vec![String::from_str("Ctrl+B")];
    proof {
        assert(strings_of(v@) =~= seq!["Ctrl+B"@]);
    }
    v
}

fn default_return_to_transparent() -> (v: Vec<String>)
    ensures
        strings_of(v@) == seq!["Ctrl+Shift+T"@],
{
    let v = vec![String::from_str("Ctrl+Shift+T")];
    proof {
        assert(strings_of(v@) =~= seq!["Ctrl+Shift+T"@]);
    }
    v
}

fn default_toggle_help() -> (v: Vec<String>)
    ensures
        strings_of(v@) == seq!["F10"@],
{
    let v = vec![String::from_str("F10")];
    proof {
        assert(strings_of(v@) =~= seq!["F10"@]);
    }
    v
}

fn default_toggle_status_bar() -> (v: Vec<String>)
    ensures
        strings_of(v@) == seq!["F12"@],
{
    let v = vec![String::from_str("F12")];
    proof {
        assert(strings_of(v@) =~= seq!["F12"@]);
    }
    v
}

fn default_open_configurator() -> (v: Vec<String>)
    ensures
        strings_of(v@) == seq!["F11"@],
{
    let v = vec![String::from_str("F11")];
    proof {
        assert(strings_of(v@) =~= seq!["F11"@]);
    }
    v
}

fn default_set_color_red() -> (v: Vec<String>)
    ensures
        strings_of(v@) == seq!["R"@],
{
    let v = vec![String::from_str("R")];
    proof {
        assert(strings_of(v@) =~= seq!["R"@]);
    }
    v
}

fn default_set_color_green() -> (v: Vec<String>)
    ensures
        strings_of(v@) == seq!["G"@],
{
    let v = vec![String::from_str("G")];
    proof {
        assert(strings_of(v@) =~= seq!["G"@]);
    }
    v
}

fn default_set_color_blue() -> (v: Vec<String>)
    ensures
        strings_of(v@) == seq!["B"@],
{
    let v = vec![String::from_str("B")];
    proof {
        assert(strings_of(v@) =~= seq!["B"@]);
    }
    v
}

fn default_set_color_yellow() -> (v: Vec<String>)
    ensures
        strings_of(v@) == seq!["Y"@],
{
    let v = vec![String::from_str("Y")];
    proof {
        assert(strings_of(v@) =~= seq!["Y"@]);
    }
    v
}

fn default_set_color_orange() -> (v: Vec<String>)
    ensures
        strings_of(v@) == seq!["O"@],
{
    let v = vec![String::from_str("O")];
    proof {
        assert(strings_of(v@) =~= seq!["O"@]);
    }
    v
}

fn default_set_color_pink() -> (v: Vec<String>)
    ensures
        strings_of(v@) == seq!["P"@],
{
    let v = vec![String::from_str("P")];
    proof {
        assert(strings_of(v@) =~= seq!["P"@]);
    }
    v
}

fn default_set_color_white() -> (v: Vec<String>)
    ensures
        strings_of(v@) == seq!["W"@],
{
    let v = vec![String::from_str("W")];
    proof {
        assert(strings_of(v@) =~= seq!["W"@]);
    }
    v
}

fn default_set_color_black() -> (v: Vec<String>)
    ensures
        strings_of(v@) == seq!["K"@],
{
    let v = vec![String::from_str("K")];
    proof {
        assert(strings_of(v@) =~= seq!["K"@]);
    }
    v
}

fn default_capture_full_screen() -> (v: Vec<String>)
    ensures
        strings_of(v@) == seq!["Ctrl+Shift+P"@],
{
    let v = vec![String::from_str("Ctrl+Shift+P")];
    proof {
        assert(strings_of(v@) =~= seq!["Ctrl+Shift+P"@]);
    }
    v
}

fn default_capture_active_window() -> (v: Vec<String>)
    ensures
        strings_of(v@) == seq!["Ctrl+Shift+O"@],
{
    let v = vec![String::from_str("Ctrl+Shift+O")];
    proof {
        assert(strings_of(v@) =~= seq!["Ctrl+Shift+O"@]);
    }
    v
}

fn default_capture_selection() -> (v: Vec<String>)
    ensures
        strings_of(v@) == seq!["Ctrl+Shift+I"@],
{
    let v = vec![String::from_str("Ctrl+Shift+I")];
    proof {
        assert(strings_of(v@) =~= seq!["Ctrl+Shift+I"@]);
    }
    v
}

fn default_capture_clipboard_full() -> (v: Vec<String>)
    ensures
        strings_of(v@) == seq!["Ctrl+C"@],
{
    let v = vec![String::from_str("Ctrl+C")];
    proof {
        assert(strings_of(v@) =~= seq!["Ctrl+C"@]);
    }
    v
}

fn default_capture_file_full() -> (v: Vec<String>)
    ensures
        strings_of(v@) == seq!["Ctrl+S"@],
{
    let v = vec![String::from_str("Ctrl+S")];
    proof {
        assert(strings_of(v@) =~= seq!["Ctrl+S"@]);
    }
    v
}

fn default_capture_clipboard_selection() -> (v: Vec<String>)
    ensures
        strings_of(v@) == seq!["Ctrl+Shift+C"@],
{
    let v = vec![String::from_str("Ctrl+Shift+C")];
    proof {
        assert(strings_of(v@) =~= seq!["Ctrl+Shift+C"@]);
    }
    v
}

fn default_capture_file_selection() -> (v: Vec<String>)
    ensures
        strings_of(v@) == seq!["Ctrl+Shift+S"@],
{
    let v = vec![String::from_str("Ctrl+Shift+S")];
    proof {
        assert(strings_of(v@) =~= seq!["Ctrl+Shift+S"@]);
    }
    v
}

fn default_capture_clipboard_region() -> (v: Vec<String>)
    ensures
        strings_of(v@) == seq!["Ctrl+6"@],
{
    let v = vec![String::from_str("Ctrl+6")];
    proof {
        assert(strings_of(v@) =~= seq!["Ctrl+6"@]);
    }
    v
}

fn default_capture_file_region() -> (v: Vec<String>)
    ensures
        strings_of(v@) == seq!["Ctrl+Shift+6"@],
{
    let v = vec![String::from_str("Ctrl+Shift+6")];
    proof {
        assert(strings_of(v@) =~= seq!["Ctrl+Shift+6"@]);
    }
    v
}

/// Every entry's text parses.
pub open spec fn all_parse(es: Seq<(Seq<char>, Action)>) -> bool {
    forall|i: int| 0 <= i < es.len() ==> (#[trigger] parse_binding(es[i].0)) is Ok
}

/// Each entry's parsed binding paired with its action.
pub open spec fn parsed_entries(es: Seq<(Seq<char>, Action)>) -> Seq<(BindingView, Action)> {
    es.map_values(|e: (Seq<char>, Action)| (parse_binding(e.0)->Ok_0, e.1))
}

/// No binding occurs twice.
pub open spec fn distinct_bindings(m: Seq<(BindingView, Action)>) -> bool {
    forall|i: int, j: int| 0 <= i < j < m.len() ==> (#[trigger] m[i]).0 != (#[trigger] m[j]).0
}

proof fn lemma_lookup(m: Seq<(BindingView, Action)>, b: BindingView)
    ensures
        lookup(m, b) is None <==> forall|k: int| 0 <= k < m.len() ==> (#[trigger] m[k]).0 != b,
        lookup(m, b) is Some ==> exists|k: int|
            0 <= k < m.len() && (#[trigger] m[k]).0 == b && m[k].1 == lookup(m, b)->Some_0,
    decreases m.len(),
{
    if m.len() > 0 {
        lemma_lookup(m.drop_last(), b);
        if m.last().0 != b {
            assert forall|k: int| 0 <= k < m.len() - 1 implies m[k] == (#[trigger] m.drop_last()[k]) by {}
            assert((forall|k: int| 0 <= k < m.len() ==> (#[trigger] m[k]).0 != b) <==> (forall|k: int|
                0 <= k < m.drop_last().len() ==> (#[trigger] m.drop_last()[k]).0 != b)) by {
                if forall|k: int| 0 <= k < m.drop_last().len() ==> (#[trigger] m.drop_last()[k]).0 != b {
                    assert forall|k: int| 0 <= k < m.len() implies (#[trigger] m[k]).0 != b by {
                        if k < m.len() - 1 {
                            assert(m[k] == m.drop_last()[k]);
                        }
                    }
                }
            }
            if lookup(m, b) is Some {
                let k = choose|k: int|
                    0 <= k < m.drop_last().len() && (#[trigger] m.drop_last()[k]).0 == b
                        && m.drop_last()[k].1 == lookup(m.drop_last(), b)->Some_0;
                assert(m[k] == m.drop_last()[k]);
            }
        } else {
            assert(m[m.len() - 1].0 == b);
        }
    }
}

proof fn lemma_lookup_distinct(m: Seq<(BindingView, Action)>, k: int)
    requires
        distinct_bindings(m),
        0 <= k < m.len(),
    ensures
        lookup(m, m[k].0) == Some(m[k].1),
    decreases m.len(),
{
    if k < m.len() - 1 {
        assert(m[k].0 != m[m.len() - 1].0);
        assert(m.drop_last()[k] == m[k]);
        assert(distinct_bindings(m.drop_last())) by {
            assert forall|i: int, j: int| 0 <= i < j < m.drop_last().len() implies (#[trigger] m.drop_last()[i]).0
                != (#[trigger] m.drop_last()[j]).0 by {
                assert(m.drop_last()[i] == m[i]);
                assert(m.drop_last()[j] == m[j]);
            }
        }
        lemma_lookup_distinct(m.drop_last(), k);
    }
}

proof fn lemma_build_outcome(m: Seq<(BindingView, Action)>, es: Seq<(Seq<char>, Action)>)
    requires
        distinct_bindings(m),
    ensures
        build_from(m, es) is Ok <==> (all_parse(es) && distinct_bindings(m + parsed_entries(es))),
        build_from(m, es) is Ok ==> build_from(m, es)->Ok_0 == m + parsed_entries(es),
    decreases es.len(),
{
    if es.len() == 0 {
        assert(m + parsed_entries(es) =~= m);
    } else {
        let e = es[0];
        let rest = es.drop_first();
        assert forall|i: int| 0 <= i < rest.len() implies rest[i] == #[trigger] es[i + 1] by {}
        assert(all_parse(es) <==> (parse_binding(e.0) is Ok && all_parse(rest))) by {
            if parse_binding(e.0) is Ok && all_parse(rest) {
                assert forall|i: int| 0 <= i < es.len() implies (#[trigger] parse_binding(es[i].0)) is Ok by {
                    if i > 0 {
                        assert(es[i] == rest[i - 1]);
                    }
                }
            }
            if all_parse(es) {
                assert(parse_binding(es[0].0) is Ok);
                assert forall|i: int| 0 <= i < rest.len() implies (#[trigger] parse_binding(rest[i].0)) is Ok by {
                    assert(parse_binding(es[i + 1].0) is Ok);
                }
            }
        }
        match parse_binding(e.0) {
            Err(_) => {
                assert(!all_parse(es));
            },
            Ok(b) => {
                lemma_lookup(m, b);
                let m2 = m.push((b, e.1));
                let full = m + parsed_entries(es);
                assert(full.len() == m.len() + es.len());
                assert(full[m.len() as int] == (b, e.1));
                match lookup(m, b) {
                    Some(_) => {
                        let k = choose|k: int| 0 <= k < m.len() && (#[trigger] m[k]).0 == b && m[k].1
                            == lookup(m, b)->Some_0;
                        assert(full[k] == m[k]);
                        assert(!distinct_bindings(full));
                    },
                    None => {
                        assert(distinct_bindings(m2)) by {
                            assert forall|i: int, j: int| 0 <= i < j < m2.len() implies (#[trigger] m2[i]).0
                                != (#[trigger] m2[j]).0 by {
                                if j == m.len() {
                                    assert(m[i].0 != b);
                                } else {
                                    assert(m2[i] == m[i] && m2[j] == m[j]);
                                }
                            }
                        }
                        lemma_build_outcome(m2, rest);
                        assert(m2 + parsed_entries(rest) =~= full);
                    },
                }
            },
        }
    }
}

/// The binding texts the configuration field named after action `a` holds
/// (`exit` for `Exit`, `toggle_whiteboard` for `ToggleWhiteboard`, ...).
pub open spec fn field_texts(c: KeybindingsConfig, a: Action) -> Seq<Seq<char>> {
    match a {
        Action::Exit => strings_of(c.exit@),
        Action::EnterTextMode => strings_of(c.enter_text_mode@),
        Action::ClearCanvas => strings_of(c.clear_canvas@),
        Action::Undo => strings_of(c.undo@),
        Action::IncreaseThickness => strings_of(c.increase_thickness@),
        Action::DecreaseThickness => strings_of(c.decrease_thickness@),
        Action::IncreaseFontSize => strings_of(c.increase_font_size@),
        Action::DecreaseFontSize => strings_of(c.decrease_font_size@),
        Action::ToggleWhiteboard => strings_of(c.toggle_whiteboard@),
        Action::ToggleBlackboard => strings_of(c.toggle_blackboard@),
        Action::ReturnToTransparent => strings_of(c.return_to_transparent@),
        Action::ToggleHelp => strings_of(c.toggle_help@),
        Action::ToggleStatusBar => strings_of(c.toggle_status_bar@),
        Action::OpenConfigurator => strings_of(c.open_configurator@),
        Action::SetColorRed => strings_of(c.set_color_red@),
        Action::SetColorGreen => strings_of(c.set_color_green@),
        Action::SetColorBlue => strings_of(c.set_color_blue@),
        Action::SetColorYellow => strings_of(c.set_color_yellow@),
        Action::SetColorOrange => strings_of(c.set_color_orange@),
        Action::SetColorPink => strings_of(c.set_color_pink@),
        Action::SetColorWhite => strings_of(c.set_color_white@),
        Action::SetColorBlack => strings_of(c.set_color_black@),
        Action::CaptureFullScreen => strings_of(c.capture_full_screen@),
        Action::CaptureActiveWindow => strings_of(c.capture_active_window@),
        Action::CaptureSelection => strings_of(c.capture_selection@),
        Action::CaptureClipboardFull => strings_of(c.capture_clipboard_full@),
        Action::CaptureFileFull => strings_of(c.capture_file_full@),
        Action::CaptureClipboardSelection => strings_of(c.capture_clipboard_selection@),
        Action::CaptureFileSelection => strings_of(c.capture_file_selection@),
        Action::CaptureClipboardRegion => strings_of(c.capture_clipboard_region@),
        Action::CaptureFileRegion => strings_of(c.capture_file_region@),
    }
}

/// Where the field of action `a` stands among the fields of a configuration.
spec fn field_position(a: Action) -> int {
    match a {
        Action::Exit => 0,
        Action::EnterTextMode => 1,
        Action::ClearCanvas => 2,
        Action::Undo => 3,
        Action::IncreaseThickness => 4,
        Action::DecreaseThickness => 5,
        Action::IncreaseFontSize => 6,
        Action::DecreaseFontSize => 7,
        Action::ToggleWhiteboard => 8,
        Action::ToggleBlackboard => 9,
        Action::ReturnToTransparent => 10,
        Action::ToggleHelp => 11,
        Action::ToggleStatusBar => 12,
        Action::OpenConfigurator => 13,
        Action::SetColorRed => 14,
        Action::SetColorGreen => 15,
        Action::SetColorBlue => 16,
        Action::SetColorYellow => 17,
        Action::SetColorOrange => 18,
        Action::SetColorPink => 19,
        Action::SetColorWhite => 20,
        Action::SetColorBlack => 21,
        Action::CaptureFullScreen => 22,
        Action::CaptureActiveWindow => 23,
        Action::CaptureSelection => 24,
        Action::CaptureClipboardFull => 25,
        Action::CaptureFileFull => 26,
        Action::CaptureClipboardSelection => 27,
        Action::CaptureFileSelection => 28,
        Action::CaptureClipboardRegion => 29,
        Action::CaptureFileRegion => 30,
    }
}

/// Every text of a group is an entry of the flattened groups, with the
/// group's action.
proof fn lemma_flatten_has(gs: Seq<(Seq<Seq<char>>, Action)>, k: int, j: int)
    requires
        0 <= k < gs.len(),
        0 <= j < gs[k].0.len(),
    ensures
        exists|i: int| 0 <= i < flatten_groups(gs).len() && #[trigger] flatten_groups(gs)[i] == (gs[k].0[j], gs[k].1),
    decreases gs.len(),
{
    let head = group_entries(gs[0].0, gs[0].1);
    let rest = gs.drop_first();
    assert(flatten_groups(gs) == head + flatten_groups(rest));
    if k == 0 {
        assert(flatten_groups(gs)[j] == head[j]);
    } else {
        assert(rest[k - 1] == gs[k]);
        lemma_flatten_has(rest, k - 1, j);
        let i = choose|i: int| 0 <= i < flatten_groups(rest).len() && #[trigger] flatten_groups(rest)[i] == (rest[k - 1].0[j], rest[k - 1].1);
        assert(flatten_groups(gs)[head.len() + i] == flatten_groups(rest)[i]);
    }
}

/// Law: the default configuration binds each action to its documented
/// shortcuts: Escape or Ctrl+Q exit, Ctrl+W the whiteboard, Ctrl+B the
/// blackboard, the color initials (K for black) the pens, F10 help, F11 the
/// configurator, F12 the status bar, and so on.
pub proof fn law_default_bindings(c: KeybindingsConfig)
    requires
        is_default_keybindings(c),
    ensures
        field_texts(c, Action::Exit) == seq!["Escape"@, "Ctrl+Q"@],
        field_texts(c, Action::EnterTextMode) == seq!["T"@],
        field_texts(c, Action::ClearCanvas) == seq!["E"@],
        field_texts(c, Action::Undo) == seq!["Ctrl+Z"@],
        field_texts(c, Action::IncreaseThickness) == seq!["+"@, "="@],
        field_texts(c, Action::DecreaseThickness) == seq!["-"@, "_"@],
        field_texts(c, Action::IncreaseFontSize) == seq!["Ctrl+Shift++"@, "Ctrl+Shift+="@],
        field_texts(c, Action::DecreaseFontSize) == seq!["Ctrl+Shift+-"@, "Ctrl+Shift+_"@],
        field_texts(c, Action::ToggleWhiteboard) == seq!["Ctrl+W"@],
        field_texts(c, Action::ToggleBlackboard) == seq!["Ctrl+B"@],
        field_texts(c, Action::ReturnToTransparent) == seq!["Ctrl+Shift+T"@],
        field_texts(c, Action::ToggleHelp) == seq!["F10"@],
        field_texts(c, Action::ToggleStatusBar) == seq!["F12"@],
        field_texts(c, Action::OpenConfigurator) == seq!["F11"@],
        field_texts(c, Action::SetColorRed) == seq!["R"@],
        field_texts(c, Action::SetColorGreen) == seq!["G"@],
        field_texts(c, Action::SetColorBlue) == seq!["B"@],
        field_texts(c, Action::SetColorYellow) == seq!["Y"@],
        field_texts(c, Action::SetColorOrange) == seq!["O"@],
        field_texts(c, Action::SetColorPink) == seq!["P"@],
        field_texts(c, Action::SetColorWhite) == seq!["W"@],
        field_texts(c, Action::SetColorBlack) == seq!["K"@],
        field_texts(c, Action::CaptureFullScreen) == seq!["Ctrl+Shift+P"@],
        field_texts(c, Action::CaptureActiveWindow) == seq!["Ctrl+Shift+O"@],
        field_texts(c, Action::CaptureSelection) == seq!["Ctrl+Shift+I"@],
        field_texts(c, Action::CaptureClipboardFull) == seq!["Ctrl+C"@],
        field_texts(c, Action::CaptureFileFull) == seq!["Ctrl+S"@],
        field_texts(c, Action::CaptureClipboardSelection) == seq!["Ctrl+Shift+C"@],
        field_texts(c, Action::CaptureFileSelection) == seq!["Ctrl+Shift+S"@],
        field_texts(c, Action::CaptureClipboardRegion) == seq!["Ctrl+6"@],
        field_texts(c, Action::CaptureFileRegion) == seq!["Ctrl+Shift+6"@],
{
}

/// Law: once the action map is built, every binding text in the field of
/// action `a` parses, and looking up what it parses to gives `a`: the
/// `toggle_whiteboard` texts give `ToggleWhiteboard`, the `set_color_orange`
/// texts give `SetColorOrange`, and so on for every field.
pub proof fn law_field_bindings_give_their_action(c: KeybindingsConfig, a: Action, j: int)
    requires
        build_spec(c) is Ok,
        0 <= j < field_texts(c, a).len(),
    ensures
        parse_binding(field_texts(c, a)[j]) is Ok,
        lookup(build_spec(c)->Ok_0, parse_binding(field_texts(c, a)[j])->Ok_0) == Some(a),
{
    let gs = binding_groups(c);
    let k = field_position(a);
    assert(0 <= k < gs.len() && gs[k] == (field_texts(c, a), a));
    lemma_flatten_has(gs, k, j);
    let es = config_entries(c);
    let i = choose|i: int| 0 <= i < flatten_groups(gs).len() && #[trigger] flatten_groups(gs)[i] == (gs[k].0[j], gs[k].1);
    law_build_action_map(c);
    assert(es[i] == (field_texts(c, a)[j], a));
    assert(parse_binding(es[i].0) is Ok);
    assert(parsed_entries(es)[i] == (parse_binding(field_texts(c, a)[j])->Ok_0, a));
}

/// Law: building the action map succeeds exactly when every configured
/// binding text parses and no two of them parse to the same binding; the map
/// then holds every parsed binding with its action, in build order, and a
/// lookup of any configured binding gives that binding's action.
pub proof fn law_build_action_map(c: KeybindingsConfig)
    ensures
        build_spec(c) is Ok <==> (all_parse(config_entries(c)) && distinct_bindings(
            parsed_entries(config_entries(c)),
        )),
        build_spec(c) is Ok ==> build_spec(c)->Ok_0 == parsed_entries(config_entries(c)),
        build_spec(c) is Ok ==> forall|i: int|
            0 <= i < config_entries(c).len() ==> lookup(
                build_spec(c)->Ok_0,
                (#[trigger] parsed_entries(config_entries(c))[i]).0,
            ) == Some(config_entries(c)[i].1),
{
    let es = config_entries(c);
    let e0 = Seq::<(BindingView, Action)>::empty();
    lemma_build_outcome(e0, es);
    assert(e0 + parsed_entries(es) =~= parsed_entries(es));
    if build_spec(c) is Ok {
        assert forall|i: int| 0 <= i < es.len() implies lookup(
            build_spec(c)->Ok_0,
            (#[trigger] parsed_entries(es)[i]).0,
        ) == Some(es[i].1) by {
            lemma_lookup_distinct(parsed_entries(es), i);
        }
    }
}

/// Law: modifiers may appear in any order; swapping two neighbouring
/// modifier parts does not change the binding.
pub proof fn law_modifier_order(pre: Seq<Seq<char>>, m1: Seq<char>, m2: Seq<char>, post: Seq<Seq<char>>)
    requires
        modifier_word(m1),
        modifier_word(m2),
    ensures
        binding_from_parts(pre + seq![m1, m2] + post) == binding_from_parts(pre + seq![m2, m1] + post),
{
    let ps = pre + seq![m1, m2] + post;
    let qs = pre + seq![m2, m1] + post;
    lemma_key_parts_swap(pre, m1, m2, post);
    let n = pre.len() as int;
    assert forall|j: int| 0 <= j < ps.len() && j != n && j != n + 1 implies ps[j] == qs[j] by {}
    assert(ps[n] == qs[n + 1] && ps[n + 1] == qs[n]);
    assert(has_ctrl(ps) == has_ctrl(qs)) by {
        if has_ctrl(ps) {
            let j = choose|j: int| 0 <= j < ps.len() && #[trigger] ctrl_word(ps[j]);
            let j2 = if j == n { n + 1 } else if j == n + 1 { n } else { j };
            assert(ctrl_word(qs[j2]));
        }
        if has_ctrl(qs) {
            let j = choose|j: int| 0 <= j < qs.len() && #[trigger] ctrl_word(qs[j]);
            let j2 = if j == n { n + 1 } else if j == n + 1 { n } else { j };
            assert(ctrl_word(ps[j2]));
        }
    }
    assert(has_shift(ps) == has_shift(qs)) by {
        if has_shift(ps) {
            let j = choose|j: int| 0 <= j < ps.len() && #[trigger] shift_word(ps[j]);
            let j2 = if j == n { n + 1 } else if j == n + 1 { n } else { j };
            assert(shift_word(qs[j2]));
        }
        if has_shift(qs) {
            let j = choose|j: int| 0 <= j < qs.len() && #[trigger] shift_word(qs[j]);
            let j2 = if j == n { n + 1 } else if j == n + 1 { n } else { j };
            assert(shift_word(ps[j2]));
        }
    }
    assert(has_alt(ps) == has_alt(qs)) by {
        if has_alt(ps) {
            let j = choose|j: int| 0 <= j < ps.len() && #[trigger] alt_word(ps[j]);
            let j2 = if j == n { n + 1 } else if j == n + 1 { n } else { j };
            assert(alt_word(qs[j2]));
        }
        if has_alt(qs) {
            let j = choose|j: int| 0 <= j < qs.len() && #[trigger] alt_word(qs[j]);
            let j2 = if j == n { n + 1 } else if j == n + 1 { n } else { j };
            assert(alt_word(ps[j2]));
        }
    }
}

/// Law: only which modifiers are named matters, not their order or
/// repetition: two runs of modifier parts that name the same modifiers give
/// the same binding before the same key parts.
pub proof fn law_modifier_sets(m1: Seq<Seq<char>>, m2: Seq<Seq<char>>, ks: Seq<Seq<char>>)
    requires
        forall|i: int| 0 <= i < m1.len() ==> modifier_word(#[trigger] m1[i]),
        forall|i: int| 0 <= i < m2.len() ==> modifier_word(#[trigger] m2[i]),
        has_ctrl(m1) == has_ctrl(m2),
        has_shift(m1) == has_shift(m2),
        has_alt(m1) == has_alt(m2),
    ensures
        binding_from_parts(m1 + ks) == binding_from_parts(m2 + ks),
{
    lemma_modifier_run(m1, ks);
    lemma_modifier_run(m2, ks);
}

/// A part as written in a keybinding text: not empty, without '+' and
/// without whitespace.
pub open spec fn plain_part(p: Seq<char>) -> bool {
    &&& p.len() > 0
    &&& !p.contains('+')
    &&& forall|i: int| 0 <= i < p.len() ==> !is_space(#[trigger] p[i])
}

/// Law: in a keybinding text, the modifiers may come in any order (and be
/// repeated): texts such as "Ctrl+Shift+W" and "Shift+Ctrl+W" parse to the
/// same binding, with each named modifier set and `ks` as the key.
pub proof fn law_parse_modifier_order(m1: Seq<Seq<char>>, m2: Seq<Seq<char>>, ks: Seq<Seq<char>>)
    requires
        forall|i: int| 0 <= i < m1.len() ==> modifier_word(#[trigger] m1[i]) && plain_part(m1[i]),
        forall|i: int| 0 <= i < m2.len() ==> modifier_word(#[trigger] m2[i]) && plain_part(m2[i]),
        has_ctrl(m1) == has_ctrl(m2),
        has_shift(m1) == has_shift(m2),
        has_alt(m1) == has_alt(m2),
        ks.len() > 0,
        forall|i: int| 0 <= i < ks.len() ==> !modifier_word(#[trigger] ks[i]) && plain_part(ks[i]),
    ensures
        parse_binding(join_with(m1 + ks, seq!['+'])) == parse_binding(join_with(m2 + ks, seq!['+'])),
        parse_binding(join_with(m1 + ks, seq!['+'])) == Ok::<BindingView, Seq<char>>(
            BindingView { key: join_with(ks, seq!['+']), ctrl: has_ctrl(m1), shift: has_shift(m1), alt: has_alt(m1) },
        ),
{
    lemma_keys_only(ks);
    lemma_join_plain(ks);
    assert forall|i: int| 0 <= i < m1.len() implies modifier_word(#[trigger] m1[i]) by {}
    assert forall|i: int| 0 <= i < m2.len() implies modifier_word(#[trigger] m2[i]) by {}
    law_modifier_sets(m1, m2, ks);
    lemma_modifier_run(m1, ks);
    assert(key_parts(ks).len() > 0) by {
        assert(!modifier_word(ks[ks.len() - 1]));
    }
    lemma_parse_plain_parts(m1 + ks);
    lemma_parse_plain_parts(m2 + ks);
}

/// Parts that name no modifier are all key parts and name no modifier.
proof fn lemma_keys_only(ks: Seq<Seq<char>>)
    requires
        forall|i: int| 0 <= i < ks.len() ==> !modifier_word(#[trigger] ks[i]),
    ensures
        key_parts(ks) == ks,
        !has_ctrl(ks),
        !has_shift(ks),
        !has_alt(ks),
    decreases ks.len(),
{
    if ks.len() > 0 {
        let f = ks.drop_last();
        assert forall|i: int| 0 <= i < f.len() implies !modifier_word(#[trigger] f[i]) by {
            assert(f[i] == ks[i]);
        }
        lemma_keys_only(f);
        assert(!modifier_word(ks[ks.len() - 1]));
        assert(f.push(ks.last()) =~= ks);
    }
    if has_ctrl(ks) {
        let j = choose|j: int| 0 <= j < ks.len() && #[trigger] ctrl_word(ks[j]);
        assert(!modifier_word(ks[j]));
    }
    if has_shift(ks) {
        let j = choose|j: int| 0 <= j < ks.len() && #[trigger] shift_word(ks[j]);
        assert(!modifier_word(ks[j]));
    }
    if has_alt(ks) {
        let j = choose|j: int| 0 <= j < ks.len() && #[trigger] alt_word(ks[j]);
        assert(!modifier_word(ks[j]));
    }
}

/// Plain parts joined with '+' parse as the parts themselves.
proof fn lemma_parse_plain_parts(ps: Seq<Seq<char>>)
    requires
        ps.len() > 0,
        forall|i: int| 0 <= i < ps.len() ==> plain_part(#[trigger] ps[i]),
    ensures
        ({
            let t = join_with(ps, seq!['+']);
            &&& trim_seq(t) == t
            &&& t.len() > 0
            &&& normalize_plus(t) == t
            &&& split_on(t, '+') == ps
        }),
{
    let t = join_with(ps, seq!['+']);
    lemma_join_plain(ps);
    assert(!is_space(t[0]));
    assert(!is_space(t[t.len() - 1]));
    assert(trim_start_seq(t) == t);
    assert(trim_end_seq(t) == t);
    lemma_replace_absent(t, seq![' ', '+', ' '], seq!['+']);
    lemma_replace_absent(t, seq!['+', ' '], seq!['+']);
    lemma_replace_absent(t, seq![' ', '+'], seq!['+']);
}

/// The join of plain parts is non-empty, holds no whitespace, and splits on
/// '+' back into the parts.
proof fn lemma_join_plain(ps: Seq<Seq<char>>)
    requires
        ps.len() > 0,
        forall|i: int| 0 <= i < ps.len() ==> plain_part(#[trigger] ps[i]),
    ensures
        join_with(ps, seq!['+']).len() > 0,
        forall|i: int| 0 <= i < join_with(ps, seq!['+']).len() ==> !is_space(#[trigger] join_with(ps, seq!['+'])[i]),
        split_on(join_with(ps, seq!['+']), '+') == ps,
    decreases ps.len(),
{
    let last = ps[ps.len() - 1];
    assert(plain_part(last));
    lemma_split_without_sep(last, '+');
    if ps.len() == 1 {
        assert(join_with(ps, seq!['+']) == ps[0]);
        assert(seq![ps[0]] =~= ps);
    } else {
        let front = ps.drop_last();
        assert forall|i: int| 0 <= i < front.len() implies plain_part(#[trigger] front[i]) by {
            assert(front[i] == ps[i]);
        }
        lemma_join_plain(front);
        let a = join_with(front, seq!['+']);
        let t = join_with(ps, seq!['+']);
        assert(t =~= a + seq!['+'] + last);
        lemma_split_at_sep(a, last, '+');
        assert(front + seq![last] =~= ps);
        assert forall|i: int| 0 <= i < t.len() implies !is_space(#[trigger] t[i]) by {
            if i < a.len() {
                assert(t[i] == a[i]);
            } else if i == a.len() {
                assert(t[i] == '+');
            } else {
                assert(t[i] == last[i - a.len() - 1]);
            }
        }
    }
}

/// Replacing a pattern holding a space in a text without whitespace changes nothing.
proof fn lemma_replace_absent(s: Seq<char>, pat: Seq<char>, rep: Seq<char>)
    requires
        pat.contains(' '),
        forall|i: int| 0 <= i < s.len() ==> !is_space(#[trigger] s[i]),
    ensures
        replace_all(s, pat, rep) == s,
    decreases s.len(),
{
    if pat.len() == 0 || s.len() < pat.len() {
    } else {
        let k = choose|k: int| 0 <= k < pat.len() && pat[k] == ' ';
        assert(s.subrange(0, pat.len() as int) != pat) by {
            assert(!is_space(s[k]));
            assert(s.subrange(0, pat.len() as int)[k] == s[k]);
        }
        let rest = s.drop_first();
        assert forall|i: int| 0 <= i < rest.len() implies !is_space(#[trigger] rest[i]) by {
            assert(rest[i] == s[i + 1]);
        }
        lemma_replace_absent(rest, pat, rep);
        assert(seq![s[0]] + rest =~= s);
    }
}

/// Modifier parts before `ks` add no key part and only their modifiers.
proof fn lemma_modifier_run(m: Seq<Seq<char>>, ks: Seq<Seq<char>>)
    requires
        forall|i: int| 0 <= i < m.len() ==> modifier_word(#[trigger] m[i]),
    ensures
        key_parts(m + ks) == key_parts(ks),
        has_ctrl(m + ks) == (has_ctrl(m) || has_ctrl(ks)),
        has_shift(m + ks) == (has_shift(m) || has_shift(ks)),
        has_alt(m + ks) == (has_alt(m) || has_alt(ks)),
{
    lemma_key_parts_append(m, ks);
    lemma_modifiers_no_key(m);
    assert(Seq::<Seq<char>>::empty() + key_parts(ks) =~= key_parts(ks));
    let ps = m + ks;
    let n = m.len() as int;
    if has_ctrl(ps) {
        let j = choose|j: int| 0 <= j < ps.len() && #[trigger] ctrl_word(ps[j]);
        if j < n {
            assert(ctrl_word(m[j]));
        } else {
            assert(ctrl_word(ks[j - n]));
        }
    }
    if has_ctrl(m) {
        let j = choose|j: int| 0 <= j < m.len() && #[trigger] ctrl_word(m[j]);
        assert(ctrl_word(ps[j]));
    }
    if has_ctrl(ks) {
        let j = choose|j: int| 0 <= j < ks.len() && #[trigger] ctrl_word(ks[j]);
        assert(ctrl_word(ps[j + n]));
    }
    if has_shift(ps) {
        let j = choose|j: int| 0 <= j < ps.len() && #[trigger] shift_word(ps[j]);
        if j < n {
            assert(shift_word(m[j]));
        } else {
            assert(shift_word(ks[j - n]));
        }
    }
    if has_shift(m) {
        let j = choose|j: int| 0 <= j < m.len() && #[trigger] shift_word(m[j]);
        assert(shift_word(ps[j]));
    }
    if has_shift(ks) {
        let j = choose|j: int| 0 <= j < ks.len() && #[trigger] shift_word(ks[j]);
        assert(shift_word(ps[j + n]));
    }
    if has_alt(ps) {
        let j = choose|j: int| 0 <= j < ps.len() && #[trigger] alt_word(ps[j]);
        if j < n {
            assert(alt_word(m[j]));
        } else {
            assert(alt_word(ks[j - n]));
        }
    }
    if has_alt(m) {
        let j = choose|j: int| 0 <= j < m.len() && #[trigger] alt_word(m[j]);
        assert(alt_word(ps[j]));
    }
    if has_alt(ks) {
        let j = choose|j: int| 0 <= j < ks.len() && #[trigger] alt_word(ks[j]);
        assert(alt_word(ps[j + n]));
    }
}

/// Parts that all name modifiers have no key part.
proof fn lemma_modifiers_no_key(m: Seq<Seq<char>>)
    requires
        forall|i: int| 0 <= i < m.len() ==> modifier_word(#[trigger] m[i]),
    ensures
        key_parts(m) == Seq::<Seq<char>>::empty(),
    decreases m.len(),
{
    if m.len() > 0 {
        let f = m.drop_last();
        assert forall|i: int| 0 <= i < f.len() implies modifier_word(#[trigger] f[i]) by {
            assert(f[i] == m[i]);
        }
        lemma_modifiers_no_key(f);
        assert(modifier_word(m[m.len() - 1]));
    }
}

proof fn lemma_key_parts_append(a: Seq<Seq<char>>, b: Seq<Seq<char>>)
    ensures
        key_parts(a + b) == key_parts(a) + key_parts(b),
    decreases b.len(),
{
    if b.len() == 0 {
        assert(a + b =~= a);
        assert(key_parts(a) + key_parts(b) =~= key_parts(a));
    } else {
        assert((a + b).drop_last() =~= a + b.drop_last());
        assert((a + b).last() == b.last());
        lemma_key_parts_append(a, b.drop_last());
        if modifier_word(b.last()) {
        } else {
            assert(key_parts(a) + key_parts(b.drop_last()).push(b.last()) =~= (key_parts(a)
                + key_parts(b.drop_last())).push(b.last()));
        }
    }
}

proof fn lemma_key_parts_swap(pre: Seq<Seq<char>>, m1: Seq<char>, m2: Seq<char>, post: Seq<Seq<char>>)
    requires
        modifier_word(m1),
        modifier_word(m2),
    ensures
        key_parts(pre + seq![m1, m2] + post) == key_parts(pre + seq![m2, m1] + post),
{
    lemma_key_parts_append(pre + seq![m1, m2], post);
    lemma_key_parts_append(pre + seq![m2, m1], post);
    lemma_key_parts_append(pre, seq![m1, m2]);
    lemma_key_parts_append(pre, seq![m2, m1]);
    assert(seq![m1, m2].drop_last() =~= seq![m1]);
    assert(seq![m1].drop_last() =~= Seq::<Seq<char>>::empty());
    assert(seq![m2, m1].drop_last() =~= seq![m2]);
    assert(seq![m2].drop_last() =~= Seq::<Seq<char>>::empty());
    reveal_with_fuel(key_parts, 3);
    assert(key_parts(seq![m1, m2]) =~= Seq::<Seq<char>>::empty());
    assert(key_parts(seq![m2, m1]) =~= Seq::<Seq<char>>::empty());
}

/// Law: a binding matches key names that differ only in ASCII case alike.
pub proof fn law_matches_ignores_ascii_case(b: BindingView, k1: Seq<char>, k2: Seq<char>, ctrl: bool, shift: bool, alt: bool)
    requires
        eq_ignore_ascii_case_seq(k1, k2),
    ensures
        binding_matches(b, k1, ctrl, shift, alt) == binding_matches(b, k2, ctrl, shift, alt),
{
    if eq_ignore_ascii_case_seq(b.key, k1) {
        assert forall|i: int| 0 <= i < b.key.len() implies #[trigger] ascii_fold(b.key[i]) == ascii_fold(k2[i]) by {
            assert(ascii_fold(b.key[i]) == ascii_fold(k1[i]));
            assert(ascii_fold(k1[i]) == ascii_fold(k2[i]));
        }
    }
    if eq_ignore_ascii_case_seq(b.key, k2) {
        assert forall|i: int| 0 <= i < b.key.len() implies #[trigger] ascii_fold(b.key[i]) == ascii_fold(k1[i]) by {
            assert(ascii_fold(b.key[i]) == ascii_fold(k2[i]));
            assert(ascii_fold(k1[i]) == ascii_fold(k2[i]));
        }
    }
}

} // verus!
