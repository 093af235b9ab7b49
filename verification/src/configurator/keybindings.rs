//! Keybinding editing in the configuration editor.
use vstd::prelude::*;

use crate::config::keybindings::{KeybindingsConfig, is_default_keybindings};
use crate::configurator::error::FormError;
use crate::text::{
    append_chars, chars_to_string, is_space, join_strings, join_with, lemma_split_at_sep, lemma_split_without_sep,
    split_chars, split_on, seqs_of, str_chars, strings_of, trim_chars, trim_seq, trim_start_seq,
};

verus! {

/// The editable bindings, one text entry per action.
#[derive(Debug, Clone)]
pub struct KeybindingsDraft {
    pub entries: Vec<KeybindingEntry>,
}

/// The bindings of one action as the user typed them (comma separated).
#[derive(Debug, Clone)]
pub struct KeybindingEntry {
    pub field: KeybindingField,
    pub value: String,
}

/// An action whose bindings the editor shows.
#[derive(Debug, Clone, Copy, PartialEq, Eq, Structural)]
pub enum KeybindingField {
    Exit,
    EnterTextMode,
    ClearCanvas,
    Undo,
    IncreaseThickness,
    DecreaseThickness,
    IncreaseFontSize,
    DecreaseFontSize,
    ToggleWhiteboard,
    ToggleBlackboard,
    ReturnToTransparent,
    ToggleHelp,
    OpenConfigurator,
    SetColorRed,
    SetColorGreen,
    SetColorBlue,
    SetColorYellow,
    SetColorOrange,
    SetColorPink,
    SetColorWhite,
    SetColorBlack,
    CaptureFullScreen,
    CaptureActiveWindow,
    CaptureSelection,
    CaptureClipboardFull,
    CaptureFileFull,
    CaptureClipboardSelection,
    CaptureFileSelection,
    CaptureClipboardRegion,
    CaptureFileRegion,
}

/// Every action, in display order.
pub open spec fn all_keybinding_fields() -> Seq<KeybindingField> {
    seq![KeybindingField::Exit, KeybindingField::EnterTextMode, KeybindingField::ClearCanvas, KeybindingField::Undo, KeybindingField::IncreaseThickness, KeybindingField::DecreaseThickness, KeybindingField::IncreaseFontSize, KeybindingField::DecreaseFontSize, KeybindingField::ToggleWhiteboard, KeybindingField::ToggleBlackboard, KeybindingField::ReturnToTransparent, KeybindingField::ToggleHelp, KeybindingField::OpenConfigurator, KeybindingField::SetColorRed, KeybindingField::SetColorGreen, KeybindingField::SetColorBlue, KeybindingField::SetColorYellow, KeybindingField::SetColorOrange, KeybindingField::SetColorPink, KeybindingField::SetColorWhite, KeybindingField::SetColorBlack, KeybindingField::CaptureFullScreen, KeybindingField::CaptureActiveWindow, KeybindingField::CaptureSelection, KeybindingField::CaptureClipboardFull, KeybindingField::CaptureFileFull, KeybindingField::CaptureClipboardSelection, KeybindingField::CaptureFileSelection, KeybindingField::CaptureClipboardRegion, KeybindingField::CaptureFileRegion]
}

/// Display label of an action.
pub open spec fn keybinding_label(f: KeybindingField) -> Seq<char> {
    match f {
        KeybindingField::Exit => "Exit"@,
        KeybindingField::EnterTextMode => "Enter text mode"@,
        KeybindingField::ClearCanvas => "Clear canvas"@,
        KeybindingField::Undo => "Undo"@,
        KeybindingField::IncreaseThickness => "Increase thickness"@,
        KeybindingField::DecreaseThickness => "Decrease thickness"@,
        KeybindingField::IncreaseFontSize => "Increase font size"@,
        KeybindingField::DecreaseFontSize => "Decrease font size"@,
        KeybindingField::ToggleWhiteboard => "Toggle whiteboard"@,
        KeybindingField::ToggleBlackboard => "Toggle blackboard"@,
        KeybindingField::ReturnToTransparent => "Return to transparent"@,
        KeybindingField::ToggleHelp => "Toggle help"@,
        KeybindingField::OpenConfigurator => "Open configurator"@,
        KeybindingField::SetColorRed => "Color: red"@,
        KeybindingField::SetColorGreen => "Color: green"@,
        KeybindingField::SetColorBlue => "Color: blue"@,
        KeybindingField::SetColorYellow => "Color: yellow"@,
        KeybindingField::SetColorOrange => "Color: orange"@,
        KeybindingField::SetColorPink => "Color: pink"@,
        KeybindingField::SetColorWhite => "Color: white"@,
        KeybindingField::SetColorBlack => "Color: black"@,
        KeybindingField::CaptureFullScreen => "Capture full screen"@,
        KeybindingField::CaptureActiveWindow => "Capture active window"@,
        KeybindingField::CaptureSelection => "Capture selection"@,
        KeybindingField::CaptureClipboardFull => "Clipboard full screen"@,
        KeybindingField::CaptureFileFull => "File full screen"@,
        KeybindingField::CaptureClipboardSelection => "Clipboard selection"@,
        KeybindingField::CaptureFileSelection => "File selection"@,
        KeybindingField::CaptureClipboardRegion => "Clipboard region"@,
        KeybindingField::CaptureFileRegion => "File region"@,
    }
}

/// Configuration key of an action.
pub open spec fn keybinding_key(f: KeybindingField) -> Seq<char> {
    match f {
        KeybindingField::Exit => "exit"@,
        KeybindingField::EnterTextMode => "enter_text_mode"@,
        KeybindingField::ClearCanvas => "clear_canvas"@,
        KeybindingField::Undo => "undo"@,
        KeybindingField::IncreaseThickness => "increase_thickness"@,
        KeybindingField::DecreaseThickness => "decrease_thickness"@,
        KeybindingField::IncreaseFontSize => "increase_font_size"@,
        KeybindingField::DecreaseFontSize => "decrease_font_size"@,
        KeybindingField::ToggleWhiteboard => "toggle_whiteboard"@,
        KeybindingField::ToggleBlackboard => "toggle_blackboard"@,
        KeybindingField::ReturnToTransparent => "return_to_transparent"@,
        KeybindingField::ToggleHelp => "toggle_help"@,
        KeybindingField::OpenConfigurator => "open_configurator"@,
        KeybindingField::SetColorRed => "set_color_red"@,
        KeybindingField::SetColorGreen => "set_color_green"@,
        KeybindingField::SetColorBlue => "set_color_blue"@,
        KeybindingField::SetColorYellow => "set_color_yellow"@,
        KeybindingField::SetColorOrange => "set_color_orange"@,
        KeybindingField::SetColorPink => "set_color_pink"@,
        KeybindingField::SetColorWhite => "set_color_white"@,
        KeybindingField::SetColorBlack => "set_color_black"@,
        KeybindingField::CaptureFullScreen => "capture_full_screen"@,
        KeybindingField::CaptureActiveWindow => "capture_active_window"@,
        KeybindingField::CaptureSelection => "capture_selection"@,
        KeybindingField::CaptureClipboardFull => "capture_clipboard_full"@,
        KeybindingField::CaptureFileFull => "capture_file_full"@,
        KeybindingField::CaptureClipboardSelection => "capture_clipboard_selection"@,
        KeybindingField::CaptureFileSelection => "capture_file_selection"@,
        KeybindingField::CaptureClipboardRegion => "capture_clipboard_region"@,
        KeybindingField::CaptureFileRegion => "capture_file_region"@,
    }
}

/// The entries' fields and texts.
pub open spec fn entries_model(es: Seq<KeybindingEntry>) -> Seq<(KeybindingField, Seq<char>)> {
    es.map_values(|e: KeybindingEntry| (e.field, e.value@))
}

/// Index of the first entry for `field`, if any.
pub open spec fn first_entry_for(es: Seq<(KeybindingField, Seq<char>)>, field: KeybindingField) -> Option<int>
    decreases es.len(),
{
    if es.len() == 0 {
        None
    } else if es[0].0 == field {
        Some(0)
    } else {
        match first_entry_for(es.drop_first(), field) {
            Some(i) => Some(i + 1),
            None => None,
        }
    }
}

/// The trimmed, non-empty pieces, in order.
pub open spec fn kept_pieces(ps: Seq<Seq<char>>) -> Seq<Seq<char>>
    decreases ps.len(),
{
    if ps.len() == 0 {
        Seq::<Seq<char>>::empty()
    } else {
        let r = kept_pieces(ps.drop_last());
        let t = trim_seq(ps.last());
        if t.len() == 0 {
            r
        } else {
            r.push(t)
        }
    }
}

/// The bindings a configuration holds for `f`.
pub open spec fn field_bindings(c: KeybindingsConfig, f: KeybindingField) -> Seq<Seq<char>> {
    match f {
        KeybindingField::Exit => strings_of(c.exit@),
        KeybindingField::EnterTextMode => strings_of(c.enter_text_mode@),
        KeybindingField::ClearCanvas => strings_of(c.clear_canvas@),
        KeybindingField::Undo => strings_of(c.undo@),
        KeybindingField::IncreaseThickness => strings_of(c.increase_thickness@),
        KeybindingField::DecreaseThickness => strings_of(c.decrease_thickness@),
        KeybindingField::IncreaseFontSize => strings_of(c.increase_font_size@),
        KeybindingField::DecreaseFontSize => strings_of(c.decrease_font_size@),
        KeybindingField::ToggleWhiteboard => strings_of(c.toggle_whiteboard@),
        KeybindingField::ToggleBlackboard => strings_of(c.toggle_blackboard@),
        KeybindingField::ReturnToTransparent => strings_of(c.return_to_transparent@),
        KeybindingField::ToggleHelp => strings_of(c.toggle_help@),
        KeybindingField::OpenConfigurator => strings_of(c.open_configurator@),
        KeybindingField::SetColorRed => strings_of(c.set_color_red@),
        KeybindingField::SetColorGreen => strings_of(c.set_color_green@),
        KeybindingField::SetColorBlue => strings_of(c.set_color_blue@),
        KeybindingField::SetColorYellow => strings_of(c.set_color_yellow@),
        KeybindingField::SetColorOrange => strings_of(c.set_color_orange@),
        KeybindingField::SetColorPink => strings_of(c.set_color_pink@),
        KeybindingField::SetColorWhite => strings_of(c.set_color_white@),
        KeybindingField::SetColorBlack => strings_of(c.set_color_black@),
        KeybindingField::CaptureFullScreen => strings_of(c.capture_full_screen@),
        KeybindingField::CaptureActiveWindow => strings_of(c.capture_active_window@),
        KeybindingField::CaptureSelection => strings_of(c.capture_selection@),
        KeybindingField::CaptureClipboardFull => strings_of(c.capture_clipboard_full@),
        KeybindingField::CaptureFileFull => strings_of(c.capture_file_full@),
        KeybindingField::CaptureClipboardSelection => strings_of(c.capture_clipboard_selection@),
        KeybindingField::CaptureFileSelection => strings_of(c.capture_file_selection@),
        KeybindingField::CaptureClipboardRegion => strings_of(c.capture_clipboard_region@),
        KeybindingField::CaptureFileRegion => strings_of(c.capture_file_region@),
    }
}

/// The bindings the default configuration holds for `f`.
pub open spec fn default_field_bindings(f: KeybindingField) -> Seq<Seq<char>> {
    match f {
        KeybindingField::Exit => seq!["Escape"@, "Ctrl+Q"@],
        KeybindingField::EnterTextMode => seq!["T"@],
        KeybindingField::ClearCanvas => seq!["E"@],
        KeybindingField::Undo => seq!["Ctrl+Z"@],
        KeybindingField::IncreaseThickness => seq!["+"@, "="@],
        KeybindingField::DecreaseThickness => seq!["-"@, "_"@],
        KeybindingField::IncreaseFontSize => seq!["Ctrl+Shift++"@, "Ctrl+Shift+="@],
        KeybindingField::DecreaseFontSize => seq!["Ctrl+Shift+-"@, "Ctrl+Shift+_"@],
        KeybindingField::ToggleWhiteboard => seq!["Ctrl+W"@],
        KeybindingField::ToggleBlackboard => seq!["Ctrl+B"@],
        KeybindingField::ReturnToTransparent => seq!["Ctrl+Shift+T"@],
        KeybindingField::ToggleHelp => seq!["F10"@],
        KeybindingField::OpenConfigurator => seq!["F11"@],
        KeybindingField::SetColorRed => seq!["R"@],
        KeybindingField::SetColorGreen => seq!["G"@],
        KeybindingField::SetColorBlue => seq!["B"@],
        KeybindingField::SetColorYellow => seq!["Y"@],
        KeybindingField::SetColorOrange => seq!["O"@],
        KeybindingField::SetColorPink => seq!["P"@],
        KeybindingField::SetColorWhite => seq!["W"@],
        KeybindingField::SetColorBlack => seq!["K"@],
        KeybindingField::CaptureFullScreen => seq!["Ctrl+Shift+P"@],
        KeybindingField::CaptureActiveWindow => seq!["Ctrl+Shift+O"@],
        KeybindingField::CaptureSelection => seq!["Ctrl+Shift+I"@],
        KeybindingField::CaptureClipboardFull => seq!["Ctrl+C"@],
        KeybindingField::CaptureFileFull => seq!["Ctrl+S"@],
        KeybindingField::CaptureClipboardSelection => seq!["Ctrl+Shift+C"@],
        KeybindingField::CaptureFileSelection => seq!["Ctrl+Shift+S"@],
        KeybindingField::CaptureClipboardRegion => seq!["Ctrl+6"@],
        KeybindingField::CaptureFileRegion => seq!["Ctrl+Shift+6"@],
    }
}

/// The default configuration holds the default bindings of every field.
pub proof fn lemma_default_field_bindings(c: KeybindingsConfig)
    requires
        is_default_keybindings(c),
    ensures
        forall|f: KeybindingField| #[trigger] field_bindings(c, f) == default_field_bindings(f),
{
}

/// The text an editor entry shows for `f`: its bindings joined with ", ".
pub open spec fn field_text(c: KeybindingsConfig, f: KeybindingField) -> Seq<char> {
    join_with(field_bindings(c, f), ", "@)
}

/// The editor's entries for a configuration: one per action, in display
/// order, each showing the action's bindings.
pub open spec fn editor_entries(c: KeybindingsConfig) -> Seq<(KeybindingField, Seq<char>)> {
    all_keybinding_fields().map_values(|f: KeybindingField| (f, field_text(c, f)))
}

/// The text of the last entry for `f`, if any.
pub open spec fn last_entry_text(es: Seq<(KeybindingField, Seq<char>)>, f: KeybindingField) -> Option<Seq<char>>
    decreases es.len(),
{
    if es.len() == 0 {
        None
    } else if es.last().0 == f {
        Some(es.last().1)
    } else {
        last_entry_text(es.drop_last(), f)
    }
}

/// The bindings a configuration built from the entries holds for `f`: the
/// list in the last entry for `f` when there is one, else the default.
pub open spec fn configured_bindings(es: Seq<(KeybindingField, Seq<char>)>, f: KeybindingField) -> Seq<Seq<char>> {
    match last_entry_text(es, f) {
        Some(v) => kept_pieces(split_on(v, ',')),
        None => default_field_bindings(f),
    }
}

impl KeybindingField {
    /// The bindings a configuration holds for this action.
    pub fn get<'a>(&self, config: &'a KeybindingsConfig) -> (r: &'a Vec<String>)
        ensures
            field_bindings(*config, *self) == strings_of(r@),
    {
        match self {
            KeybindingField::Exit => &config.exit,
            KeybindingField::EnterTextMode => &config.enter_text_mode,
            KeybindingField::ClearCanvas => &config.clear_canvas,
            KeybindingField::Undo => &config.undo,
            KeybindingField::IncreaseThickness => &config.increase_thickness,
            KeybindingField::DecreaseThickness => &config.decrease_thickness,
            KeybindingField::IncreaseFontSize => &config.increase_font_size,
            KeybindingField::DecreaseFontSize => &config.decrease_font_size,
            KeybindingField::ToggleWhiteboard => &config.toggle_whiteboard,
            KeybindingField::ToggleBlackboard => &config.toggle_blackboard,
            KeybindingField::ReturnToTransparent => &config.return_to_transparent,
            KeybindingField::ToggleHelp => &config.toggle_help,
            KeybindingField::OpenConfigurator => &config.open_configurator,
            KeybindingField::SetColorRed => &config.set_color_red,
            KeybindingField::SetColorGreen => &config.set_color_green,
            KeybindingField::SetColorBlue => &config.set_color_blue,
            KeybindingField::SetColorYellow => &config.set_color_yellow,
            KeybindingField::SetColorOrange => &config.set_color_orange,
            KeybindingField::SetColorPink => &config.set_color_pink,
            KeybindingField::SetColorWhite => &config.set_color_white,
            KeybindingField::SetColorBlack => &config.set_color_black,
            KeybindingField::CaptureFullScreen => &config.capture_full_screen,
            KeybindingField::CaptureActiveWindow => &config.capture_active_window,
            KeybindingField::CaptureSelection => &config.capture_selection,
            KeybindingField::CaptureClipboardFull => &config.capture_clipboard_full,
            KeybindingField::CaptureFileFull => &config.capture_file_full,
            KeybindingField::CaptureClipboardSelection => &config.capture_clipboard_selection,
            KeybindingField::CaptureFileSelection => &config.capture_file_selection,
            KeybindingField::CaptureClipboardRegion => &config.capture_clipboard_region,
            KeybindingField::CaptureFileRegion => &config.capture_file_region,
        }
    }

    /// Replaces the bindings of this action in `config`.
    pub fn set(&self, config: &mut KeybindingsConfig, value: Vec<String>)
        ensures
            forall|g: KeybindingField| #[trigger] field_bindings(*final(config), g) == (if g == *self {
                strings_of(value@)
            } else {
                field_bindings(*old(config), g)
            }),
            final(config).toggle_status_bar == old(config).toggle_status_bar,
    {
        match self {
            KeybindingField::Exit => config.exit = value,
            KeybindingField::EnterTextMode => config.enter_text_mode = value,
            KeybindingField::ClearCanvas => config.clear_canvas = value,
            KeybindingField::Undo => config.undo = value,
            KeybindingField::IncreaseThickness => config.increase_thickness = value,
            KeybindingField::DecreaseThickness => config.decrease_thickness = value,
            KeybindingField::IncreaseFontSize => config.increase_font_size = value,
            KeybindingField::DecreaseFontSize => config.decrease_font_size = value,
            KeybindingField::ToggleWhiteboard => config.toggle_whiteboard = value,
            KeybindingField::ToggleBlackboard => config.toggle_blackboard = value,
            KeybindingField::ReturnToTransparent => config.return_to_transparent = value,
            KeybindingField::ToggleHelp => config.toggle_help = value,
            KeybindingField::OpenConfigurator => config.open_configurator = value,
            KeybindingField::SetColorRed => config.set_color_red = value,
            KeybindingField::SetColorGreen => config.set_color_green = value,
            KeybindingField::SetColorBlue => config.set_color_blue = value,
            KeybindingField::SetColorYellow => config.set_color_yellow = value,
            KeybindingField::SetColorOrange => config.set_color_orange = value,
            KeybindingField::SetColorPink => config.set_color_pink = value,
            KeybindingField::SetColorWhite => config.set_color_white = value,
            KeybindingField::SetColorBlack => config.set_color_black = value,
            KeybindingField::CaptureFullScreen => config.capture_full_screen = value,
            KeybindingField::CaptureActiveWindow => config.capture_active_window = value,
            KeybindingField::CaptureSelection => config.capture_selection = value,
            KeybindingField::CaptureClipboardFull => config.capture_clipboard_full = value,
            KeybindingField::CaptureFileFull => config.capture_file_full = value,
            KeybindingField::CaptureClipboardSelection => config.capture_clipboard_selection = value,
            KeybindingField::CaptureFileSelection => config.capture_file_selection = value,
            KeybindingField::CaptureClipboardRegion => config.capture_clipboard_region = value,
            KeybindingField::CaptureFileRegion => config.capture_file_region = value,
        }
    }

    /// Every action, in display order.
    pub fn all() -> (v: Vec<Self>)
        ensures
            v@ == all_keybinding_fields(),
    {
        let v = vec![KeybindingField::Exit, KeybindingField::EnterTextMode, KeybindingField::ClearCanvas, KeybindingField::Undo, KeybindingField::IncreaseThickness, KeybindingField::DecreaseThickness, KeybindingField::IncreaseFontSize, KeybindingField::DecreaseFontSize, KeybindingField::ToggleWhiteboard, KeybindingField::ToggleBlackboard, KeybindingField::ReturnToTransparent, KeybindingField::ToggleHelp, KeybindingField::OpenConfigurator, KeybindingField::SetColorRed, KeybindingField::SetColorGreen, KeybindingField::SetColorBlue, KeybindingField::SetColorYellow, KeybindingField::SetColorOrange, KeybindingField::SetColorPink, KeybindingField::SetColorWhite, KeybindingField::SetColorBlack, KeybindingField::CaptureFullScreen, KeybindingField::CaptureActiveWindow, KeybindingField::CaptureSelection, KeybindingField::CaptureClipboardFull, KeybindingField::CaptureFileFull, KeybindingField::CaptureClipboardSelection, KeybindingField::CaptureFileSelection, KeybindingField::CaptureClipboardRegion, KeybindingField::CaptureFileRegion];
        proof {
            assert(v@ =~= all_keybinding_fields());
        }
        v
    }

    /// Display label.
    pub fn label(&self) -> (s: &'static str)
        ensures
            s@ == keybinding_label(*self),
    {
        match self {
            KeybindingField::Exit => "Exit",
            KeybindingField::EnterTextMode => "Enter text mode",
            KeybindingField::ClearCanvas => "Clear canvas",
            KeybindingField::Undo => "Undo",
            KeybindingField::IncreaseThickness => "Increase thickness",
            KeybindingField::DecreaseThickness => "Decrease thickness",
            KeybindingField::IncreaseFontSize => "Increase font size",
            KeybindingField::DecreaseFontSize => "Decrease font size",
            KeybindingField::ToggleWhiteboard => "Toggle whiteboard",
            KeybindingField::ToggleBlackboard => "Toggle blackboard",
            KeybindingField::ReturnToTransparent => "Return to transparent",
            KeybindingField::ToggleHelp => "Toggle help",
            KeybindingField::OpenConfigurator => "Open configurator",
            KeybindingField::SetColorRed => "Color: red",
            KeybindingField::SetColorGreen => "Color: green",
            KeybindingField::SetColorBlue => "Color: blue",
            KeybindingField::SetColorYellow => "Color: yellow",
            KeybindingField::SetColorOrange => "Color: orange",
            KeybindingField::SetColorPink => "Color: pink",
            KeybindingField::SetColorWhite => "Color: white",
            KeybindingField::SetColorBlack => "Color: black",
            KeybindingField::CaptureFullScreen => "Capture full screen",
            KeybindingField::CaptureActiveWindow => "Capture active window",
            KeybindingField::CaptureSelection => "Capture selection",
            KeybindingField::CaptureClipboardFull => "Clipboard full screen",
            KeybindingField::CaptureFileFull => "File full screen",
            KeybindingField::CaptureClipboardSelection => "Clipboard selection",
            KeybindingField::CaptureFileSelection => "File selection",
            KeybindingField::CaptureClipboardRegion => "Clipboard region",
            KeybindingField::CaptureFileRegion => "File region",
        }
    }

    /// Configuration key.
    pub fn field_key(&self) -> (s: &'static str)
        ensures
            s@ == keybinding_key(*self),
    {
        match self {
            KeybindingField::Exit => "exit",
            KeybindingField::EnterTextMode => "enter_text_mode",
            KeybindingField::ClearCanvas => "clear_canvas",
            KeybindingField::Undo => "undo",
            KeybindingField::IncreaseThickness => "increase_thickness",
            KeybindingField::DecreaseThickness => "decrease_thickness",
            KeybindingField::IncreaseFontSize => "increase_font_size",
            KeybindingField::DecreaseFontSize => "decrease_font_size",
            KeybindingField::ToggleWhiteboard => "toggle_whiteboard",
            KeybindingField::ToggleBlackboard => "toggle_blackboard",
            KeybindingField::ReturnToTransparent => "return_to_transparent",
            KeybindingField::ToggleHelp => "toggle_help",
            KeybindingField::OpenConfigurator => "open_configurator",
            KeybindingField::SetColorRed => "set_color_red",
            KeybindingField::SetColorGreen => "set_color_green",
            KeybindingField::SetColorBlue => "set_color_blue",
            KeybindingField::SetColorYellow => "set_color_yellow",
            KeybindingField::SetColorOrange => "set_color_orange",
            KeybindingField::SetColorPink => "set_color_pink",
            KeybindingField::SetColorWhite => "set_color_white",
            KeybindingField::SetColorBlack => "set_color_black",
            KeybindingField::CaptureFullScreen => "capture_full_screen",
            KeybindingField::CaptureActiveWindow => "capture_active_window",
            KeybindingField::CaptureSelection => "capture_selection",
            KeybindingField::CaptureClipboardFull => "capture_clipboard_full",
            KeybindingField::CaptureFileFull => "capture_file_full",
            KeybindingField::CaptureClipboardSelection => "capture_clipboard_selection",
            KeybindingField::CaptureFileSelection => "capture_file_selection",
            KeybindingField::CaptureClipboardRegion => "capture_clipboard_region",
            KeybindingField::CaptureFileRegion => "capture_file_region",
        }
    }

}

impl KeybindingsDraft {
    /// The editor's entries for a configuration: one per action, in display
    /// order, showing the action's bindings joined with ", ".
    pub fn from_config(config: &KeybindingsConfig) -> (d: Self)
        ensures
            entries_model(d.entries@) == editor_entries(*config),
    {
        let fields = KeybindingField::all();
        let mut entries: Vec<KeybindingEntry> = Vec::new();
        let mut i: usize = 0;
        while i < fields.len()
            invariant
                i <= fields.len(),
                fields@ == all_keybinding_fields(),
                entries_model(entries@) == all_keybinding_fields().take(i as int).map_values(
                    |f: KeybindingField| (f, field_text(*config, f)),
                ),
            decreases fields.len() - i,
        {
            let field = fields[i];
            let value = join_strings(field.get(config), ", ");
            let ghost before = entries_model(entries@);
            entries.push(KeybindingEntry { field, value });
            proof {
                assert(all_keybinding_fields().take(i as int + 1).map_values(
                    |f: KeybindingField| (f, field_text(*config, f)),
                ) =~= before.push((field, field_text(*config, field))));
                assert(entries_model(entries@) =~= before.push((field, value@)));
            }
            i += 1;
        }
        proof {
            assert(all_keybinding_fields().take(fields.len() as int) =~= all_keybinding_fields());
        }
        Self { entries }
    }

    /// Builds the configuration the entries describe: the default one with
    /// each entry's list (split on commas, trimmed, empty pieces dropped)
    /// in place of its action's bindings, later entries winning. Every text
    /// is accepted, so this always succeeds.
    pub fn to_config(&self) -> (r: Result<KeybindingsConfig, Vec<FormError>>)
        ensures
            r is Ok,
            forall|f: KeybindingField| #[trigger] field_bindings(r->Ok_0, f) == configured_bindings(
                entries_model(self.entries@),
                f,
            ),
            strings_of(r->Ok_0.toggle_status_bar@) == seq!["F12"@],
    {
        let mut config = KeybindingsConfig::default();
        proof {
            lemma_default_field_bindings(config);
        }
        let mut errors: Vec<FormError> = Vec::new();
        let ghost es = entries_model(self.entries@);
        let mut i: usize = 0;
        proof {
            assert forall|f: KeybindingField| #[trigger] field_bindings(config, f) == configured_bindings(
                es.take(0),
                f,
            ) by {
                assert(last_entry_text(es.take(0), f) is None);
            }
        }
        while i < self.entries.len()
            invariant
                i <= self.entries.len(),
                es == entries_model(self.entries@),
                errors@.len() == 0,
                strings_of(config.toggle_status_bar@) == seq!["F12"@],
                forall|f: KeybindingField| #[trigger] field_bindings(config, f) == configured_bindings(
                    es.take(i as int),
                    f,
                ),
            decreases self.entries.len() - i,
        {
            let entry = &self.entries[i];
            let ghost before = config;
            match parse_keybinding_list(entry.value.as_str()) {
                Ok(list) => {
                    entry.field.set(&mut config, list);
                },
                Err(err) => {
                    let mut name = String::from_str("keybindings.");
                    let key = str_chars(entry.field.field_key());
                    append_chars(&mut name, &key);
                    errors.push(FormError::new(name, err));
                },
            }
            proof {
                let t1 = es.take(i as int + 1);
                assert(t1.drop_last() =~= es.take(i as int));
                assert(t1.last() == es[i as int]);
                assert(es[i as int] == (entry.field, entry.value@));
                assert forall|f: KeybindingField| #[trigger] field_bindings(config, f) == configured_bindings(t1, f) by {
                    if f == entry.field {
                        assert(last_entry_text(t1, f) == Some(entry.value@));
                    } else {
                        assert(last_entry_text(t1, f) == last_entry_text(es.take(i as int), f));
                    }
                }
            }
            i += 1;
        }
        proof {
            assert(es.take(self.entries.len() as int) =~= es);
        }
        if errors.len() == 0 {
            Ok(config)
        } else {
            Err(errors)
        }
    }

    /// A copy with the same entries.
    pub fn duplicate(&self) -> (d: Self)
        ensures
            entries_model(d.entries@) == entries_model(self.entries@),
    {
        let mut entries: Vec<KeybindingEntry> = Vec::new();
        let mut i: usize = 0;
        while i < self.entries.len()
            invariant
                i <= self.entries.len(),
                entries_model(entries@) == entries_model(self.entries@).take(i as int),
            decreases self.entries.len() - i,
        {
            let e = &self.entries[i];
            let ghost before = entries_model(entries@);
            entries.push(KeybindingEntry { field: e.field, value: e.value.clone() });
            proof {
                assert(entries_model(entries@) =~= before.push((e.field, e.value@)));
                assert(entries_model(self.entries@).take(i as int + 1) =~= entries_model(self.entries@).take(
                    i as int,
                ).push((e.field, e.value@)));
            }
            i += 1;
        }
        proof {
            assert(entries_model(self.entries@).take(self.entries.len() as int) =~= entries_model(self.entries@));
        }
        KeybindingsDraft { entries }
    }

    /// Replaces the text of the first entry for `field`; nothing changes when
    /// there is no such entry.
    pub fn set(&mut self, field: KeybindingField, value: String)
        ensures
            match first_entry_for(entries_model(old(self).entries@), field) {
                Some(i) => entries_model(final(self).entries@) == entries_model(old(self).entries@).update(i, (field, value@)),
                None => entries_model(final(self).entries@) == entries_model(old(self).entries@),
            },
    {
        let ghost m = entries_model(self.entries@);
        let mut i: usize = 0;
        proof {
            assert(m.skip(0) =~= m);
        }
        while i < self.entries.len()
            invariant
                i <= self.entries.len(),
                m == entries_model(self.entries@),
                self.entries@ == old(self).entries@,
                first_entry_for(m, field) == match first_entry_for(m.skip(i as int), field) {
                    Some(k) => Some(k + i),
                    None => None::<int>,
                },
            decreases self.entries.len() - i,
        {
            proof {
                assert(m.skip(i as int).drop_first() =~= m.skip(i as int + 1));
                assert(m.skip(i as int)[0] == m[i as int]);
            }
            if self.entries[i].field == field {
                proof {
                    assert(first_entry_for(m.skip(i as int), field) == Some(0int));
                }
                self.entries.set(i, KeybindingEntry { field, value });
                proof {
                    assert(entries_model(self.entries@) =~= m.update(i as int, (field, value@)));
                }
                return;
            }
            i += 1;
        }
        proof {
            assert(m.skip(i as int) =~= Seq::<(KeybindingField, Seq<char>)>::empty());
        }
    }
}

/// Splits a comma-separated list of bindings into its trimmed, non-empty
/// entries. Every text is accepted.
pub fn parse_keybinding_list(value: &str) -> (r: Result<Vec<String>, String>)
    ensures
        r is Ok,
        strings_of(r->Ok_0@) == kept_pieces(split_on(value@, ',')),
{
    let chars = str_chars(value);
    let parts = split_chars(&chars, ',');
    let ghost ps = seqs_of(parts@);
    let mut entries: Vec<String> = Vec::new();
    let mut i: usize = 0;
    while i < parts.len()
        invariant
            i <= parts.len(),
            ps == seqs_of(parts@),
            strings_of(entries@) == kept_pieces(ps.take(i as int)),
        decreases parts.len() - i,
    {
        let trimmed = trim_chars(&parts[i]);
        proof {
            assert(ps.take(i as int + 1).drop_last() =~= ps.take(i as int));
            assert(ps.take(i as int + 1).last() == ps[i as int]);
        }
        if trimmed.len() > 0 {
            let s = chars_to_string(&trimmed);
            let ghost before = strings_of(entries@);
            entries.push(s);
            proof {
                assert(strings_of(entries@) =~= before.push(s@));
            }
        }
        i += 1;
    }
    proof {
        assert(ps.take(parts.len() as int) =~= ps);
    }
    Ok(entries)
}

/// A binding the editor shows and reads back unchanged: not empty, without
/// surrounding whitespace and without a comma.
pub open spec fn editable_binding(b: Seq<char>) -> bool {
    &&& b.len() > 0
    &&& trim_seq(b) == b
    &&& !b.contains(',')
}

/// A trimmed, non-empty text keeps its trim behind a leading space.
proof fn lemma_trim_after_space(b: Seq<char>)
    requires
        b.len() > 0,
        trim_seq(b) == b,
    ensures
        trim_seq(seq![' '] + b) == b,
{
    let s = seq![' '] + b;
    assert(s.drop_first() =~= b);
    assert(is_space(s[0]));
    assert(trim_start_seq(s) == trim_start_seq(b));
}

/// Splitting the joined list of editable bindings on commas and keeping the
/// trimmed, non-empty pieces gives the list back.
proof fn lemma_kept_split_join(ps: Seq<Seq<char>>)
    requires
        forall|i: int| 0 <= i < ps.len() ==> editable_binding(#[trigger] ps[i]),
    ensures
        kept_pieces(split_on(join_with(ps, ", "@), ',')) == ps,
    decreases ps.len(),
{
    reveal_strlit(", ");
    if ps.len() == 0 {
        let e = Seq::<char>::empty();
        assert(join_with(ps, ", "@) == e);
        assert(split_on(e, ',') == seq![e]);
        assert(seq![e].drop_last() =~= Seq::<Seq<char>>::empty());
        assert(trim_seq(e) =~= e);
        assert(kept_pieces(seq![e]) == kept_pieces(Seq::<Seq<char>>::empty()));
        assert(ps =~= Seq::<Seq<char>>::empty());
    } else if ps.len() == 1 {
        let p = ps[0];
        assert(editable_binding(p));
        lemma_split_without_sep(p, ',');
        assert(seq![p].drop_last() =~= Seq::<Seq<char>>::empty());
        assert(seq![p].last() == p);
        assert(join_with(ps, ", "@) == p);
        assert(trim_seq(p) == p && p.len() > 0);
        assert(kept_pieces(Seq::<Seq<char>>::empty()) == Seq::<Seq<char>>::empty());
        assert(kept_pieces(seq![p]) == Seq::<Seq<char>>::empty().push(p));
        assert(Seq::<Seq<char>>::empty().push(p) =~= ps);
    } else {
        let front = ps.drop_last();
        let last = ps.last();
        assert(editable_binding(ps[ps.len() - 1]));
        assert forall|i: int| 0 <= i < front.len() implies editable_binding(#[trigger] front[i]) by {
            assert(front[i] == ps[i]);
        }
        lemma_kept_split_join(front);
        let a = join_with(front, ", "@);
        let b = seq![' '] + last;
        assert(join_with(ps, ", "@) =~= a + seq![','] + b);
        lemma_split_at_sep(a, b, ',');
        assert(!b.contains(',')) by {
            if b.contains(',') {
                let k = choose|k: int| 0 <= k < b.len() && b[k] == ',';
                assert(k > 0);
                assert(last[k - 1] == ',');
            }
        }
        lemma_split_without_sep(b, ',');
        let pieces = split_on(a, ',') + seq![b];
        assert(split_on(join_with(ps, ", "@), ',') == pieces);
        assert(pieces.drop_last() =~= split_on(a, ','));
        assert(pieces.last() == b);
        lemma_trim_after_space(last);
        assert(kept_pieces(pieces) == kept_pieces(split_on(a, ',')).push(last));
        assert(front.push(last) =~= ps);
    }
}

/// Law: a list of editable bindings joined with ", " reads back, through
/// `parse_keybinding_list`, as the same list.
pub proof fn law_keybinding_list_round_trip(ps: Seq<Seq<char>>)
    requires
        forall|i: int| 0 <= i < ps.len() ==> editable_binding(#[trigger] ps[i]),
    ensures
        kept_pieces(split_on(join_with(ps, ", "@), ',')) == ps,
{
    lemma_kept_split_join(ps);
}

/// Every action has an entry in the editor.
proof fn lemma_all_fields_contain(f: KeybindingField)
    ensures
        all_keybinding_fields().contains(f),
{
    let fs = all_keybinding_fields();
    match f {
        KeybindingField::Exit => assert(fs[0] == f),
        KeybindingField::EnterTextMode => assert(fs[1] == f),
        KeybindingField::ClearCanvas => assert(fs[2] == f),
        KeybindingField::Undo => assert(fs[3] == f),
        KeybindingField::IncreaseThickness => assert(fs[4] == f),
        KeybindingField::DecreaseThickness => assert(fs[5] == f),
        KeybindingField::IncreaseFontSize => assert(fs[6] == f),
        KeybindingField::DecreaseFontSize => assert(fs[7] == f),
        KeybindingField::ToggleWhiteboard => assert(fs[8] == f),
        KeybindingField::ToggleBlackboard => assert(fs[9] == f),
        KeybindingField::ReturnToTransparent => assert(fs[10] == f),
        KeybindingField::ToggleHelp => assert(fs[11] == f),
        KeybindingField::OpenConfigurator => assert(fs[12] == f),
        KeybindingField::SetColorRed => assert(fs[13] == f),
        KeybindingField::SetColorGreen => assert(fs[14] == f),
        KeybindingField::SetColorBlue => assert(fs[15] == f),
        KeybindingField::SetColorYellow => assert(fs[16] == f),
        KeybindingField::SetColorOrange => assert(fs[17] == f),
        KeybindingField::SetColorPink => assert(fs[18] == f),
        KeybindingField::SetColorWhite => assert(fs[19] == f),
        KeybindingField::SetColorBlack => assert(fs[20] == f),
        KeybindingField::CaptureFullScreen => assert(fs[21] == f),
        KeybindingField::CaptureActiveWindow => assert(fs[22] == f),
        KeybindingField::CaptureSelection => assert(fs[23] == f),
        KeybindingField::CaptureClipboardFull => assert(fs[24] == f),
        KeybindingField::CaptureFileFull => assert(fs[25] == f),
        KeybindingField::CaptureClipboardSelection => assert(fs[26] == f),
        KeybindingField::CaptureFileSelection => assert(fs[27] == f),
        KeybindingField::CaptureClipboardRegion => assert(fs[28] == f),
        KeybindingField::CaptureFileRegion => assert(fs[29] == f),
    }
}

/// In entries made one per field from `fields`, the last entry for a listed
/// field shows that field's text.
proof fn lemma_last_entry_for_listed(fields: Seq<KeybindingField>, c: KeybindingsConfig, f: KeybindingField)
    requires
        fields.contains(f),
    ensures
        last_entry_text(fields.map_values(|g: KeybindingField| (g, field_text(c, g))), f) == Some(field_text(c, f)),
    decreases fields.len(),
{
    let es = fields.map_values(|g: KeybindingField| (g, field_text(c, g)));
    let k = choose|k: int| 0 <= k < fields.len() && fields[k] == f;
    assert(es.last() == es[es.len() - 1]);
    if fields.last() != f {
        let front = fields.drop_last();
        assert(k < fields.len() - 1);
        assert(front[k] == f);
        assert(es.drop_last() =~= front.map_values(|g: KeybindingField| (g, field_text(c, g))));
        lemma_last_entry_for_listed(front, c, f);
    }
}

/// Law: opening a configuration in the editor and saving it without edits
/// gives back every action's bindings, provided each binding is non-empty,
/// carries no surrounding whitespace and holds no comma (the editor shows a
/// list as its bindings joined with ", ").
pub proof fn law_editor_round_trip(c: KeybindingsConfig)
    requires
        forall|f: KeybindingField, i: int|
            0 <= i < field_bindings(c, f).len() ==> editable_binding(#[trigger] field_bindings(c, f)[i]),
    ensures
        forall|f: KeybindingField| #[trigger] configured_bindings(editor_entries(c), f) == field_bindings(c, f),
{
    assert forall|f: KeybindingField| #[trigger] configured_bindings(editor_entries(c), f) == field_bindings(c, f) by {
        lemma_all_fields_contain(f);
        lemma_last_entry_for_listed(all_keybinding_fields(), c, f);
        let ps = field_bindings(c, f);
        assert forall|i: int| 0 <= i < ps.len() implies editable_binding(#[trigger] ps[i]) by {
            assert(editable_binding(field_bindings(c, f)[i]));
        }
        lemma_kept_split_join(ps);
    }
}

} // verus!
