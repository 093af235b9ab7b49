//! The editable form of a configuration.
use vstd::prelude::*;
use vstd::string::*;

use crate::configurator::fields::{
    BoardModeOption, FontStyleOption, FontWeightOption, QuadField, SessionCompressionOption,
    SessionStorageModeOption, StatusPositionOption, TextField, ToggleField, TripletField,
};
use crate::configurator::keybindings::{KeybindingsDraft, entries_model};
use crate::text::{
    chars_eq_lower_word, chars_to_string, eq_lower_word, lemma_first_letter_differs, str_chars, str_to_string, strings_of, trim_chars, trim_seq,
};

verus! {

/// How the drawing colour is entered.
#[derive(Debug, Clone, Copy, PartialEq, Eq, Structural)]
pub enum ColorMode {
    Named,
    Rgb,
}

/// The colours the editor offers by name, and a name typed by hand.
#[derive(Debug, Clone, Copy, PartialEq, Eq, Structural)]
pub enum NamedColorOption {
    Red,
    Green,
    Blue,
    Yellow,
    Orange,
    Pink,
    White,
    Black,
    Custom,
}

/// The colour name an option stands for in the configuration.
pub open spec fn named_color_value(o: NamedColorOption) -> Seq<char> {
    match o {
        NamedColorOption::Red => "red"@,
        NamedColorOption::Green => "green"@,
        NamedColorOption::Blue => "blue"@,
        NamedColorOption::Yellow => "yellow"@,
        NamedColorOption::Orange => "orange"@,
        NamedColorOption::Pink => "pink"@,
        NamedColorOption::White => "white"@,
        NamedColorOption::Black => "black"@,
        NamedColorOption::Custom => "custom"@,
    }
}

/// The option a typed colour name selects: the named colour it spells,
/// ignoring surrounding whitespace and case, else a custom name.
pub open spec fn named_option_for(name: Seq<char>) -> NamedColorOption {
    let t = trim_seq(name);
    if eq_lower_word(t, "red"@) {
        NamedColorOption::Red
    }     else if eq_lower_word(t, "green"@) {
        NamedColorOption::Green
    }     else if eq_lower_word(t, "blue"@) {
        NamedColorOption::Blue
    }     else if eq_lower_word(t, "yellow"@) {
        NamedColorOption::Yellow
    }     else if eq_lower_word(t, "orange"@) {
        NamedColorOption::Orange
    }     else if eq_lower_word(t, "pink"@) {
        NamedColorOption::Pink
    }     else if eq_lower_word(t, "white"@) {
        NamedColorOption::White
    }     else if eq_lower_word(t, "black"@) {
        NamedColorOption::Black
    } else {
        NamedColorOption::Custom
    }
}

/// Law: every option is selected again by the colour name it stands for.
pub proof fn law_named_colors_round_trip(o: NamedColorOption)
    ensures
        named_option_for(named_color_value(o)) == o,
{
    reveal_strlit("red");
    reveal_strlit("green");
    reveal_strlit("blue");
    reveal_strlit("yellow");
    reveal_strlit("orange");
    reveal_strlit("pink");
    reveal_strlit("white");
    reveal_strlit("black");
    reveal_strlit("custom");
    let v = named_color_value(o);
    assert(trim_seq(v) == v);
    assert(eq_lower_word(v, v));
    match o {
        NamedColorOption::White => {
            lemma_first_letter_differs(v, "green"@);
        },
        NamedColorOption::Black => {
            lemma_first_letter_differs(v, "green"@);
            lemma_first_letter_differs(v, "white"@);
        },
        NamedColorOption::Pink => {
            lemma_first_letter_differs(v, "blue"@);
        },
        NamedColorOption::Orange => {
            lemma_first_letter_differs(v, "yellow"@);
        },
        NamedColorOption::Custom => {
            lemma_first_letter_differs(v, "yellow"@);
            lemma_first_letter_differs(v, "orange"@);
        },
        _ => {},
    }
}

impl NamedColorOption {
    /// Every option, in the order the picker lists them.
    pub fn list() -> (v: Vec<Self>)
        ensures
            v@ == seq![NamedColorOption::Red, NamedColorOption::Green, NamedColorOption::Blue, NamedColorOption::Yellow, NamedColorOption::Orange, NamedColorOption::Pink, NamedColorOption::White, NamedColorOption::Black, NamedColorOption::Custom],
    {
        let v = vec![NamedColorOption::Red, NamedColorOption::Green, NamedColorOption::Blue, NamedColorOption::Yellow, NamedColorOption::Orange, NamedColorOption::Pink, NamedColorOption::White, NamedColorOption::Black, NamedColorOption::Custom];
        proof {
            assert(v@ =~= seq![NamedColorOption::Red, NamedColorOption::Green, NamedColorOption::Blue, NamedColorOption::Yellow, NamedColorOption::Orange, NamedColorOption::Pink, NamedColorOption::White, NamedColorOption::Black, NamedColorOption::Custom]);
        }
        v
    }

    /// The colour name this option stands for.
    pub fn as_value(&self) -> (s: &'static str)
        ensures
            s@ == named_color_value(*self),
    {
        match self {
            NamedColorOption::Red => "red",
            NamedColorOption::Green => "green",
            NamedColorOption::Blue => "blue",
            NamedColorOption::Yellow => "yellow",
            NamedColorOption::Orange => "orange",
            NamedColorOption::Pink => "pink",
            NamedColorOption::White => "white",
            NamedColorOption::Black => "black",
            NamedColorOption::Custom => "custom",
        }
    }

    /// The option a typed colour name selects.
    pub fn for_name(name: &str) -> (o: Self)
        ensures
            o == named_option_for(name@),
    {
        let chars = str_chars(name);
        let t = trim_chars(&chars);
        if chars_eq_lower_word(&t, &str_chars("red")) {
            NamedColorOption::Red
        }         else if chars_eq_lower_word(&t, &str_chars("green")) {
            NamedColorOption::Green
        }         else if chars_eq_lower_word(&t, &str_chars("blue")) {
            NamedColorOption::Blue
        }         else if chars_eq_lower_word(&t, &str_chars("yellow")) {
            NamedColorOption::Yellow
        }         else if chars_eq_lower_word(&t, &str_chars("orange")) {
            NamedColorOption::Orange
        }         else if chars_eq_lower_word(&t, &str_chars("pink")) {
            NamedColorOption::Pink
        }         else if chars_eq_lower_word(&t, &str_chars("white")) {
            NamedColorOption::White
        }         else if chars_eq_lower_word(&t, &str_chars("black")) {
            NamedColorOption::Black
        } else {
            NamedColorOption::Custom
        }
    }
}

/// The drawing colour as typed: a colour name, or red/green/blue components.
#[derive(Debug, Clone)]
pub struct ColorInput {
    pub mode: ColorMode,
    pub name: String,
    pub selected_named: NamedColorOption,
    pub rgb: Vec<String>,
}

/// `n` is colour `c` entered in `mode`; switching to a named colour with no
/// name typed picks red, otherwise selects what the name spells.
pub open spec fn mode_switched(c: ColorInput, n: ColorInput, mode: ColorMode) -> bool {
    &&& n.mode == mode
    &&& n.rgb == c.rgb
    &&& if mode == ColorMode::Named && trim_seq(c.name@).len() == 0 {
        &&& n.selected_named == NamedColorOption::Red
        &&& n.name@ == named_color_value(NamedColorOption::Red)
    } else if mode == ColorMode::Named {
        &&& n.selected_named == named_option_for(c.name@)
        &&& n.name == c.name
    } else {
        &&& n.selected_named == c.selected_named
        &&& n.name == c.name
    }
}

/// `n` is colour `c` with option `o` picked; a named colour also fills in its name.
pub open spec fn named_picked(c: ColorInput, n: ColorInput, o: NamedColorOption) -> bool {
    &&& n.mode == c.mode
    &&& n.rgb == c.rgb
    &&& n.selected_named == o
    &&& if o == NamedColorOption::Custom {
        n.name == c.name
    } else {
        n.name@ == named_color_value(o)
    }
}

impl ColorInput {
    /// Enters the colour in `mode`.
    pub fn switch_mode(&mut self, mode: ColorMode)
        ensures
            mode_switched(*old(self), *final(self), mode),
    {
        self.mode = mode;
        if mode == ColorMode::Named {
            let name = str_chars(self.name.as_str());
            let trimmed = trim_chars(&name);
            if trimmed.len() == 0 {
                self.selected_named = NamedColorOption::Red;
                self.name = str_to_string(NamedColorOption::Red.as_value());
            } else {
                self.selected_named = NamedColorOption::for_name(self.name.as_str());
            }
        }
    }

    /// Picks option `o`; a named colour also fills in its name.
    pub fn pick_named(&mut self, o: NamedColorOption)
        ensures
            named_picked(*old(self), *final(self), o),
    {
        self.selected_named = o;
        if o != NamedColorOption::Custom {
            self.name = str_to_string(o.as_value());
        }
    }

    /// Selects the option that the typed name spells.
    pub fn update_named_from_current(&mut self)
        ensures
            *final(self) == (ColorInput { selected_named: named_option_for(old(self).name@), ..*old(self) }),
    {
        self.selected_named = NamedColorOption::for_name(self.name.as_str());
    }

    /// Whether the name is typed by hand rather than picked.
    pub fn selected_named_is_custom(&self) -> (b: bool)
        ensures
            b == (self.selected_named == NamedColorOption::Custom),
    {
        self.selected_named == NamedColorOption::Custom
    }
}

/// A colour with three typed components.
#[derive(Debug, Clone)]
pub struct ColorTripletInput {
    pub components: Vec<String>,
}

/// A colour with four typed components.
#[derive(Debug, Clone)]
pub struct ColorQuadInput {
    pub components: Vec<String>,
}

/// `v` with position `index` replaced by `value`, when `index` is in range.
pub open spec fn set_component_spec(v: Seq<Seq<char>>, index: usize, value: Seq<char>) -> Seq<Seq<char>> {
    if index < v.len() {
        v.update(index as int, value)
    } else {
        v
    }
}

/// Replaces component `index` of `components` when it exists.
fn set_component_of(components: &mut Vec<String>, index: usize, value: String)
    ensures
        strings_of(final(components)@) == set_component_spec(strings_of(old(components)@), index, value@),
{
    if index < components.len() {
        components.set(index, value);
        proof {
            assert(strings_of(components@) =~= strings_of(old(components)@).update(index as int, value@));
        }
    }
}

impl ColorTripletInput {
    /// Replaces component `index` when it exists.
    pub fn set_component(&mut self, index: usize, value: String)
        ensures
            strings_of(final(self).components@) == set_component_spec(strings_of(old(self).components@), index, value@),
    {
        set_component_of(&mut self.components, index, value);
    }
}

impl ColorQuadInput {
    /// Replaces component `index` when it exists.
    pub fn set_component(&mut self, index: usize, value: String)
        ensures
            strings_of(final(self).components@) == set_component_spec(strings_of(old(self).components@), index, value@),
    {
        set_component_of(&mut self.components, index, value);
    }
}

/// Every setting of the configuration as the editor holds it.
#[derive(Debug, Clone)]
pub struct ConfigDraft {
    pub drawing_color: ColorInput,
    pub drawing_default_thickness: String,
    pub drawing_default_font_size: String,
    pub drawing_font_family: String,
    pub drawing_font_weight: String,
    pub drawing_font_style: String,
    pub drawing_text_background_enabled: bool,
    pub drawing_font_style_option: FontStyleOption,
    pub drawing_font_weight_option: FontWeightOption,
    pub arrow_length: String,
    pub arrow_angle: String,
    pub performance_buffer_count: u32,
    pub performance_enable_vsync: bool,
    pub ui_show_status_bar: bool,
    pub ui_status_position: StatusPositionOption,
    pub status_font_size: String,
    pub status_padding: String,
    pub status_bar_bg_color: ColorQuadInput,
    pub status_bar_text_color: ColorQuadInput,
    pub status_dot_radius: String,
    pub help_font_size: String,
    pub help_line_height: String,
    pub help_padding: String,
    pub help_bg_color: ColorQuadInput,
    pub help_border_color: ColorQuadInput,
    pub help_border_width: String,
    pub help_text_color: ColorQuadInput,
    pub board_enabled: bool,
    pub board_default_mode: BoardModeOption,
    pub board_whiteboard_color: ColorTripletInput,
    pub board_blackboard_color: ColorTripletInput,
    pub board_whiteboard_pen: ColorTripletInput,
    pub board_blackboard_pen: ColorTripletInput,
    pub board_auto_adjust_pen: bool,
    pub capture_enabled: bool,
    pub capture_save_directory: String,
    pub capture_filename_template: String,
    pub capture_format: String,
    pub capture_copy_to_clipboard: bool,
    pub session_persist_transparent: bool,
    pub session_persist_whiteboard: bool,
    pub session_persist_blackboard: bool,
    pub session_restore_tool_state: bool,
    pub session_per_output: bool,
    pub session_storage_mode: SessionStorageModeOption,
    pub session_custom_directory: String,
    pub session_max_shapes_per_frame: String,
    pub session_max_file_size_mb: String,
    pub session_compression: SessionCompressionOption,
    pub session_auto_compress_threshold_kb: String,
    pub session_backup_retention: String,
    pub keybindings: KeybindingsDraft,
}

/// Two drafts hold the same settings.
#[verifier::opaque]
pub open spec fn draft_eq(a: ConfigDraft, b: ConfigDraft) -> bool {
    &&& a.drawing_color.mode == b.drawing_color.mode
    &&& a.drawing_color.name@ == b.drawing_color.name@
    &&& a.drawing_color.selected_named == b.drawing_color.selected_named
    &&& strings_of(a.drawing_color.rgb@) == strings_of(b.drawing_color.rgb@)
    &&& a.drawing_default_thickness@ == b.drawing_default_thickness@
    &&& a.drawing_default_font_size@ == b.drawing_default_font_size@
    &&& a.drawing_font_family@ == b.drawing_font_family@
    &&& a.drawing_font_weight@ == b.drawing_font_weight@
    &&& a.drawing_font_style@ == b.drawing_font_style@
    &&& a.drawing_text_background_enabled == b.drawing_text_background_enabled
    &&& a.drawing_font_style_option == b.drawing_font_style_option
    &&& a.drawing_font_weight_option == b.drawing_font_weight_option
    &&& a.arrow_length@ == b.arrow_length@
    &&& a.arrow_angle@ == b.arrow_angle@
    &&& a.performance_buffer_count == b.performance_buffer_count
    &&& a.performance_enable_vsync == b.performance_enable_vsync
    &&& a.ui_show_status_bar == b.ui_show_status_bar
    &&& a.ui_status_position == b.ui_status_position
    &&& a.status_font_size@ == b.status_font_size@
    &&& a.status_padding@ == b.status_padding@
    &&& strings_of(a.status_bar_bg_color.components@) == strings_of(b.status_bar_bg_color.components@)
    &&& strings_of(a.status_bar_text_color.components@) == strings_of(b.status_bar_text_color.components@)
    &&& a.status_dot_radius@ == b.status_dot_radius@
    &&& a.help_font_size@ == b.help_font_size@
    &&& a.help_line_height@ == b.help_line_height@
    &&& a.help_padding@ == b.help_padding@
    &&& strings_of(a.help_bg_color.components@) == strings_of(b.help_bg_color.components@)
    &&& strings_of(a.help_border_color.components@) == strings_of(b.help_border_color.components@)
    &&& a.help_border_width@ == b.help_border_width@
    &&& strings_of(a.help_text_color.components@) == strings_of(b.help_text_color.components@)
    &&& a.board_enabled == b.board_enabled
    &&& a.board_default_mode == b.board_default_mode
    &&& strings_of(a.board_whiteboard_color.components@) == strings_of(b.board_whiteboard_color.components@)
    &&& strings_of(a.board_blackboard_color.components@) == strings_of(b.board_blackboard_color.components@)
    &&& strings_of(a.board_whiteboard_pen.components@) == strings_of(b.board_whiteboard_pen.components@)
    &&& strings_of(a.board_blackboard_pen.components@) == strings_of(b.board_blackboard_pen.components@)
    &&& a.board_auto_adjust_pen == b.board_auto_adjust_pen
    &&& a.capture_enabled == b.capture_enabled
    &&& a.capture_save_directory@ == b.capture_save_directory@
    &&& a.capture_filename_template@ == b.capture_filename_template@
    &&& a.capture_format@ == b.capture_format@
    &&& a.capture_copy_to_clipboard == b.capture_copy_to_clipboard
    &&& a.session_persist_transparent == b.session_persist_transparent
    &&& a.session_persist_whiteboard == b.session_persist_whiteboard
    &&& a.session_persist_blackboard == b.session_persist_blackboard
    &&& a.session_restore_tool_state == b.session_restore_tool_state
    &&& a.session_per_output == b.session_per_output
    &&& a.session_storage_mode == b.session_storage_mode
    &&& a.session_custom_directory@ == b.session_custom_directory@
    &&& a.session_max_shapes_per_frame@ == b.session_max_shapes_per_frame@
    &&& a.session_max_file_size_mb@ == b.session_max_file_size_mb@
    &&& a.session_compression == b.session_compression
    &&& a.session_auto_compress_threshold_kb@ == b.session_auto_compress_threshold_kb@
    &&& a.session_backup_retention@ == b.session_backup_retention@
    &&& entries_model(a.keybindings.entries@) == entries_model(b.keybindings.entries@)
}

/// A copy of a list of strings.
fn copy_strings(v: &Vec<String>) -> (r: Vec<String>)
    ensures
        strings_of(r@) == strings_of(v@),
{
    let r = v.clone();
    proof {
        assert forall|i: int| 0 <= i < v.len() implies r@[i] == v@[i] by {
            assert(cloned::<String>(v[i], r[i]));
        }
        assert(strings_of(r@) =~= strings_of(v@));
    }
    r
}

fn same_strings(a: &Vec<String>, b: &Vec<String>) -> (r: bool)
    ensures
        r == (strings_of(a@) == strings_of(b@)),
{
    if a.len() != b.len() {
        return false;
    }
    let mut i: usize = 0;
    while i < a.len()
        invariant
            i <= a.len(),
            a.len() == b.len(),
            forall|j: int| 0 <= j < i ==> a@[j]@ == b@[j]@,
        decreases a.len() - i,
    {
        if a[i] != b[i] {
            proof {
                assert(strings_of(a@)[i as int] != strings_of(b@)[i as int]);
            }
            return false;
        }
        i += 1;
    }
    proof {
        assert(strings_of(a@) =~= strings_of(b@));
    }
    true
}

fn same_entries(a: &KeybindingsDraft, b: &KeybindingsDraft) -> (r: bool)
    ensures
        r == (entries_model(a.entries@) == entries_model(b.entries@)),
{
    if a.entries.len() != b.entries.len() {
        return false;
    }
    let mut i: usize = 0;
    while i < a.entries.len()
        invariant
            i <= a.entries.len(),
            a.entries.len() == b.entries.len(),
            forall|j: int| 0 <= j < i ==> entries_model(a.entries@)[j] == entries_model(b.entries@)[j],
        decreases a.entries.len() - i,
    {
        if a.entries[i].field != b.entries[i].field || a.entries[i].value != b.entries[i].value {
            proof {
                assert(entries_model(a.entries@)[i as int] != entries_model(b.entries@)[i as int]);
            }
            return false;
        }
        i += 1;
    }
    proof {
        assert(entries_model(a.entries@) =~= entries_model(b.entries@));
    }
    true
}

/// The draft after typing `value` into text setting `field`.
pub open spec fn with_text(d: ConfigDraft, field: TextField, value: String) -> ConfigDraft {
    match field {
        TextField::DrawingColorName => ConfigDraft {
            drawing_color: ColorInput { name: value, selected_named: named_option_for(value@), ..d.drawing_color },
            ..d
        },
        TextField::DrawingFontWeight => ConfigDraft {
            drawing_font_weight: value,
            drawing_font_weight_option: FontWeightOption::Custom,
            ..d
        },
        TextField::DrawingFontStyle => ConfigDraft {
            drawing_font_style: value,
            drawing_font_style_option: FontStyleOption::Custom,
            ..d
        },
        TextField::DrawingThickness => ConfigDraft { drawing_default_thickness: value, ..d },
        TextField::DrawingFontSize => ConfigDraft { drawing_default_font_size: value, ..d },
        TextField::DrawingFontFamily => ConfigDraft { drawing_font_family: value, ..d },
        TextField::ArrowLength => ConfigDraft { arrow_length: value, ..d },
        TextField::ArrowAngle => ConfigDraft { arrow_angle: value, ..d },
        TextField::StatusFontSize => ConfigDraft { status_font_size: value, ..d },
        TextField::StatusPadding => ConfigDraft { status_padding: value, ..d },
        TextField::StatusDotRadius => ConfigDraft { status_dot_radius: value, ..d },
        TextField::HelpFontSize => ConfigDraft { help_font_size: value, ..d },
        TextField::HelpLineHeight => ConfigDraft { help_line_height: value, ..d },
        TextField::HelpPadding => ConfigDraft { help_padding: value, ..d },
        TextField::HelpBorderWidth => ConfigDraft { help_border_width: value, ..d },
        TextField::CaptureSaveDirectory => ConfigDraft { capture_save_directory: value, ..d },
        TextField::CaptureFilename => ConfigDraft { capture_filename_template: value, ..d },
        TextField::CaptureFormat => ConfigDraft { capture_format: value, ..d },
        TextField::SessionCustomDirectory => ConfigDraft { session_custom_directory: value, ..d },
        TextField::SessionMaxShapesPerFrame => ConfigDraft { session_max_shapes_per_frame: value, ..d },
        TextField::SessionMaxFileSizeMb => ConfigDraft { session_max_file_size_mb: value, ..d },
        TextField::SessionAutoCompressThresholdKb => ConfigDraft { session_auto_compress_threshold_kb: value, ..d },
        TextField::SessionBackupRetention => ConfigDraft { session_backup_retention: value, ..d },
    }
}

/// The draft after switching toggle `field` to `value`.
pub open spec fn with_toggle(d: ConfigDraft, field: ToggleField, value: bool) -> ConfigDraft {
    match field {
        ToggleField::DrawingTextBackground => ConfigDraft { drawing_text_background_enabled: value, ..d },
        ToggleField::PerformanceVsync => ConfigDraft { performance_enable_vsync: value, ..d },
        ToggleField::UiShowStatusBar => ConfigDraft { ui_show_status_bar: value, ..d },
        ToggleField::BoardEnabled => ConfigDraft { board_enabled: value, ..d },
        ToggleField::BoardAutoAdjust => ConfigDraft { board_auto_adjust_pen: value, ..d },
        ToggleField::CaptureEnabled => ConfigDraft { capture_enabled: value, ..d },
        ToggleField::CaptureCopyToClipboard => ConfigDraft { capture_copy_to_clipboard: value, ..d },
        ToggleField::SessionPersistTransparent => ConfigDraft { session_persist_transparent: value, ..d },
        ToggleField::SessionPersistWhiteboard => ConfigDraft { session_persist_whiteboard: value, ..d },
        ToggleField::SessionPersistBlackboard => ConfigDraft { session_persist_blackboard: value, ..d },
        ToggleField::SessionRestoreToolState => ConfigDraft { session_restore_tool_state: value, ..d },
        ToggleField::SessionPerOutput => ConfigDraft { session_per_output: value, ..d },
    }
}

/// `n` is draft `d` with component `index` of colour `field` set to `value`
/// (`d` itself for an index out of range).
pub open spec fn triplet_set(d: ConfigDraft, n: ConfigDraft, field: TripletField, index: usize, value: String) -> bool {
    match field {
        TripletField::DrawingColorRgb => {
            &&& n == ConfigDraft {
                drawing_color: ColorInput { rgb: n.drawing_color.rgb, ..d.drawing_color },
                ..d
            }
            &&& strings_of(n.drawing_color.rgb@) == set_component_spec(strings_of(d.drawing_color.rgb@), index, value@)
        },
        TripletField::BoardWhiteboard => {
            &&& n == ConfigDraft { board_whiteboard_color: n.board_whiteboard_color, ..d }
            &&& strings_of(n.board_whiteboard_color.components@) == set_component_spec(strings_of(d.board_whiteboard_color.components@), index, value@)
        },
        TripletField::BoardBlackboard => {
            &&& n == ConfigDraft { board_blackboard_color: n.board_blackboard_color, ..d }
            &&& strings_of(n.board_blackboard_color.components@) == set_component_spec(strings_of(d.board_blackboard_color.components@), index, value@)
        },
        TripletField::BoardWhiteboardPen => {
            &&& n == ConfigDraft { board_whiteboard_pen: n.board_whiteboard_pen, ..d }
            &&& strings_of(n.board_whiteboard_pen.components@) == set_component_spec(strings_of(d.board_whiteboard_pen.components@), index, value@)
        },
        TripletField::BoardBlackboardPen => {
            &&& n == ConfigDraft { board_blackboard_pen: n.board_blackboard_pen, ..d }
            &&& strings_of(n.board_blackboard_pen.components@) == set_component_spec(strings_of(d.board_blackboard_pen.components@), index, value@)
        },
    }
}

/// `n` is draft `d` with component `index` of colour `field` set to `value`
/// (`d` itself for an index out of range).
pub open spec fn quad_set(d: ConfigDraft, n: ConfigDraft, field: QuadField, index: usize, value: String) -> bool {
    match field {
        QuadField::StatusBarBg => {
            &&& n == ConfigDraft { status_bar_bg_color: n.status_bar_bg_color, ..d }
            &&& strings_of(n.status_bar_bg_color.components@) == set_component_spec(strings_of(d.status_bar_bg_color.components@), index, value@)
        },
        QuadField::StatusBarText => {
            &&& n == ConfigDraft { status_bar_text_color: n.status_bar_text_color, ..d }
            &&& strings_of(n.status_bar_text_color.components@) == set_component_spec(strings_of(d.status_bar_text_color.components@), index, value@)
        },
        QuadField::HelpBg => {
            &&& n == ConfigDraft { help_bg_color: n.help_bg_color, ..d }
            &&& strings_of(n.help_bg_color.components@) == set_component_spec(strings_of(d.help_bg_color.components@), index, value@)
        },
        QuadField::HelpBorder => {
            &&& n == ConfigDraft { help_border_color: n.help_border_color, ..d }
            &&& strings_of(n.help_border_color.components@) == set_component_spec(strings_of(d.help_border_color.components@), index, value@)
        },
        QuadField::HelpText => {
            &&& n == ConfigDraft { help_text_color: n.help_text_color, ..d }
            &&& strings_of(n.help_text_color.components@) == set_component_spec(strings_of(d.help_text_color.components@), index, value@)
        },
    }
}

impl ConfigDraft {
    /// The custom session directory the draft names: the trimmed text, or
    /// none when it is blank.
    pub fn custom_directory(&self) -> (r: Option<String>)
        ensures
            match r {
                Some(d) => d@ == trim_seq(self.session_custom_directory@) && d@.len() > 0,
                None => trim_seq(self.session_custom_directory@).len() == 0,
            },
    {
        let chars = str_chars(self.session_custom_directory.as_str());
        let trimmed = trim_chars(&chars);
        if trimmed.len() == 0 {
            None
        } else {
            Some(chars_to_string(&trimmed))
        }
    }

    /// A copy holding the same settings.
    pub fn duplicate(&self) -> (d: ConfigDraft)
        ensures
            draft_eq(d, *self),
    {
        reveal(draft_eq);
        ConfigDraft {
            drawing_color: ColorInput {
                mode: self.drawing_color.mode,
                name: self.drawing_color.name.clone(),
                selected_named: self.drawing_color.selected_named,
                rgb: copy_strings(&self.drawing_color.rgb),
            },
            drawing_default_thickness: self.drawing_default_thickness.clone(),
            drawing_default_font_size: self.drawing_default_font_size.clone(),
            drawing_font_family: self.drawing_font_family.clone(),
            drawing_font_weight: self.drawing_font_weight.clone(),
            drawing_font_style: self.drawing_font_style.clone(),
            arrow_length: self.arrow_length.clone(),
            arrow_angle: self.arrow_angle.clone(),
            status_font_size: self.status_font_size.clone(),
            status_padding: self.status_padding.clone(),
            status_dot_radius: self.status_dot_radius.clone(),
            help_font_size: self.help_font_size.clone(),
            help_line_height: self.help_line_height.clone(),
            help_padding: self.help_padding.clone(),
            help_border_width: self.help_border_width.clone(),
            capture_save_directory: self.capture_save_directory.clone(),
            capture_filename_template: self.capture_filename_template.clone(),
            capture_format: self.capture_format.clone(),
            session_custom_directory: self.session_custom_directory.clone(),
            session_max_shapes_per_frame: self.session_max_shapes_per_frame.clone(),
            session_max_file_size_mb: self.session_max_file_size_mb.clone(),
            session_auto_compress_threshold_kb: self.session_auto_compress_threshold_kb.clone(),
            session_backup_retention: self.session_backup_retention.clone(),
            drawing_text_background_enabled: self.drawing_text_background_enabled,
            drawing_font_style_option: self.drawing_font_style_option,
            drawing_font_weight_option: self.drawing_font_weight_option,
            performance_buffer_count: self.performance_buffer_count,
            performance_enable_vsync: self.performance_enable_vsync,
            ui_show_status_bar: self.ui_show_status_bar,
            ui_status_position: self.ui_status_position,
            board_enabled: self.board_enabled,
            board_default_mode: self.board_default_mode,
            board_auto_adjust_pen: self.board_auto_adjust_pen,
            capture_enabled: self.capture_enabled,
            capture_copy_to_clipboard: self.capture_copy_to_clipboard,
            session_persist_transparent: self.session_persist_transparent,
            session_persist_whiteboard: self.session_persist_whiteboard,
            session_persist_blackboard: self.session_persist_blackboard,
            session_restore_tool_state: self.session_restore_tool_state,
            session_per_output: self.session_per_output,
            session_storage_mode: self.session_storage_mode,
            session_compression: self.session_compression,
            board_whiteboard_color: ColorTripletInput { components: copy_strings(&self.board_whiteboard_color.components) },
            board_blackboard_color: ColorTripletInput { components: copy_strings(&self.board_blackboard_color.components) },
            board_whiteboard_pen: ColorTripletInput { components: copy_strings(&self.board_whiteboard_pen.components) },
            board_blackboard_pen: ColorTripletInput { components: copy_strings(&self.board_blackboard_pen.components) },
            status_bar_bg_color: ColorQuadInput { components: copy_strings(&self.status_bar_bg_color.components) },
            status_bar_text_color: ColorQuadInput { components: copy_strings(&self.status_bar_text_color.components) },
            help_bg_color: ColorQuadInput { components: copy_strings(&self.help_bg_color.components) },
            help_border_color: ColorQuadInput { components: copy_strings(&self.help_border_color.components) },
            help_text_color: ColorQuadInput { components: copy_strings(&self.help_text_color.components) },
            keybindings: self.keybindings.duplicate(),
        }
    }

    /// Whether `other` holds the same settings.
    #[verifier::rlimit(100)]
    #[verifier::spinoff_prover]
    pub fn same_as(&self, other: &ConfigDraft) -> (r: bool)
        ensures
            r == draft_eq(*self, *other),
    {
        reveal(draft_eq);
        self.drawing_color.mode == other.drawing_color.mode
            && self.drawing_color.name == other.drawing_color.name
            && self.drawing_color.selected_named == other.drawing_color.selected_named
            && same_strings(&self.drawing_color.rgb, &other.drawing_color.rgb)
            && self.drawing_default_thickness == other.drawing_default_thickness
            && self.drawing_default_font_size == other.drawing_default_font_size
            && self.drawing_font_family == other.drawing_font_family
            && self.drawing_font_weight == other.drawing_font_weight
            && self.drawing_font_style == other.drawing_font_style
            && self.drawing_text_background_enabled == other.drawing_text_background_enabled
            && self.drawing_font_style_option == other.drawing_font_style_option
            && self.drawing_font_weight_option == other.drawing_font_weight_option
            && self.arrow_length == other.arrow_length
            && self.arrow_angle == other.arrow_angle
            && self.performance_buffer_count == other.performance_buffer_count
            && self.performance_enable_vsync == other.performance_enable_vsync
            && self.ui_show_status_bar == other.ui_show_status_bar
            && self.ui_status_position == other.ui_status_position
            && self.status_font_size == other.status_font_size
            && self.status_padding == other.status_padding
            && same_strings(&self.status_bar_bg_color.components, &other.status_bar_bg_color.components)
            && same_strings(&self.status_bar_text_color.components, &other.status_bar_text_color.components)
            && self.status_dot_radius == other.status_dot_radius
            && self.help_font_size == other.help_font_size
            && self.help_line_height == other.help_line_height
            && self.help_padding == other.help_padding
            && same_strings(&self.help_bg_color.components, &other.help_bg_color.components)
            && same_strings(&self.help_border_color.components, &other.help_border_color.components)
            && self.help_border_width == other.help_border_width
            && same_strings(&self.help_text_color.components, &other.help_text_color.components)
            && self.board_enabled == other.board_enabled
            && self.board_default_mode == other.board_default_mode
            && same_strings(&self.board_whiteboard_color.components, &other.board_whiteboard_color.components)
            && same_strings(&self.board_blackboard_color.components, &other.board_blackboard_color.components)
            && same_strings(&self.board_whiteboard_pen.components, &other.board_whiteboard_pen.components)
            && same_strings(&self.board_blackboard_pen.components, &other.board_blackboard_pen.components)
            && self.board_auto_adjust_pen == other.board_auto_adjust_pen
            && self.capture_enabled == other.capture_enabled
            && self.capture_save_directory == other.capture_save_directory
            && self.capture_filename_template == other.capture_filename_template
            && self.capture_format == other.capture_format
            && self.capture_copy_to_clipboard == other.capture_copy_to_clipboard
            && self.session_persist_transparent == other.session_persist_transparent
            && self.session_persist_whiteboard == other.session_persist_whiteboard
            && self.session_persist_blackboard == other.session_persist_blackboard
            && self.session_restore_tool_state == other.session_restore_tool_state
            && self.session_per_output == other.session_per_output
            && self.session_storage_mode == other.session_storage_mode
            && self.session_custom_directory == other.session_custom_directory
            && self.session_max_shapes_per_frame == other.session_max_shapes_per_frame
            && self.session_max_file_size_mb == other.session_max_file_size_mb
            && self.session_compression == other.session_compression
            && self.session_auto_compress_threshold_kb == other.session_auto_compress_threshold_kb
            && self.session_backup_retention == other.session_backup_retention
            && same_entries(&self.keybindings, &other.keybindings)
    }

    /// Sets a boolean setting.
    #[verifier::rlimit(100)]
    #[verifier::spinoff_prover]
    pub fn set_toggle(&mut self, field: ToggleField, value: bool)
        ensures
            *final(self) == with_toggle(*old(self), field, value),
    {
        match field {
            ToggleField::DrawingTextBackground => self.drawing_text_background_enabled = value,
            ToggleField::PerformanceVsync => self.performance_enable_vsync = value,
            ToggleField::UiShowStatusBar => self.ui_show_status_bar = value,
            ToggleField::BoardEnabled => self.board_enabled = value,
            ToggleField::BoardAutoAdjust => self.board_auto_adjust_pen = value,
            ToggleField::CaptureEnabled => self.capture_enabled = value,
            ToggleField::CaptureCopyToClipboard => self.capture_copy_to_clipboard = value,
            ToggleField::SessionPersistTransparent => self.session_persist_transparent = value,
            ToggleField::SessionPersistWhiteboard => self.session_persist_whiteboard = value,
            ToggleField::SessionPersistBlackboard => self.session_persist_blackboard = value,
            ToggleField::SessionRestoreToolState => self.session_restore_tool_state = value,
            ToggleField::SessionPerOutput => self.session_per_output = value,
        }
    }

    /// Sets a free-text setting. Typing a font weight or style selects the
    /// custom option; typing a colour name sets the colour's name.
    #[verifier::spinoff_prover]
    pub fn set_text(&mut self, field: TextField, value: String)
        ensures
            *final(self) == with_text(*old(self), field, value),
    {
        match field {
            TextField::DrawingColorName | TextField::DrawingFontWeight | TextField::DrawingFontStyle | TextField::DrawingThickness | TextField::DrawingFontSize | TextField::DrawingFontFamily | TextField::ArrowLength | TextField::ArrowAngle => self.set_text_group0(field, value),
            TextField::StatusFontSize | TextField::StatusPadding | TextField::StatusDotRadius | TextField::HelpFontSize | TextField::HelpLineHeight | TextField::HelpPadding | TextField::HelpBorderWidth | TextField::CaptureSaveDirectory => self.set_text_group1(field, value),
            TextField::CaptureFilename | TextField::CaptureFormat | TextField::SessionCustomDirectory | TextField::SessionMaxShapesPerFrame | TextField::SessionMaxFileSizeMb | TextField::SessionAutoCompressThresholdKb | TextField::SessionBackupRetention => self.set_text_group2(field, value),
        }
    }

    #[verifier::rlimit(100)]
    #[verifier::spinoff_prover]
    fn set_text_group0(&mut self, field: TextField, value: String)
        requires
            field == TextField::DrawingColorName || field == TextField::DrawingFontWeight || field == TextField::DrawingFontStyle || field == TextField::DrawingThickness || field == TextField::DrawingFontSize || field == TextField::DrawingFontFamily || field == TextField::ArrowLength || field == TextField::ArrowAngle,
        ensures
            *final(self) == with_text(*old(self), field, value),
    {
        match field {
            TextField::DrawingColorName => {
                self.drawing_color.name = value;
                self.drawing_color.update_named_from_current();
            },
            TextField::DrawingFontWeight => {
                self.drawing_font_weight = value;
                self.drawing_font_weight_option = FontWeightOption::Custom;
            },
            TextField::DrawingFontStyle => {
                self.drawing_font_style = value;
                self.drawing_font_style_option = FontStyleOption::Custom;
            },
            TextField::DrawingThickness => self.drawing_default_thickness = value,
            TextField::DrawingFontSize => self.drawing_default_font_size = value,
            TextField::DrawingFontFamily => self.drawing_font_family = value,
            TextField::ArrowLength => self.arrow_length = value,
            TextField::ArrowAngle => self.arrow_angle = value,
            _ => {},
        }
    }

    #[verifier::rlimit(100)]
    #[verifier::spinoff_prover]
    fn set_text_group1(&mut self, field: TextField, value: String)
        requires
            field == TextField::StatusFontSize || field == TextField::StatusPadding || field == TextField::StatusDotRadius || field == TextField::HelpFontSize || field == TextField::HelpLineHeight || field == TextField::HelpPadding || field == TextField::HelpBorderWidth || field == TextField::CaptureSaveDirectory,
        ensures
            *final(self) == with_text(*old(self), field, value),
    {
        match field {
            TextField::StatusFontSize => self.status_font_size = value,
            TextField::StatusPadding => self.status_padding = value,
            TextField::StatusDotRadius => self.status_dot_radius = value,
            TextField::HelpFontSize => self.help_font_size = value,
            TextField::HelpLineHeight => self.help_line_height = value,
            TextField::HelpPadding => self.help_padding = value,
            TextField::HelpBorderWidth => self.help_border_width = value,
            TextField::CaptureSaveDirectory => self.capture_save_directory = value,
            _ => {},
        }
    }

    #[verifier::rlimit(100)]
    #[verifier::spinoff_prover]
    fn set_text_group2(&mut self, field: TextField, value: String)
        requires
            field == TextField::CaptureFilename || field == TextField::CaptureFormat || field == TextField::SessionCustomDirectory || field == TextField::SessionMaxShapesPerFrame || field == TextField::SessionMaxFileSizeMb || field == TextField::SessionAutoCompressThresholdKb || field == TextField::SessionBackupRetention,
        ensures
            *final(self) == with_text(*old(self), field, value),
    {
        match field {
            TextField::CaptureFilename => self.capture_filename_template = value,
            TextField::CaptureFormat => self.capture_format = value,
            TextField::SessionCustomDirectory => self.session_custom_directory = value,
            TextField::SessionMaxShapesPerFrame => self.session_max_shapes_per_frame = value,
            TextField::SessionMaxFileSizeMb => self.session_max_file_size_mb = value,
            TextField::SessionAutoCompressThresholdKb => self.session_auto_compress_threshold_kb = value,
            TextField::SessionBackupRetention => self.session_backup_retention = value,
            _ => {},
        }
    }

    /// Sets one component of a three-component colour (nothing changes for
    /// an index out of range).
    pub fn set_triplet(&mut self, field: TripletField, index: usize, value: String)
        ensures
            triplet_set(*old(self), *final(self), field, index, value),
    {
        match field {
            TripletField::DrawingColorRgb => set_component_of(&mut self.drawing_color.rgb, index, value),
            TripletField::BoardWhiteboard => self.board_whiteboard_color.set_component(index, value),
            TripletField::BoardBlackboard => self.board_blackboard_color.set_component(index, value),
            TripletField::BoardWhiteboardPen => self.board_whiteboard_pen.set_component(index, value),
            TripletField::BoardBlackboardPen => self.board_blackboard_pen.set_component(index, value),
        }
    }

    /// Sets one component of a four-component colour (nothing changes for an
    /// index out of range).
    pub fn set_quad(&mut self, field: QuadField, index: usize, value: String)
        ensures
            quad_set(*old(self), *final(self), field, index, value),
    {
        match field {
            QuadField::StatusBarBg => self.status_bar_bg_color.set_component(index, value),
            QuadField::StatusBarText => self.status_bar_text_color.set_component(index, value),
            QuadField::HelpBg => self.help_bg_color.set_component(index, value),
            QuadField::HelpBorder => self.help_border_color.set_component(index, value),
            QuadField::HelpText => self.help_text_color.set_component(index, value),
        }
    }
}

} // verus!
