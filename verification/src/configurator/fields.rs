//! Option lists and field identifiers of the configuration editor.
use vstd::prelude::*;
use vstd::string::*;

use crate::config::enums::StatusPosition;
use crate::config::types::{SessionCompression, SessionStorageMode};
use crate::text::{chars_eq_lower_word, eq_lower_word, lemma_first_letter_differs, str_chars, str_to_string, trim_chars, trim_seq};

verus! {

#[derive(Debug, Clone, Copy, PartialEq, Eq, Structural)]
pub enum FontStyleOption {
    Normal,
    Italic,
    Oblique,
    Custom,
}

/// Display label of a font style option.
pub open spec fn font_style_label(o: FontStyleOption) -> Seq<char> {
    match o {
        FontStyleOption::Normal => "Normal"@,
        FontStyleOption::Italic => "Italic"@,
        FontStyleOption::Oblique => "Oblique"@,
        FontStyleOption::Custom => "Custom"@,
    }
}

/// Stored value of a font style option (empty for `Custom`).
pub open spec fn font_style_value(o: FontStyleOption) -> Seq<char> {
    match o {
        FontStyleOption::Normal => "normal"@,
        FontStyleOption::Italic => "italic"@,
        FontStyleOption::Oblique => "oblique"@,
        FontStyleOption::Custom => ""@,
    }
}

/// The option a stored value selects, with the value to keep: a known value
/// (compared trimmed and lowercased) gives its option and canonical spelling,
/// anything else gives `Custom` and the value unchanged.
pub open spec fn font_style_from_value(v: Seq<char>) -> (FontStyleOption, Seq<char>) {
    let t = trim_seq(v);
    if eq_lower_word(t, seq!['n', 'o', 'r', 'm', 'a', 'l']) {
        (FontStyleOption::Normal, "normal"@)
    } else if eq_lower_word(t, seq!['i', 't', 'a', 'l', 'i', 'c']) {
        (FontStyleOption::Italic, "italic"@)
    } else if eq_lower_word(t, seq!['o', 'b', 'l', 'i', 'q', 'u', 'e']) {
        (FontStyleOption::Oblique, "oblique"@)
    } else {
        (FontStyleOption::Custom, v)
    }
}

impl FontStyleOption {
    /// Every option, in display order.
    pub fn list() -> (v: Vec<Self>)
        ensures
            v@ == seq![FontStyleOption::Normal, FontStyleOption::Italic, FontStyleOption::Oblique, FontStyleOption::Custom],
    {
        let v = vec![FontStyleOption::Normal, FontStyleOption::Italic, FontStyleOption::Oblique, FontStyleOption::Custom];
        proof {
            assert(v@ =~= seq![FontStyleOption::Normal, FontStyleOption::Italic, FontStyleOption::Oblique, FontStyleOption::Custom]);
        }
        v
    }

    /// Display label.
    pub fn label(&self) -> (s: &'static str)
        ensures
            s@ == font_style_label(*self),
    {
        match self {
            FontStyleOption::Normal => "Normal",
            FontStyleOption::Italic => "Italic",
            FontStyleOption::Oblique => "Oblique",
            FontStyleOption::Custom => "Custom",
        }
    }

    /// Stored value (empty for `Custom`).
    pub fn canonical_value(&self) -> (s: &'static str)
        ensures
            s@ == font_style_value(*self),
    {
        match self {
            FontStyleOption::Normal => "normal",
            FontStyleOption::Italic => "italic",
            FontStyleOption::Oblique => "oblique",
            FontStyleOption::Custom => "",
        }
    }

    /// The option a stored value selects, with the value to keep.
    pub fn from_value(value: &str) -> (r: (Self, String))
        ensures
            r.0 == font_style_from_value(value@).0,
            r.1@ == font_style_from_value(value@).1,
    {
        let raw = str_chars(value);
        let t = trim_chars(&raw);
        let w0 = vec!['n', 'o', 'r', 'm', 'a', 'l'];
        let w1 = vec!['i', 't', 'a', 'l', 'i', 'c'];
        let w2 = vec!['o', 'b', 'l', 'i', 'q', 'u', 'e'];
        proof {
            assert(w0@ == seq!['n', 'o', 'r', 'm', 'a', 'l']);
            assert(w1@ == seq!['i', 't', 'a', 'l', 'i', 'c']);
            assert(w2@ == seq!['o', 'b', 'l', 'i', 'q', 'u', 'e']);
        }
        if chars_eq_lower_word(&t, &w0) {
            return (FontStyleOption::Normal, String::from_str("normal"));
        }
        if chars_eq_lower_word(&t, &w1) {
            return (FontStyleOption::Italic, String::from_str("italic"));
        }
        if chars_eq_lower_word(&t, &w2) {
            return (FontStyleOption::Oblique, String::from_str("oblique"));
        }
        (FontStyleOption::Custom, str_to_string(value))
    }

}

#[derive(Debug, Clone, Copy, PartialEq, Eq, Structural)]
pub enum FontWeightOption {
    Normal,
    Bold,
    Light,
    Ultralight,
    Heavy,
    Ultrabold,
    Custom,
}

/// Display label of a font weight option.
pub open spec fn font_weight_label(o: FontWeightOption) -> Seq<char> {
    match o {
        FontWeightOption::Normal => "Normal"@,
        FontWeightOption::Bold => "Bold"@,
        FontWeightOption::Light => "Light"@,
        FontWeightOption::Ultralight => "Ultralight"@,
        FontWeightOption::Heavy => "Heavy"@,
        FontWeightOption::Ultrabold => "Ultrabold"@,
        FontWeightOption::Custom => "Custom"@,
    }
}

/// Stored value of a font weight option (empty for `Custom`).
pub open spec fn font_weight_value(o: FontWeightOption) -> Seq<char> {
    match o {
        FontWeightOption::Normal => "normal"@,
        FontWeightOption::Bold => "bold"@,
        FontWeightOption::Light => "light"@,
        FontWeightOption::Ultralight => "ultralight"@,
        FontWeightOption::Heavy => "heavy"@,
        FontWeightOption::Ultrabold => "ultrabold"@,
        FontWeightOption::Custom => ""@,
    }
}

/// The option a stored value selects, with the value to keep: a known value
/// (compared trimmed and lowercased) gives its option and canonical spelling,
/// anything else gives `Custom` and the value unchanged.
pub open spec fn font_weight_from_value(v: Seq<char>) -> (FontWeightOption, Seq<char>) {
    let t = trim_seq(v);
    if eq_lower_word(t, seq!['n', 'o', 'r', 'm', 'a', 'l']) {
        (FontWeightOption::Normal, "normal"@)
    } else if eq_lower_word(t, seq!['b', 'o', 'l', 'd']) {
        (FontWeightOption::Bold, "bold"@)
    } else if eq_lower_word(t, seq!['l', 'i', 'g', 'h', 't']) {
        (FontWeightOption::Light, "light"@)
    } else if eq_lower_word(t, seq!['u', 'l', 't', 'r', 'a', 'l', 'i', 'g', 'h', 't']) {
        (FontWeightOption::Ultralight, "ultralight"@)
    } else if eq_lower_word(t, seq!['h', 'e', 'a', 'v', 'y']) {
        (FontWeightOption::Heavy, "heavy"@)
    } else if eq_lower_word(t, seq!['u', 'l', 't', 'r', 'a', 'b', 'o', 'l', 'd']) {
        (FontWeightOption::Ultrabold, "ultrabold"@)
    } else {
        (FontWeightOption::Custom, v)
    }
}

impl FontWeightOption {
    /// Every option, in display order.
    pub fn list() -> (v: Vec<Self>)
        ensures
            v@ == seq![FontWeightOption::Normal, FontWeightOption::Bold, FontWeightOption::Light, FontWeightOption::Ultralight, FontWeightOption::Heavy, FontWeightOption::Ultrabold, FontWeightOption::Custom],
    {
        let v = vec![FontWeightOption::Normal, FontWeightOption::Bold, FontWeightOption::Light, FontWeightOption::Ultralight, FontWeightOption::Heavy, FontWeightOption::Ultrabold, FontWeightOption::Custom];
        proof {
            assert(v@ =~= seq![FontWeightOption::Normal, FontWeightOption::Bold, FontWeightOption::Light, FontWeightOption::Ultralight, FontWeightOption::Heavy, FontWeightOption::Ultrabold, FontWeightOption::Custom]);
        }
        v
    }

    /// Display label.
    pub fn label(&self) -> (s: &'static str)
        ensures
            s@ == font_weight_label(*self),
    {
        match self {
            FontWeightOption::Normal => "Normal",
            FontWeightOption::Bold => "Bold",
            FontWeightOption::Light => "Light",
            FontWeightOption::Ultralight => "Ultralight",
            FontWeightOption::Heavy => "Heavy",
            FontWeightOption::Ultrabold => "Ultrabold",
            FontWeightOption::Custom => "Custom",
        }
    }

    /// Stored value (empty for `Custom`).
    pub fn canonical_value(&self) -> (s: &'static str)
        ensures
            s@ == font_weight_value(*self),
    {
        match self {
            FontWeightOption::Normal => "normal",
            FontWeightOption::Bold => "bold",
            FontWeightOption::Light => "light",
            FontWeightOption::Ultralight => "ultralight",
            FontWeightOption::Heavy => "heavy",
            FontWeightOption::Ultrabold => "ultrabold",
            FontWeightOption::Custom => "",
        }
    }

    /// The option a stored value selects, with the value to keep.
    pub fn from_value(value: &str) -> (r: (Self, String))
        ensures
            r.0 == font_weight_from_value(value@).0,
            r.1@ == font_weight_from_value(value@).1,
    {
        let raw = str_chars(value);
        let t = trim_chars(&raw);
        let w0 = vec!['n', 'o', 'r', 'm', 'a', 'l'];
        let w1 = vec!['b', 'o', 'l', 'd'];
        let w2 = vec!['l', 'i', 'g', 'h', 't'];
        let w3 = vec!['u', 'l', 't', 'r', 'a', 'l', 'i', 'g', 'h', 't'];
        let w4 = vec!['h', 'e', 'a', 'v', 'y'];
        let w5 = vec!['u', 'l', 't', 'r', 'a', 'b', 'o', 'l', 'd'];
        proof {
            assert(w0@ == seq!['n', 'o', 'r', 'm', 'a', 'l']);
            assert(w1@ == seq!['b', 'o', 'l', 'd']);
            assert(w2@ == seq!['l', 'i', 'g', 'h', 't']);
            assert(w3@ == seq!['u', 'l', 't', 'r', 'a', 'l', 'i', 'g', 'h', 't']);
            assert(w4@ == seq!['h', 'e', 'a', 'v', 'y']);
            assert(w5@ == seq!['u', 'l', 't', 'r', 'a', 'b', 'o', 'l', 'd']);
        }
        if chars_eq_lower_word(&t, &w0) {
            return (FontWeightOption::Normal, String::from_str("normal"));
        }
        if chars_eq_lower_word(&t, &w1) {
            return (FontWeightOption::Bold, String::from_str("bold"));
        }
        if chars_eq_lower_word(&t, &w2) {
            return (FontWeightOption::Light, String::from_str("light"));
        }
        if chars_eq_lower_word(&t, &w3) {
            return (FontWeightOption::Ultralight, String::from_str("ultralight"));
        }
        if chars_eq_lower_word(&t, &w4) {
            return (FontWeightOption::Heavy, String::from_str("heavy"));
        }
        if chars_eq_lower_word(&t, &w5) {
            return (FontWeightOption::Ultrabold, String::from_str("ultrabold"));
        }
        (FontWeightOption::Custom, str_to_string(value))
    }

}

#[derive(Debug, Clone, Copy, PartialEq, Eq, Structural)]
pub enum StatusPositionOption {
    TopLeft,
    TopRight,
    BottomLeft,
    BottomRight,
}

/// Display label of a status bar position.
pub open spec fn status_position_label(o: StatusPositionOption) -> Seq<char> {
    match o {
        StatusPositionOption::TopLeft => "Top Left"@,
        StatusPositionOption::TopRight => "Top Right"@,
        StatusPositionOption::BottomLeft => "Bottom Left"@,
        StatusPositionOption::BottomRight => "Bottom Right"@,
    }
}

impl StatusPositionOption {
    /// Every option, in display order.
    pub fn list() -> (v: Vec<Self>)
        ensures
            v@ == seq![StatusPositionOption::TopLeft, StatusPositionOption::TopRight, StatusPositionOption::BottomLeft, StatusPositionOption::BottomRight],
    {
        let v = vec![StatusPositionOption::TopLeft, StatusPositionOption::TopRight, StatusPositionOption::BottomLeft, StatusPositionOption::BottomRight];
        proof {
            assert(v@ =~= seq![StatusPositionOption::TopLeft, StatusPositionOption::TopRight, StatusPositionOption::BottomLeft, StatusPositionOption::BottomRight]);
        }
        v
    }

    /// Display label.
    pub fn label(&self) -> (s: &'static str)
        ensures
            s@ == status_position_label(*self),
    {
        match self {
            StatusPositionOption::TopLeft => "Top Left",
            StatusPositionOption::TopRight => "Top Right",
            StatusPositionOption::BottomLeft => "Bottom Left",
            StatusPositionOption::BottomRight => "Bottom Right",
        }
    }

    /// The configuration value for this option.
    pub fn to_status_position(&self) -> (p: StatusPosition)
        ensures
            p == match self {
                StatusPositionOption::TopLeft => StatusPosition::TopLeft,
                StatusPositionOption::TopRight => StatusPosition::TopRight,
                StatusPositionOption::BottomLeft => StatusPosition::BottomLeft,
                StatusPositionOption::BottomRight => StatusPosition::BottomRight,
            },
    {
        match self {
            StatusPositionOption::TopLeft => StatusPosition::TopLeft,
            StatusPositionOption::TopRight => StatusPosition::TopRight,
            StatusPositionOption::BottomLeft => StatusPosition::BottomLeft,
            StatusPositionOption::BottomRight => StatusPosition::BottomRight,
        }
    }

    /// The option for a configuration value.
    pub fn from_status_position(position: StatusPosition) -> (o: Self)
        ensures
            o == match position {
                StatusPosition::TopLeft => StatusPositionOption::TopLeft,
                StatusPosition::TopRight => StatusPositionOption::TopRight,
                StatusPosition::BottomLeft => StatusPositionOption::BottomLeft,
                StatusPosition::BottomRight => StatusPositionOption::BottomRight,
            },
    {
        match position {
            StatusPosition::TopLeft => StatusPositionOption::TopLeft,
            StatusPosition::TopRight => StatusPositionOption::TopRight,
            StatusPosition::BottomLeft => StatusPositionOption::BottomLeft,
            StatusPosition::BottomRight => StatusPositionOption::BottomRight,
        }
    }
}

#[derive(Debug, Clone, Copy, PartialEq, Eq, Structural)]
pub enum BoardModeOption {
    Transparent,
    Whiteboard,
    Blackboard,
}

/// Display label of a board mode option.
pub open spec fn board_mode_label(o: BoardModeOption) -> Seq<char> {
    match o {
        BoardModeOption::Transparent => "Transparent"@,
        BoardModeOption::Whiteboard => "Whiteboard"@,
        BoardModeOption::Blackboard => "Blackboard"@,
    }
}

/// Stored value of a board mode option.
pub open spec fn board_mode_value(o: BoardModeOption) -> Seq<char> {
    match o {
        BoardModeOption::Transparent => "transparent"@,
        BoardModeOption::Whiteboard => "whiteboard"@,
        BoardModeOption::Blackboard => "blackboard"@,
    }
}

/// The option whose stored value is exactly `v`.
pub open spec fn board_mode_option_named(v: Seq<char>) -> Option<BoardModeOption> {
    if v == seq!['t', 'r', 'a', 'n', 's', 'p', 'a', 'r', 'e', 'n', 't'] {
        Some(BoardModeOption::Transparent)
    } else if v == seq!['w', 'h', 'i', 't', 'e', 'b', 'o', 'a', 'r', 'd'] {
        Some(BoardModeOption::Whiteboard)
    } else if v == seq!['b', 'l', 'a', 'c', 'k', 'b', 'o', 'a', 'r', 'd'] {
        Some(BoardModeOption::Blackboard)
    } else {
        None
    }
}

impl BoardModeOption {
    /// Every option, in display order.
    pub fn list() -> (v: Vec<Self>)
        ensures
            v@ == seq![BoardModeOption::Transparent, BoardModeOption::Whiteboard, BoardModeOption::Blackboard],
    {
        let v = vec![BoardModeOption::Transparent, BoardModeOption::Whiteboard, BoardModeOption::Blackboard];
        proof {
            assert(v@ =~= seq![BoardModeOption::Transparent, BoardModeOption::Whiteboard, BoardModeOption::Blackboard]);
        }
        v
    }

    /// Display label.
    pub fn label(&self) -> (s: &'static str)
        ensures
            s@ == board_mode_label(*self),
    {
        match self {
            BoardModeOption::Transparent => "Transparent",
            BoardModeOption::Whiteboard => "Whiteboard",
            BoardModeOption::Blackboard => "Blackboard",
        }
    }

    /// Stored value.
    pub fn as_str(&self) -> (s: &'static str)
        ensures
            s@ == board_mode_value(*self),
    {
        match self {
            BoardModeOption::Transparent => "transparent",
            BoardModeOption::Whiteboard => "whiteboard",
            BoardModeOption::Blackboard => "blackboard",
        }
    }

    /// The option whose stored value is exactly `value`.
    pub fn from_str(value: &str) -> (r: Option<Self>)
        ensures
            r == board_mode_option_named(value@),
    {
        let v = str_chars(value);
        let w0 = vec!['t', 'r', 'a', 'n', 's', 'p', 'a', 'r', 'e', 'n', 't'];
        let w1 = vec!['w', 'h', 'i', 't', 'e', 'b', 'o', 'a', 'r', 'd'];
        let w2 = vec!['b', 'l', 'a', 'c', 'k', 'b', 'o', 'a', 'r', 'd'];
        proof {
            assert(w0@ == seq!['t', 'r', 'a', 'n', 's', 'p', 'a', 'r', 'e', 'n', 't']);
            assert(w1@ == seq!['w', 'h', 'i', 't', 'e', 'b', 'o', 'a', 'r', 'd']);
            assert(w2@ == seq!['b', 'l', 'a', 'c', 'k', 'b', 'o', 'a', 'r', 'd']);
        }
        if crate::text::chars_equal(&v, &w0) {
            return Some(BoardModeOption::Transparent);
        }
        if crate::text::chars_equal(&v, &w1) {
            return Some(BoardModeOption::Whiteboard);
        }
        if crate::text::chars_equal(&v, &w2) {
            return Some(BoardModeOption::Blackboard);
        }
        None
    }
}

/// Law: each named font style and weight is read back from its own stored
/// value, and each board mode option from its own stored value; a stored
/// value read back keeps the canonical spelling of the option it selects,
/// or stays as it was when it selects none (`Custom`).
pub proof fn law_option_values_round_trip(
    style: FontStyleOption,
    weight: FontWeightOption,
    board: BoardModeOption,
    v: Seq<char>,
)
    ensures
        style != FontStyleOption::Custom ==> font_style_from_value(font_style_value(style)) == (
        style,
        font_style_value(style),
        ),
        weight != FontWeightOption::Custom ==> font_weight_from_value(font_weight_value(weight)) == (
        weight,
        font_weight_value(weight),
        ),
        board_mode_option_named(board_mode_value(board)) == Some(board),
        font_style_from_value(v).0 == FontStyleOption::Custom ==> font_style_from_value(v).1 == v,
        font_style_from_value(v).0 != FontStyleOption::Custom ==> font_style_from_value(v).1 == font_style_value(
            font_style_from_value(v).0,
        ),
        font_weight_from_value(v).0 == FontWeightOption::Custom ==> font_weight_from_value(v).1 == v,
        font_weight_from_value(v).0 != FontWeightOption::Custom ==> font_weight_from_value(v).1
            == font_weight_value(font_weight_from_value(v).0),
{
    reveal_strlit("normal");
    reveal_strlit("italic");
    reveal_strlit("oblique");
    reveal_strlit("bold");
    reveal_strlit("light");
    reveal_strlit("ultralight");
    reveal_strlit("heavy");
    reveal_strlit("ultrabold");
    reveal_strlit("transparent");
    reveal_strlit("whiteboard");
    reveal_strlit("blackboard");
    let normal = seq!['n', 'o', 'r', 'm', 'a', 'l'];
    let light = seq!['l', 'i', 'g', 'h', 't'];
    let sv = font_style_value(style);
    match style {
        FontStyleOption::Normal => {
            assert(sv =~= normal);
        },
        FontStyleOption::Italic => {
            assert(sv =~= seq!['i', 't', 'a', 'l', 'i', 'c']);
            lemma_first_letter_differs(sv, normal);
        },
        FontStyleOption::Oblique => {
            assert(sv =~= seq!['o', 'b', 'l', 'i', 'q', 'u', 'e']);
        },
        FontStyleOption::Custom => {},
    }
    if style != FontStyleOption::Custom {
        assert(trim_seq(sv) == sv);
    }
    let wv = font_weight_value(weight);
    match weight {
        FontWeightOption::Normal => {
            assert(wv =~= normal);
        },
        FontWeightOption::Bold => {
            assert(wv =~= seq!['b', 'o', 'l', 'd']);
        },
        FontWeightOption::Light => {
            assert(wv =~= light);
        },
        FontWeightOption::Ultralight => {
            assert(wv =~= seq!['u', 'l', 't', 'r', 'a', 'l', 'i', 'g', 'h', 't']);
        },
        FontWeightOption::Heavy => {
            assert(wv =~= seq!['h', 'e', 'a', 'v', 'y']);
            lemma_first_letter_differs(wv, light);
        },
        FontWeightOption::Ultrabold => {
            assert(wv =~= seq!['u', 'l', 't', 'r', 'a', 'b', 'o', 'l', 'd']);
        },
        FontWeightOption::Custom => {},
    }
    if weight != FontWeightOption::Custom {
        assert(trim_seq(wv) == wv);
    }
    let bv = board_mode_value(board);
    match board {
        BoardModeOption::Transparent => {
            assert(bv =~= seq!['t', 'r', 'a', 'n', 's', 'p', 'a', 'r', 'e', 'n', 't']);
        },
        BoardModeOption::Whiteboard => {
            assert(bv =~= seq!['w', 'h', 'i', 't', 'e', 'b', 'o', 'a', 'r', 'd']);
        },
        BoardModeOption::Blackboard => {
            assert(bv =~= seq!['b', 'l', 'a', 'c', 'k', 'b', 'o', 'a', 'r', 'd']);
            assert(bv[0] != seq!['w', 'h', 'i', 't', 'e', 'b', 'o', 'a', 'r', 'd'][0]);
        },
    }
}

/// Where session snapshots are stored.
#[derive(Debug, Clone, Copy, PartialEq, Eq, Structural)]
pub enum SessionStorageModeOption {
    Auto,
    Config,
    Custom,
}

/// The storage mode an option selects.
pub open spec fn storage_mode_of(o: SessionStorageModeOption) -> SessionStorageMode {
    match o {
        SessionStorageModeOption::Auto => SessionStorageMode::Auto,
        SessionStorageModeOption::Config => SessionStorageMode::Config,
        SessionStorageModeOption::Custom => SessionStorageMode::Custom,
    }
}

impl SessionStorageModeOption {
    /// The storage mode this option selects.
    pub fn to_mode(&self) -> (m: SessionStorageMode)
        ensures
            m == storage_mode_of(*self),
    {
        match self {
            SessionStorageModeOption::Auto => SessionStorageMode::Auto,
            SessionStorageModeOption::Config => SessionStorageMode::Config,
            SessionStorageModeOption::Custom => SessionStorageMode::Custom,
        }
    }

    /// The option showing a storage mode.
    pub fn from_mode(mode: SessionStorageMode) -> (o: Self)
        ensures
            storage_mode_of(o) == mode,
    {
        match mode {
            SessionStorageMode::Auto => SessionStorageModeOption::Auto,
            SessionStorageMode::Config => SessionStorageModeOption::Config,
            SessionStorageMode::Custom => SessionStorageModeOption::Custom,
        }
    }
}

/// Whether session snapshots are compressed.
#[derive(Debug, Clone, Copy, PartialEq, Eq, Structural)]
pub enum SessionCompressionOption {
    Auto,
    On,
    Off,
}

/// The compression setting an option selects.
pub open spec fn compression_of(o: SessionCompressionOption) -> SessionCompression {
    match o {
        SessionCompressionOption::Auto => SessionCompression::Auto,
        SessionCompressionOption::On => SessionCompression::On,
        SessionCompressionOption::Off => SessionCompression::Off,
    }
}

impl SessionCompressionOption {
    /// The compression setting this option selects.
    pub fn to_compression(&self) -> (c: SessionCompression)
        ensures
            c == compression_of(*self),
    {
        match self {
            SessionCompressionOption::Auto => SessionCompression::Auto,
            SessionCompressionOption::On => SessionCompression::On,
            SessionCompressionOption::Off => SessionCompression::Off,
        }
    }

    /// The option showing a compression setting.
    pub fn from_compression(c: SessionCompression) -> (o: Self)
        ensures
            compression_of(o) == c,
    {
        match c {
            SessionCompression::Auto => SessionCompressionOption::Auto,
            SessionCompression::On => SessionCompressionOption::On,
            SessionCompression::Off => SessionCompressionOption::Off,
        }
    }
}

/// Boolean settings of the editor.
#[derive(Debug, Clone, Copy, PartialEq, Eq, Structural)]
pub enum ToggleField {
    DrawingTextBackground,
    PerformanceVsync,
    UiShowStatusBar,
    BoardEnabled,
    BoardAutoAdjust,
    CaptureEnabled,
    CaptureCopyToClipboard,
    SessionPersistTransparent,
    SessionPersistWhiteboard,
    SessionPersistBlackboard,
    SessionRestoreToolState,
    SessionPerOutput,
}

/// Free-text settings of the editor.
#[derive(Debug, Clone, Copy, PartialEq, Eq, Structural)]
pub enum TextField {
    DrawingColorName,
    DrawingThickness,
    DrawingFontSize,
    DrawingFontFamily,
    DrawingFontWeight,
    DrawingFontStyle,
    ArrowLength,
    ArrowAngle,
    StatusFontSize,
    StatusPadding,
    StatusDotRadius,
    HelpFontSize,
    HelpLineHeight,
    HelpPadding,
    HelpBorderWidth,
    CaptureSaveDirectory,
    CaptureFilename,
    CaptureFormat,
    SessionCustomDirectory,
    SessionMaxShapesPerFrame,
    SessionMaxFileSizeMb,
    SessionAutoCompressThresholdKb,
    SessionBackupRetention,
}

/// Three-component colour settings of the editor.
#[derive(Debug, Clone, Copy, PartialEq, Eq, Structural)]
pub enum TripletField {
    DrawingColorRgb,
    BoardWhiteboard,
    BoardBlackboard,
    BoardWhiteboardPen,
    BoardBlackboardPen,
}

/// Four-component colour settings of the editor.
#[derive(Debug, Clone, Copy, PartialEq, Eq, Structural)]
pub enum QuadField {
    StatusBarBg,
    StatusBarText,
    HelpBg,
    HelpBorder,
    HelpText,
}

} // verus!
