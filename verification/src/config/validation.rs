//! Validation of user-supplied configuration values.
//!
//! Each check mirrors one rule of the configuration validator: values out of
//! range are clamped, unknown names fall back to a default.
use vstd::prelude::*;
use vstd::string::*;

use crate::config::keybindings::{KeybindingsConfig, build_spec, is_default_keybindings};
use crate::config::types::{SessionConfig, SessionStorageMode};
use crate::input::board_mode::{BoardMode, board_mode_named};
use crate::text::{
    chars_eq_lower_word, eq_lower_word, parse_unsigned, parse_unsigned_spec, str_chars,
    trim_chars, trim_seq,
};

verus! {

pub open spec fn clamp_int(v: int, lo: int, hi: int) -> int {
    if v < lo {
        lo
    } else if v > hi {
        hi
    } else {
        v
    }
}

/// The named font weights accepted by the renderer.
pub open spec fn named_weight(s: Seq<char>) -> bool {
    ||| eq_lower_word(s, seq!['n', 'o', 'r', 'm', 'a', 'l'])
    ||| eq_lower_word(s, seq!['b', 'o', 'l', 'd'])
    ||| eq_lower_word(s, seq!['l', 'i', 'g', 'h', 't'])
    ||| eq_lower_word(s, seq!['u', 'l', 't', 'r', 'a', 'l', 'i', 'g', 'h', 't'])
    ||| eq_lower_word(s, seq!['h', 'e', 'a', 'v', 'y'])
    ||| eq_lower_word(s, seq!['u', 'l', 't', 'r', 'a', 'b', 'o', 'l', 'd'])
}

/// A font weight is a known name or a number from 100 to 900.
pub open spec fn valid_font_weight(s: Seq<char>) -> bool {
    ||| named_weight(s)
    ||| (parse_unsigned_spec(s, u32::MAX as nat) is Ok && 100 <= parse_unsigned_spec(
        s,
        u32::MAX as nat,
    )->Ok_0 <= 900)
}

/// A font style is normal, italic or oblique (any case).
pub open spec fn valid_font_style(s: Seq<char>) -> bool {
    ||| eq_lower_word(s, seq!['n', 'o', 'r', 'm', 'a', 'l'])
    ||| eq_lower_word(s, seq!['i', 't', 'a', 'l', 'i', 'c'])
    ||| eq_lower_word(s, seq!['o', 'b', 'l', 'i', 'q', 'u', 'e'])
}

/// Law: the font weights kept are exactly the names normal, bold, light,
/// ultralight, heavy and ultrabold in any case, and the numbers from 100 to
/// 900; every other weight is replaced (by "bold", see
/// `validated_font_weight`).
pub proof fn law_font_weights_kept(w: Seq<char>)
    ensures
        valid_font_weight(w) <==> {
            ||| eq_lower_word(w, seq!['n', 'o', 'r', 'm', 'a', 'l'])
            ||| eq_lower_word(w, seq!['b', 'o', 'l', 'd'])
            ||| eq_lower_word(w, seq!['l', 'i', 'g', 'h', 't'])
            ||| eq_lower_word(w, seq!['u', 'l', 't', 'r', 'a', 'l', 'i', 'g', 'h', 't'])
            ||| eq_lower_word(w, seq!['h', 'e', 'a', 'v', 'y'])
            ||| eq_lower_word(w, seq!['u', 'l', 't', 'r', 'a', 'b', 'o', 'l', 'd'])
            ||| (parse_unsigned_spec(w, u32::MAX as nat) matches Ok(n) && 100 <= n <= 900)
        },
{
}

/// Law: the font styles kept are exactly normal, italic and oblique in any
/// case; every other style is replaced (by "normal").
pub proof fn law_font_styles_kept(st: Seq<char>)
    ensures
        valid_font_style(st) <==> {
            ||| eq_lower_word(st, seq!['n', 'o', 'r', 'm', 'a', 'l'])
            ||| eq_lower_word(st, seq!['i', 't', 'a', 'l', 'i', 'c'])
            ||| eq_lower_word(st, seq!['o', 'b', 'l', 'i', 'q', 'u', 'e'])
        },
{
}

/// Buffer count clamped to 2 - 4.
pub fn clamp_buffer_count(n: u32) -> (r: u32)
    ensures
        r == clamp_int(n as int, 2, 4),
{
    if n < 2 {
        2
    } else if n > 4 {
        4
    } else {
        n
    }
}

/// Click highlight duration clamped to 150 - 1500 ms.
pub fn clamp_highlight_duration_ms(n: u64) -> (r: u64)
    ensures
        r == clamp_int(n as int, 150, 1500),
{
    if n < 150 {
        150
    } else if n > 1500 {
        1500
    } else {
        n
    }
}

/// Whether `weight` is a known weight name or a number from 100 to 900.
pub fn is_valid_font_weight(weight: &str) -> (b: bool)
    ensures
        b == valid_font_weight(weight@),
{
    let s = str_chars(weight);
    let names = [
        vec!['n', 'o', 'r', 'm', 'a', 'l'],
        vec!['b', 'o', 'l', 'd'],
        vec!['l', 'i', 'g', 'h', 't'],
        vec!['u', 'l', 't', 'r', 'a', 'l', 'i', 'g', 'h', 't'],
        vec!['h', 'e', 'a', 'v', 'y'],
        vec!['u', 'l', 't', 'r', 'a', 'b', 'o', 'l', 'd'],
    ];
    proof {
        assert(names[0]@ == seq!['n', 'o', 'r', 'm', 'a', 'l']);
        assert(names[1]@ == seq!['b', 'o', 'l', 'd']);
        assert(names[2]@ == seq!['l', 'i', 'g', 'h', 't']);
        assert(names[3]@ == seq!['u', 'l', 't', 'r', 'a', 'l', 'i', 'g', 'h', 't']);
        assert(names[4]@ == seq!['h', 'e', 'a', 'v', 'y']);
        assert(names[5]@ == seq!['u', 'l', 't', 'r', 'a', 'b', 'o', 'l', 'd']);
    }
    let named = chars_eq_lower_word(&s, &names[0]) || chars_eq_lower_word(&s, &names[1])
        || chars_eq_lower_word(&s, &names[2]) || chars_eq_lower_word(&s, &names[3])
        || chars_eq_lower_word(&s, &names[4]) || chars_eq_lower_word(&s, &names[5]);
    if named {
        return true;
    }
    match parse_unsigned(&s, u32::MAX as u64) {
        Ok(w) => 100 <= w && w <= 900,
        Err(_) => false,
    }
}

/// The font weight to use: `weight` when valid, otherwise "bold".
pub fn validated_font_weight(weight: String) -> (r: String)
    ensures
        r@ == (if valid_font_weight(weight@) {
            weight@
        } else {
            "bold"@
        }),
{
    if is_valid_font_weight(weight.as_str()) {
        weight
    } else {
        String::from_str("bold")
    }
}

/// Whether `style` is normal, italic or oblique (any case).
pub fn is_valid_font_style(style: &str) -> (b: bool)
    ensures
        b == valid_font_style(style@),
{
    let s = str_chars(style);
    let normal = vec!['n', 'o', 'r', 'm', 'a', 'l'];
    let italic = vec!['i', 't', 'a', 'l', 'i', 'c'];
    let oblique = vec!['o', 'b', 'l', 'i', 'q', 'u', 'e'];
    proof {
        assert(normal@ == seq!['n', 'o', 'r', 'm', 'a', 'l']);
        assert(italic@ == seq!['i', 't', 'a', 'l', 'i', 'c']);
        assert(oblique@ == seq!['o', 'b', 'l', 'i', 'q', 'u', 'e']);
    }
    chars_eq_lower_word(&s, &normal) || chars_eq_lower_word(&s, &italic) || chars_eq_lower_word(
        &s,
        &oblique,
    )
}

/// The font style to use: `style` when valid, otherwise "normal".
pub fn validated_font_style(style: String) -> (r: String)
    ensures
        r@ == (if valid_font_style(style@) {
            style@
        } else {
            "normal"@
        }),
{
    if is_valid_font_style(style.as_str()) {
        style
    } else {
        String::from_str("normal")
    }
}

/// The board mode name to use: `mode` when it names a mode, otherwise "transparent".
pub fn validated_board_mode(mode: String) -> (r: String)
    ensures
        r@ == (if board_mode_named(mode@) is Some {
            mode@
        } else {
            "transparent"@
        }),
{
    if BoardMode::from_str(mode.as_str()).is_some() {
        mode
    } else {
        String::from_str("transparent")
    }
}

/// The keybindings to use: the configured ones when they build an action
/// map, otherwise the defaults.
pub fn validate_keybindings(k: &mut KeybindingsConfig)
    ensures
        build_spec(*old(k)) is Ok ==> *final(k) == *old(k),
        build_spec(*old(k)) is Err ==> is_default_keybindings(*final(k)),
{
    match k.build_action_map() {
        Ok(_) => {},
        Err(_) => {
            *k = KeybindingsConfig::default();
        },
    }
}

/// The session settings after validation: positive limits, file size at
/// most 1024 MB, and `Custom` storage only with a non-blank directory.
pub open spec fn validated_session(s: SessionConfig) -> SessionConfig {
    let custom_ok = match s.custom_directory {
        Some(d) => trim_seq(d@).len() > 0,
        None => false,
    };
    let fallback = s.storage == SessionStorageMode::Custom && !custom_ok;
    SessionConfig {
        max_shapes_per_frame: if s.max_shapes_per_frame == 0 {
            1
        } else {
            s.max_shapes_per_frame
        },
        max_file_size_mb: if s.max_file_size_mb == 0 {
            1
        } else if s.max_file_size_mb > 1024 {
            1024
        } else {
            s.max_file_size_mb
        },
        auto_compress_threshold_kb: if s.auto_compress_threshold_kb == 0 {
            1
        } else {
            s.auto_compress_threshold_kb
        },
        storage: if fallback {
            SessionStorageMode::Auto
        } else {
            s.storage
        },
        custom_directory: if fallback {
            None
        } else {
            s.custom_directory
        },
        ..s
    }
}

/// Validates the session settings in place.
pub fn validate_session(s: &mut SessionConfig)
    ensures
        *final(s) == validated_session(*old(s)),
{
    if s.max_shapes_per_frame == 0 {
        s.max_shapes_per_frame = 1;
    }
    if s.max_file_size_mb == 0 {
        s.max_file_size_mb = 1;
    } else if s.max_file_size_mb > 1024 {
        s.max_file_size_mb = 1024;
    }
    if s.auto_compress_threshold_kb == 0 {
        s.auto_compress_threshold_kb = 1;
    }
    if s.storage == SessionStorageMode::Custom {
        let custom_ok = match &s.custom_directory {
            Some(d) => {
                let chars = str_chars(d.as_str());
                trim_chars(&chars).len() > 0
            },
            None => false,
        };
        if !custom_ok {
            s.storage = SessionStorageMode::Auto;
            s.custom_directory = None;
        }
    }
}

/// Law: validation is idempotent; validating validated session settings
/// changes nothing.
pub proof fn law_session_validation_idempotent(s: SessionConfig)
    ensures
        validated_session(validated_session(s)) == validated_session(s),
{
}

/// Law: validation changes only what is out of range. A positive shape
/// limit, a file size from 1 to 1024 MB, a positive compression threshold
/// and `Custom` storage with a non-blank directory are kept as they are; a
/// zero limit becomes 1, a file size above 1024 MB becomes 1024, and
/// `Custom` storage without a usable directory falls back to `Auto` with no
/// directory. Every other setting is left alone.
pub proof fn law_session_validation_changes_only_bad_values(s: SessionConfig)
    ensures
        validated_session(s).max_shapes_per_frame == (if s.max_shapes_per_frame == 0 {
            1
        } else {
            s.max_shapes_per_frame
        }),
        validated_session(s).max_file_size_mb == (if s.max_file_size_mb == 0 {
            1
        } else if s.max_file_size_mb > 1024 {
            1024
        } else {
            s.max_file_size_mb
        }),
        validated_session(s).auto_compress_threshold_kb == (if s.auto_compress_threshold_kb == 0 {
            1
        } else {
            s.auto_compress_threshold_kb
        }),
        s.storage != SessionStorageMode::Custom ==> validated_session(s).storage == s.storage
            && validated_session(s).custom_directory == s.custom_directory,
        (s.storage == SessionStorageMode::Custom && (s.custom_directory matches Some(d) && trim_seq(d@).len() > 0))
            ==> validated_session(s).storage == SessionStorageMode::Custom && validated_session(s).custom_directory
            == s.custom_directory,
        (s.storage == SessionStorageMode::Custom && !(s.custom_directory matches Some(d) && trim_seq(d@).len() > 0))
            ==> validated_session(s).storage == SessionStorageMode::Auto && validated_session(s).custom_directory
            is None,
        validated_session(s).persist_transparent == s.persist_transparent,
        validated_session(s).persist_whiteboard == s.persist_whiteboard,
        validated_session(s).persist_blackboard == s.persist_blackboard,
        validated_session(s).restore_tool_state == s.restore_tool_state,
        validated_session(s).compress == s.compress,
        validated_session(s).backup_retention == s.backup_retention,
        validated_session(s).per_output == s.per_output,
{
}

/// Law: validated session settings are within the accepted ranges.
pub proof fn law_session_validated_in_range(s: SessionConfig)
    ensures
        validated_session(s).max_shapes_per_frame >= 1,
        1 <= validated_session(s).max_file_size_mb <= 1024,
        validated_session(s).auto_compress_threshold_kb >= 1,
        validated_session(s).storage == SessionStorageMode::Custom ==> (validated_session(
            s,
        ).custom_directory matches Some(d) && trim_seq(d@).len() > 0),
{
}

} // verus!
