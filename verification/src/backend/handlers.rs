//! Mapping of compositor input codes to the overlay's own events.
use vstd::prelude::*;

use crate::input::events::{Key, MouseButton};

verus! {

/// XKB keysym of the Escape key.
pub const KEYSYM_ESCAPE: u32 = 0xff1b;
/// XKB keysym of the Return key.
pub const KEYSYM_RETURN: u32 = 0xff0d;
/// XKB keysym of the BackSpace key.
pub const KEYSYM_BACKSPACE: u32 = 0xff08;
/// XKB keysym of the Tab key.
pub const KEYSYM_TAB: u32 = 0xff09;
/// XKB keysym of the space bar.
pub const KEYSYM_SPACE: u32 = 0x0020;
/// XKB keysym of the left Shift key.
pub const KEYSYM_SHIFT_L: u32 = 0xffe1;
/// XKB keysym of the right Shift key.
pub const KEYSYM_SHIFT_R: u32 = 0xffe2;
/// XKB keysym of the left Control key.
pub const KEYSYM_CONTROL_L: u32 = 0xffe3;
/// XKB keysym of the right Control key.
pub const KEYSYM_CONTROL_R: u32 = 0xffe4;
/// XKB keysym of the left Alt key.
pub const KEYSYM_ALT_L: u32 = 0xffe9;
/// XKB keysym of the right Alt key.
pub const KEYSYM_ALT_R: u32 = 0xffea;
/// XKB keysym of the F10 key.
pub const KEYSYM_F10: u32 = 0xffc7;
/// XKB keysym of the F11 key.
pub const KEYSYM_F11: u32 = 0xffc8;

/// The key for an XKB keysym: the named keys, then every printable ASCII
/// keysym as its character, anything else unknown.
pub open spec fn key_for_keysym_spec(raw: u32) -> Key {
    if raw == KEYSYM_ESCAPE {
        Key::Escape
    } else if raw == KEYSYM_RETURN {
        Key::Return
    } else if raw == KEYSYM_BACKSPACE {
        Key::Backspace
    } else if raw == KEYSYM_TAB {
        Key::Tab
    } else if raw == KEYSYM_SPACE {
        Key::Space
    } else if raw == KEYSYM_SHIFT_L || raw == KEYSYM_SHIFT_R {
        Key::Shift
    } else if raw == KEYSYM_CONTROL_L || raw == KEYSYM_CONTROL_R {
        Key::Ctrl
    } else if raw == KEYSYM_ALT_L || raw == KEYSYM_ALT_R {
        Key::Alt
    } else if raw == KEYSYM_F10 {
        Key::F10
    } else if raw == KEYSYM_F11 {
        Key::F11
    } else if 0x20 <= raw && raw <= 0x7e {
        Key::Char(raw as char)
    } else {
        Key::Unknown
    }
}

/// Maps an XKB keysym to the overlay's key.
pub fn key_for_keysym(raw: u32) -> (k: Key)
    ensures
        k == key_for_keysym_spec(raw),
{
    if raw == KEYSYM_ESCAPE {
        Key::Escape
    } else if raw == KEYSYM_RETURN {
        Key::Return
    } else if raw == KEYSYM_BACKSPACE {
        Key::Backspace
    } else if raw == KEYSYM_TAB {
        Key::Tab
    } else if raw == KEYSYM_SPACE {
        Key::Space
    } else if raw == KEYSYM_SHIFT_L || raw == KEYSYM_SHIFT_R {
        Key::Shift
    } else if raw == KEYSYM_CONTROL_L || raw == KEYSYM_CONTROL_R {
        Key::Ctrl
    } else if raw == KEYSYM_ALT_L || raw == KEYSYM_ALT_R {
        Key::Alt
    } else if raw == KEYSYM_F10 {
        Key::F10
    } else if raw == KEYSYM_F11 {
        Key::F11
    } else if 0x20 <= raw && raw <= 0x7e {
        let b: u8 = raw as u8;
        Key::Char(b as char)
    } else {
        Key::Unknown
    }
}

/// Law: a printable ASCII keysym other than the space bar gives the key of
/// its own character; the space bar, Escape, Return, BackSpace, Tab, F10,
/// F11 and both keys of Shift, Control and Alt give their named keys; a
/// keysym below the printable range gives no key.
pub proof fn law_keysyms_give_their_keys(raw: u32)
    ensures
        0x21 <= raw <= 0x7e ==> key_for_keysym_spec(raw) == Key::Char(raw as char),
        raw < 0x20 ==> key_for_keysym_spec(raw) == Key::Unknown,
        key_for_keysym_spec(0x0020) == Key::Space,
        key_for_keysym_spec(0xff1b) == Key::Escape,
        key_for_keysym_spec(0xff0d) == Key::Return,
        key_for_keysym_spec(0xff08) == Key::Backspace,
        key_for_keysym_spec(0xff09) == Key::Tab,
        key_for_keysym_spec(0xffe1) == Key::Shift && key_for_keysym_spec(0xffe2) == Key::Shift,
        key_for_keysym_spec(0xffe3) == Key::Ctrl && key_for_keysym_spec(0xffe4) == Key::Ctrl,
        key_for_keysym_spec(0xffe9) == Key::Alt && key_for_keysym_spec(0xffea) == Key::Alt,
        key_for_keysym_spec(0xffc7) == Key::F10,
        key_for_keysym_spec(0xffc8) == Key::F11,
{
}

/// Linux input code of the left mouse button.
pub const BTN_LEFT: u32 = 0x110;
/// Linux input code of the right mouse button.
pub const BTN_RIGHT: u32 = 0x111;
/// Linux input code of the middle mouse button.
pub const BTN_MIDDLE: u32 = 0x112;

/// The mouse button for a Linux input button code; other buttons are ignored.
pub fn mouse_button_for(code: u32) -> (b: Option<MouseButton>)
    ensures
        b == (if code == BTN_LEFT {
            Some(MouseButton::Left)
        } else if code == BTN_MIDDLE {
            Some(MouseButton::Middle)
        } else if code == BTN_RIGHT {
            Some(MouseButton::Right)
        } else {
            None
        }),
{
    if code == BTN_LEFT {
        Some(MouseButton::Left)
    } else if code == BTN_MIDDLE {
        Some(MouseButton::Middle)
    } else if code == BTN_RIGHT {
        Some(MouseButton::Right)
    } else {
        None
    }
}

/// The direction of a vertical scroll: the discrete step when there is one,
/// else the sign of a continuous scroll that passed the threshold (0 when it
/// did not).
pub fn scroll_direction(discrete: i32, continuous_sign: i32) -> (d: i32)
    ensures
        d == (if discrete != 0 { discrete } else { continuous_sign }),
{
    if discrete != 0 {
        discrete
    } else {
        continuous_sign
    }
}

} // verus!
