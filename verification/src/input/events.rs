//! Generic input event types for cross-backend compatibility.
use vstd::prelude::*;
use vstd::string::*;

verus! {

/// Generic key representation for cross-backend compatibility.
///
/// Backend implementations map their native key codes to these generic
/// key values for unified input handling.
#[derive(Debug, Clone, Copy, PartialEq, Eq, Structural)]
pub enum Key {
    /// Regular character key (a-z, 0-9, symbols)
    Char(char),
    /// Escape key
    Escape,
    /// Return/Enter key
    Return,
    /// Backspace key
    Backspace,
    /// Tab key
    Tab,
    /// Space bar
    Space,
    /// Shift modifier
    Shift,
    /// Ctrl modifier
    Ctrl,
    /// Alt modifier
    Alt,
    /// F10 function key (toggle help)
    F10,
    /// F11 function key (open configurator)
    F11,
    /// F12 function key (toggle status bar)
    F12,
    /// Unmapped or unrecognized key
    Unknown,
}

/// Mouse button identification.
#[derive(Debug, Clone, Copy, PartialEq, Eq, Structural)]
pub enum MouseButton {
    /// Left mouse button (primary drawing button)
    Left,
    /// Right mouse button (cancel action)
    Right,
    /// Middle mouse button (currently unused)
    Middle,
}

/// The name a key is looked up under in the keybindings, if it has one:
/// the character itself for character keys, the key's name for the named
/// keys, none for modifiers, Tab and unknown keys.
pub open spec fn key_name(k: Key) -> Option<Seq<char>> {
    match k {
        Key::Char(c) => Some(seq![c]),
        Key::Escape => Some("Escape"@),
        Key::Return => Some("Return"@),
        Key::Backspace => Some("Backspace"@),
        Key::Space => Some("Space"@),
        Key::F10 => Some("F10"@),
        Key::F11 => Some("F11"@),
        Key::F12 => Some("F12"@),
        _ => None,
    }
}

impl Key {
    /// The name the key is looked up under in the keybindings.
    pub fn lookup_name(&self) -> (r: Option<String>)
        ensures
            match r {
                Some(s) => key_name(*self) == Some(s@),
                None => key_name(*self) is None,
            },
    {
        match self {
            Key::Char(c) => {
                let v = vec![*c];
                let s = crate::text::chars_to_string(&v);
                proof {
                    assert(v@ =~= seq![*c]);
                }
                Some(s)
            },
            Key::Escape => Some(String::from_str("Escape")),
            Key::Return => Some(String::from_str("Return")),
            Key::Backspace => Some(String::from_str("Backspace")),
            Key::Space => Some(String::from_str("Space")),
            Key::F10 => Some(String::from_str("F10")),
            Key::F11 => Some(String::from_str("F11")),
            Key::F12 => Some(String::from_str("F12")),
            _ => None,
        }
    }
}

} // verus!
