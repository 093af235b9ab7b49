//! Configuration types, keybindings and validation.
pub mod enums;
pub mod keybindings;
pub mod source;
pub mod types;
pub mod validation;
