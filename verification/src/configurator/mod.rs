//! Models of the configuration editor: option lists, fields and drafts.
pub mod app_state;
pub mod convert;
pub mod draft;
pub mod error;
pub mod fields;
pub mod keybindings;
pub mod parse;
pub mod tab;
