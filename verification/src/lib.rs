//! Wayscriber: screen annotation overlay logic.
//!
//! The verified core of the annotation tool: keybinding parsing, input state
//! machine decisions, dirty-region tracking, board modes, configuration
//! validation and the capture / daemon decision logic.

pub mod backend;
pub mod capture;
pub mod config;
pub mod configurator;
pub mod daemon;
pub mod draw;
pub mod input;
pub mod paths;
pub mod text;
