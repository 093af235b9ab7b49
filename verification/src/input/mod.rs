//! Input handling: keys, modifiers, tools, board modes and the drawing state machine.
pub mod board_mode;
pub mod events;
pub mod highlight;
pub mod modifiers;
pub mod state;
pub mod tool;
