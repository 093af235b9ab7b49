//! Overlay backend: session bookkeeping and event-loop decisions.
pub mod capture_state;
pub mod event_loop;
pub mod handlers;
pub mod session;
pub mod surface;
