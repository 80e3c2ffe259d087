//! The terminal interface: its state, its key handling and its progress events.
pub mod app;
pub mod display;
pub mod progress;
pub mod state;
pub mod workers;
