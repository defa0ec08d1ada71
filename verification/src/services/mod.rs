//! Services of the program: what the terminal interface makes of a key.

pub mod tui_service;

pub use tui_service::{KeyCode, UiCommand};
