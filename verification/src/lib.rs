//! Playback sequencing, session state and library model of a terminal music player.

pub mod application;
pub mod art;
pub mod audio;
pub mod cli;
pub mod collections;
pub mod commands;
pub mod config;
pub mod domain;
pub mod error;
pub mod ids;
pub mod library;
pub mod models;
pub mod player;
pub mod services;
pub mod shared;
pub mod stamp;
pub mod text;
pub mod ui;

pub use config::LayoutConfig;
pub use error::LofiTurtleError;
pub use ui::{ThemeManager, Themes};
