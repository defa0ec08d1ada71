//! The playback engine: what plays, where in the song, and in which mode.

pub mod playback_engine;

pub use playback_engine::{PlaybackEngine, RepeatMode, Span};
