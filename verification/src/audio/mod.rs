//! The audio control threads and their command channels, as state machines
//! that say what the owner of the audio sink has to do.

pub mod gapless_player;
pub mod player;

pub use gapless_player::{GaplessPlayer, PlayerEvent, PlayerStatus, SinkOrder};
pub use player::{AudioPlayer, AudioThread, PlaybackStatus, PlayerCommand, PlayerState, SinkAction};
