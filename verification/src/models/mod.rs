//! The player's plain data: songs, playlists, playback state and sequencing.

pub mod playback;
pub mod playlist;
pub mod song;

pub use playback::{PlaybackState, RepeatMode};
pub use playlist::{Playlist, PlaylistBuilder};
pub use song::Song;
