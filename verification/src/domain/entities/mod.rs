//! The entities of the domain.

pub mod playlist;
pub mod song;

pub use playlist::Playlist;
pub use song::Song;
