//! Data transfer objects: entities as plain text and numbers.

use crate::domain::entities::playlist::Playlist;
use crate::domain::entities::song::Song;
use vstd::prelude::*;

verus! {

/// A song as plain data.
#[derive(Debug, Clone, PartialEq, Eq)]
pub struct SongDto {
    pub id: String,
    pub file_path: String,
    pub title: String,
    pub artist: String,
    pub album: String,
    pub duration_seconds: u64,
}

impl SongDto {
    /// The song as plain data, with the stand-ins for an artist or album
    /// that is not recorded.
    pub fn from_song(song: Song) -> (dto: Self)
        ensures
            dto.id@ == song@.id,
            dto.file_path@ == song@.file_path,
            dto.title@ == song@.title,
            dto.artist@ == song@.shown_artist(),
            dto.album@ == song@.shown_album(),
            dto.duration_seconds == song@.duration,
    {
        SongDto {
            id: song.id().as_str().to_string(),
            file_path: song.file_path().as_str().to_string(),
            title: song.title().to_string(),
            artist: song.artist().to_string(),
            album: song.album().to_string(),
            duration_seconds: song.duration().total_seconds(),
        }
    }
}

/// A playlist as plain data, its times as RFC 3339 text.
#[derive(Debug, Clone, PartialEq, Eq)]
pub struct PlaylistDto {
    pub id: String,
    pub name: String,
    pub description: Option<String>,
    pub created_at: String,
    pub updated_at: String,
}

impl PlaylistDto {
    /// The playlist as plain data.
    pub fn from_playlist(playlist: Playlist) -> (dto: Self)
        ensures
            dto.id@ == playlist@.id,
            dto.name@ == playlist@.name,
            match dto.description {
                Some(d) => playlist@.description == Some(d@),
                None => playlist@.description is None,
            },
            dto.created_at@ == playlist@.created_at.rfc3339(),
            dto.updated_at@ == playlist@.updated_at.rfc3339(),
    {
        PlaylistDto {
            id: playlist.id().as_str().to_string(),
            name: playlist.name().to_string(),
            description: match playlist.description() {
                Some(d) => Some(d.to_string()),
                None => None,
            },
            created_at: playlist.created_at().to_rfc3339(),
            updated_at: playlist.updated_at().to_rfc3339(),
        }
    }
}

/// A playlist with its songs.
#[derive(Debug, Clone, PartialEq, Eq)]
pub struct PlaylistWithSongsDto {
    pub playlist: PlaylistDto,
    pub songs: Vec<SongDto>,
}

/// The songs found for a query.
#[derive(Debug, Clone, PartialEq, Eq)]
pub struct SearchResultDto {
    pub songs: Vec<SongDto>,
    pub total_count: usize,
    pub query: String,
}

/// Figures of the library.
#[derive(Debug, Clone, Copy, PartialEq, Eq, Structural)]
pub struct LibraryStatsDto {
    pub total_songs: usize,
    pub total_playlists: usize,
    pub total_duration_seconds: u64,
    pub unique_artists: usize,
    pub unique_albums: usize,
}

} // verus!
