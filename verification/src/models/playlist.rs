//! Playlists of the music library and their builder.

use crate::ids::{is_random_identifier, random_identifier};
use crate::stamp::{current_time, Timestamp};
use crate::text::{decimal, decimal_text, is_blank, joined, lemma_trimmed_shape};
use vstd::prelude::*;

verus! {

/// A named list of songs.
#[derive(Debug, Clone, PartialEq, Eq)]
pub struct Playlist {
    pub id: String,
    pub name: String,
    pub description: Option<String>,
    pub song_ids: Vec<String>,
    pub created_at: Timestamp,
    pub updated_at: Timestamp,
}

impl Playlist {
    /// The playlist's name with its number of songs.
    pub open spec fn listed_name(self) -> Seq<char> {
        self.name@ + " ("@ + decimal(self.song_ids@.len()) + " songs)"@
    }

    /// An empty playlist with the given identifier, created at `now`.
    pub fn with_identity(id: String, now: Timestamp, name: String, description: Option<String>) -> (
        playlist: Self
    )
        ensures
            playlist.id == id,
            playlist.name == name,
            playlist.description == description,
            playlist.song_ids@.len() == 0,
            playlist.created_at == now,
            playlist.updated_at == now,
    {
        Playlist { id, name, description, song_ids: Vec::new(), created_at: now, updated_at: now }
    }

    /// An empty playlist with a fresh random identifier, created now.
    pub fn new(name: String, description: Option<String>) -> (playlist: Self)
        ensures
            is_random_identifier(playlist.id@),
            playlist.name == name,
            playlist.description == description,
            playlist.song_ids@.len() == 0,
            playlist.created_at == playlist.updated_at,
    {
        Playlist::with_identity(random_identifier(), current_time(), name, description)
    }

    /// The number of songs in the playlist.
    pub fn song_count(&self) -> (count: usize)
        ensures
            count == self.song_ids@.len(),
    {
        self.song_ids.len()
    }

    /// The playlist's name with its number of songs.
    pub fn display_name(&self) -> (name: String)
        ensures
            name@ == self.listed_name(),
    {
        let mut name = joined(self.name.as_str(), " (");
        let count = decimal_text(self.song_count() as u64);
        name.append(count.as_str());
        name.append(" songs)");
        name
    }
}

/// Collects what a playlist is made of, then builds it.
pub struct PlaylistBuilder {
    pub name: Option<String>,
    pub description: Option<String>,
    pub song_ids: Vec<String>,
}

impl Default for PlaylistBuilder {
    fn default() -> (builder: Self)
        ensures
            builder.name is None,
            builder.description is None,
            builder.song_ids@.len() == 0,
    {
        PlaylistBuilder { name: None, description: None, song_ids: Vec::new() }
    }
}

impl PlaylistBuilder {
    /// What `build` answers for a given name: the reason why no playlist
    /// can be built, if there is one.
    pub open spec fn refusal(name: Option<String>) -> Option<Seq<char>> {
        match name {
            None => Some("Playlist name is required"@),
            Some(n) => if is_blank(n@) {
                Some("Playlist name cannot be empty"@)
            } else {
                None
            },
        }
    }

    /// A builder that holds nothing yet.
    pub fn new() -> (builder: Self)
        ensures
            builder.name is None,
            builder.description is None,
            builder.song_ids@.len() == 0,
    {
        Self::default()
    }

    /// Sets the playlist's name.
    pub fn name(self, name: &str) -> (builder: Self)
        ensures
            builder.name matches Some(n) && n@ == name@,
            builder.description == self.description,
            builder.song_ids == self.song_ids,
    {
        PlaylistBuilder {
            name: Some(name.to_string()),
            description: self.description,
            song_ids: self.song_ids,
        }
    }

    /// Sets the playlist's description.
    pub fn description(self, description: &str) -> (builder: Self)
        ensures
            builder.description matches Some(d) && d@ == description@,
            builder.name == self.name,
            builder.song_ids == self.song_ids,
    {
        PlaylistBuilder {
            name: self.name,
            description: Some(description.to_string()),
            song_ids: self.song_ids,
        }
    }

    /// Builds the playlist with the given identifier and creation time, or
    /// says why it cannot be built: a name is required and must not be
    /// blank.
    pub fn build_with_identity(self, id: String, now: Timestamp) -> (built: Result<
        Playlist,
        String,
    >)
        ensures
            match built {
                Ok(playlist) => {
                    &&& Self::refusal(self.name) is None
                    &&& playlist.id == id
                    &&& Some(playlist.name) == self.name
                    &&& playlist.description == self.description
                    &&& playlist.song_ids == self.song_ids
                    &&& playlist.created_at == now
                    &&& playlist.updated_at == now
                },
                Err(reason) => Self::refusal(self.name) == Some(reason@),
            },
    {
        match self.name {
            None => Err("Playlist name is required".to_string()),
            Some(name) => {
                proof {
                    lemma_trimmed_shape(name@);
                }
                if name.as_str().trim().is_empty() {
                    Err("Playlist name cannot be empty".to_string())
                } else {
                    Ok(
                        Playlist {
                            id,
                            name,
                            description: self.description,
                            song_ids: self.song_ids,
                            created_at: now,
                            updated_at: now,
                        },
                    )
                }
            },
        }
    }

    /// Builds the playlist with a fresh random identifier, created now, or
    /// says why it cannot be built.
    pub fn build(self) -> (built: Result<Playlist, String>)
        ensures
            match built {
                Ok(playlist) => {
                    &&& Self::refusal(self.name) is None
                    &&& is_random_identifier(playlist.id@)
                    &&& Some(playlist.name) == self.name
                    &&& playlist.description == self.description
                    &&& playlist.song_ids == self.song_ids
                    &&& playlist.created_at == playlist.updated_at
                },
                Err(reason) => Self::refusal(self.name) == Some(reason@),
            },
    {
        self.build_with_identity(random_identifier(), current_time())
    }
}

} // verus!
