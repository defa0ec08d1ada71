//! A song of the music library.

use crate::ids::{md5_hex, md5_hex_of};
use crate::text::{clock, clock_text, joined};
use vstd::prelude::*;

verus! {

#[derive(Debug, PartialEq, Eq)]
pub struct Song {
    /// MD5 digest of the file path.
    pub id: String,
    /// Full path to the audio file.
    pub path: String,
    pub title: String,
    pub artist: String,
    pub album: String,
    /// Duration in seconds.
    pub duration: u64,
}

impl Song {
    /// The name a song is listed under: its title, followed by the artist
    /// where one is known.
    pub open spec fn listed_name(self) -> Seq<char> {
        if self.artist@.len() == 0 {
            self.title@
        } else {
            self.title@ + " - "@ + self.artist@
        }
    }

    /// A song whose identifier is the digest of its path.
    pub fn new(path: String, title: String, artist: String, album: String, duration: u64) -> (song:
        Self)
        ensures
            song.id@ == md5_hex(path@),
            song.path == path,
            song.title == title,
            song.artist == artist,
            song.album == album,
            song.duration == duration,
    {
        let id = md5_hex_of(path.as_str());
        Song { id, path, title, artist, album, duration }
    }

    /// The duration as minutes and seconds, `MM:SS`.
    pub fn duration_formatted(&self) -> (text: String)
        ensures
            text@ == clock(self.duration as nat),
    {
        clock_text(self.duration)
    }

    /// The name the song is listed under.
    pub fn display_name(&self) -> (name: String)
        ensures
            name@ == self.listed_name(),
    {
        if self.artist.as_str().is_empty() {
            self.title.clone()
        } else {
            let mut name = joined(self.title.as_str(), " - ");
            name.append(self.artist.as_str());
            name
        }
    }
}

impl Clone for Song {
    fn clone(&self) -> (copy: Self)
        ensures
            copy == *self,
    {
        Song {
            id: self.id.clone(),
            path: self.path.clone(),
            title: self.title.clone(),
            artist: self.artist.clone(),
            album: self.album.clone(),
            duration: self.duration,
        }
    }
}

} // verus!
