//! The `list` subcommand.

use crate::commands::{mentions, referred_songs, text_mentions};
use crate::models::song::Song;
use crate::text::{decimal, decimal_text, joined, lowercase};
use vstd::prelude::*;

verus! {

/// Lists the songs in the database, all of them or those of an artist or
/// an album.
pub struct ListCommand {
    pub artist_filter: Option<String>,
    pub album_filter: Option<String>,
}

impl ListCommand {
    /// Whether the command lists `song`: its artist holds the artist filter
    /// and its album holds the album filter, where these are set, each read
    /// without regard to case.
    pub open spec fn admits(self, song: Song) -> bool {
        &&& self.artist_filter matches Some(artist) ==> mentions(song.artist@, lowercase(artist@))
        &&& self.album_filter matches Some(album) ==> mentions(song.album@, lowercase(album@))
    }

    /// The command with the given filters.
    pub fn new(artist_filter: Option<String>, album_filter: Option<String>) -> (command: Self)
        ensures
            command.artist_filter == artist_filter,
            command.album_filter == album_filter,
    {
        ListCommand { artist_filter, album_filter }
    }

    /// What the command does, in a few words.
    pub fn description(&self) -> (text: &'static str)
        ensures
            text@ == "List all songs in the database with optional filtering"@,
    {
        "List all songs in the database with optional filtering"
    }

    /// Whether the command lists `song`.
    pub fn lists(&self, song: &Song) -> (listed: bool)
        ensures
            listed == self.admits(*song),
    {
        if let Some(artist) = &self.artist_filter {
            let wanted = artist.as_str().to_lowercase();
            if !text_mentions(song.artist.as_str(), wanted.as_str()) {
                return false;
            }
        }
        if let Some(album) = &self.album_filter {
            let wanted = album.as_str().to_lowercase();
            if !text_mentions(song.album.as_str(), wanted.as_str()) {
                return false;
            }
        }
        true
    }

    /// The songs among `songs` that the command lists, in order.
    pub fn select<'a>(&self, songs: &'a Vec<Song>) -> (found: Vec<&'a Song>)
        ensures
            referred_songs(found@) == songs@.filter(|s: Song| self.admits(s)),
    {
        let mut found: Vec<&Song> = Vec::new();
        let ghost admitted = |s: Song| self.admits(s);
        let mut i: usize = 0;
        assert(songs@.take(0).filter(admitted) =~= Seq::empty());
        while i < songs.len()
            invariant
                i <= songs.len(),
                admitted == |s: Song| self.admits(s),
                referred_songs(found@) == songs@.take(i as int).filter(admitted),
            decreases songs.len() - i,
        {
            let ghost next = songs@.take(i + 1);
            assert(next.drop_last() =~= songs@.take(i as int));
            assert(next.last() == songs@[i as int]);
            reveal_with_fuel(Seq::filter, 2);
            if self.lists(&songs[i]) {
                found.push(&songs[i]);
                assert(referred_songs(found@) =~= next.filter(admitted));
            }
            i += 1;
        }
        assert(songs@.take(songs.len() as int) =~= songs@);
        found
    }

    /// The line above a listing of `count` songs, or the line that says
    /// that there is none.
    pub fn heading(&self, count: usize) -> (line: String)
        ensures
            line@ == if count == 0 {
                "No songs found matching the criteria."@
            } else {
                "Found "@ + decimal(count as nat) + " songs:"@
            },
    {
        if count == 0 {
            "No songs found matching the criteria.".to_string()
        } else {
            let number = decimal_text(count as u64);
            let mut line = joined("Found ", number.as_str());
            line.append(" songs:");
            line
        }
    }
}

} // verus!
