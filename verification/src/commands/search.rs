//! The `search` subcommand.

use crate::commands::{mentions, referred_songs, text_mentions};
use crate::models::song::Song;
use crate::text::{decimal, decimal_text, joined, lowercase};
use vstd::prelude::*;

verus! {

/// Searches the songs in the database by title, artist or album.
pub struct SearchCommand {
    pub query: String,
}

impl SearchCommand {
    /// Whether `song` answers the query `query_lower`, given in lower case:
    /// its title, artist or album holds it, each read without regard to
    /// case.
    pub open spec fn answers(song: Song, query_lower: Seq<char>) -> bool {
        ||| mentions(song.title@, query_lower)
        ||| mentions(song.artist@, query_lower)
        ||| mentions(song.album@, query_lower)
    }

    /// The command with the given query.
    pub fn new(query: String) -> (command: Self)
        ensures
            command.query == query,
    {
        SearchCommand { query }
    }

    /// What the command does, in a few words.
    pub fn description(&self) -> (text: &'static str)
        ensures
            text@ == "Search for songs by title, artist, or album"@,
    {
        "Search for songs by title, artist, or album"
    }

    /// Whether `song` answers the query `query_lower`.
    pub fn song_answers(song: &Song, query_lower: &str) -> (found: bool)
        ensures
            found == Self::answers(*song, query_lower@),
    {
        text_mentions(song.title.as_str(), query_lower) || text_mentions(
            song.artist.as_str(),
            query_lower,
        ) || text_mentions(song.album.as_str(), query_lower)
    }

    /// The songs among `songs` that answer the query `query_lower`, in
    /// order.
    pub fn select_with<'a>(songs: &'a Vec<Song>, query_lower: &str) -> (found: Vec<&'a Song>)
        ensures
            referred_songs(found@) == songs@.filter(|s: Song| Self::answers(s, query_lower@)),
    {
        let mut found: Vec<&Song> = Vec::new();
        let ghost answering = |s: Song| Self::answers(s, query_lower@);
        let mut i: usize = 0;
        assert(songs@.take(0).filter(answering) =~= Seq::empty());
        while i < songs.len()
            invariant
                i <= songs.len(),
                answering == |s: Song| Self::answers(s, query_lower@),
                referred_songs(found@) == songs@.take(i as int).filter(answering),
            decreases songs.len() - i,
        {
            let ghost next = songs@.take(i + 1);
            assert(next.drop_last() =~= songs@.take(i as int));
            assert(next.last() == songs@[i as int]);
            reveal_with_fuel(Seq::filter, 2);
            if Self::song_answers(&songs[i], query_lower) {
                found.push(&songs[i]);
                assert(referred_songs(found@) =~= next.filter(answering));
            }
            i += 1;
        }
        assert(songs@.take(songs.len() as int) =~= songs@);
        found
    }

    /// The songs among `songs` that answer the command's query, in order.
    pub fn select<'a>(&self, songs: &'a Vec<Song>) -> (found: Vec<&'a Song>)
        ensures
            referred_songs(found@) == songs@.filter(
                |s: Song| Self::answers(s, lowercase(self.query@)),
            ),
    {
        let query_lower = self.query.as_str().to_lowercase();
        Self::select_with(songs, query_lower.as_str())
    }

    /// The line above a listing of `count` songs, or the line that says
    /// that there is none.
    pub fn heading(&self, count: usize) -> (line: String)
        ensures
            line@ == if count == 0 {
                "No songs found matching '"@ + self.query@ + "'"@
            } else {
                "Found "@ + decimal(count as nat) + " songs matching '"@ + self.query@ + "':"@
            },
    {
        if count == 0 {
            let mut line = joined("No songs found matching '", self.query.as_str());
            line.append("'");
            line
        } else {
            let number = decimal_text(count as u64);
            let mut line = joined("Found ", number.as_str());
            line.append(" songs matching '");
            line.append(self.query.as_str());
            line.append("':");
            line
        }
    }
}

} // verus!
