//! The subcommands of the command line: what each one selects, counts and
//! says. Reading the database and printing are left to the caller.

use crate::cli::Commands;
use crate::models::song::Song;
use crate::text::{clock, contains_text, is_substring, lowercase};
use vstd::prelude::*;

pub mod list;
pub mod play;
pub mod playlist;
pub mod scan;
pub mod search;

pub use list::ListCommand;
pub use play::PlayCommand;
pub use playlist::{PlaylistCommand, RepeatCommand, ShuffleCommand};
pub use scan::ScanCommand;
pub use search::SearchCommand;

verus! {

/// `text`, read without regard to case, holds `query_lower`, a query in
/// lower case.
pub open spec fn mentions(text: Seq<char>, query_lower: Seq<char>) -> bool {
    is_substring(query_lower, lowercase(text))
}

/// Whether `text` holds `query` as it is written.
pub fn text_holds(text: &str, query: &str) -> (found: bool)
    ensures
        found == is_substring(query@, text@),
{
    contains_text(text, query)
}

/// Whether `text`, read without regard to case, holds `query_lower`.
pub fn text_mentions(text: &str, query_lower: &str) -> (found: bool)
    ensures
        found == mentions(text@, query_lower@),
{
    let lower = text.to_lowercase();
    text_holds(lower.as_str(), query_lower)
}

/// The line that shows a song in a listing.
pub open spec fn song_line(song: Song) -> Seq<char> {
    song.title@ + " - "@ + song.artist@ + " ["@ + song.album@ + "] ("@ + clock(
        song.duration as nat,
    ) + ")"@
}

/// The line that shows a song in a listing.
pub fn listing_line(song: &Song) -> (line: String)
    ensures
        line@ == song_line(*song),
{
    let mut line = song.title.clone();
    line.append(" - ");
    line.append(song.artist.as_str());
    line.append(" [");
    line.append(song.album.as_str());
    line.append("] (");
    let duration = song.duration_formatted();
    line.append(duration.as_str());
    line.append(")");
    line
}

/// A line of `n` dashes.
pub open spec fn dashes(n: nat) -> Seq<char> {
    Seq::new(n, |i: int| '-')
}

/// The line of 80 dashes that is printed under a heading.
pub fn ruler() -> (line: String)
    ensures
        line@ == dashes(80),
{
    proof {
        reveal_strlit("-");
    }
    let mut line = String::new();
    let mut i: usize = 0;
    while i < 80
        invariant
            i <= 80,
            line@ == dashes(i as nat),
            "-"@ == seq!['-'],
        decreases 80 - i,
    {
        line.append("-");
        i += 1;
        assert(line@ =~= dashes(i as nat));
    }
    line
}

/// The songs behind a list of references.
pub open spec fn referred_songs(songs: Seq<&Song>) -> Seq<Song> {
    songs.map_values(|s: &Song| *s)
}

/// A subcommand, ready to run.
pub enum AnyCommand {
    Play(PlayCommand),
    Scan(ScanCommand),
    List(ListCommand),
    Search(SearchCommand),
    Playlist(PlaylistCommand),
    Shuffle(ShuffleCommand),
    Repeat(RepeatCommand),
}

impl AnyCommand {
    /// What the command does, in a few words.
    pub fn description(&self) -> (text: &'static str)
        ensures
            text@ == match self {
                AnyCommand::Play(_) => "Start the interactive music player interface"@,
                AnyCommand::Scan(_) => "Scan music library and update database"@,
                AnyCommand::List(_) => "List all songs in the database with optional filtering"@,
                AnyCommand::Search(_) => "Search for songs by title, artist, or album"@,
                AnyCommand::Playlist(_) => "Manage music playlists"@,
                AnyCommand::Shuffle(_) => "Control shuffle playback mode"@,
                AnyCommand::Repeat(_) => "Control repeat playback mode"@,
            },
    {
        match self {
            AnyCommand::Play(c) => c.description(),
            AnyCommand::Scan(c) => c.description(),
            AnyCommand::List(c) => c.description(),
            AnyCommand::Search(c) => c.description(),
            AnyCommand::Playlist(c) => c.description(),
            AnyCommand::Shuffle(c) => c.description(),
            AnyCommand::Repeat(c) => c.description(),
        }
    }
}

/// Makes the command that a subcommand of the command line asks for.
pub struct CommandFactory;

impl CommandFactory {
    /// The command for a subcommand of the command line.
    pub fn create_command(cli_command: &Commands) -> (command: AnyCommand)
        ensures
            match (*cli_command, command) {
                (Commands::Play { .. }, AnyCommand::Play(_)) => true,
                (Commands::Scan { force, .. }, AnyCommand::Scan(c)) => c.force_rescan == force,
                (Commands::List { artist, album }, AnyCommand::List(c)) => c.artist_filter
                    == artist && c.album_filter == album,
                (Commands::Search { query }, AnyCommand::Search(c)) => c.query == query,
                (Commands::Playlist { action }, AnyCommand::Playlist(c)) => c.action@ == action@,
                (Commands::Shuffle { mode }, AnyCommand::Shuffle(c)) => c.mode == mode,
                (Commands::Repeat { mode }, AnyCommand::Repeat(c)) => c.mode == mode,
                _ => false,
            },
    {
        match cli_command {
            Commands::Play { .. } => AnyCommand::Play(PlayCommand::new()),
            Commands::Scan { force, .. } => AnyCommand::Scan(ScanCommand::new(*force)),
            Commands::List { artist, album } => AnyCommand::List(
                ListCommand::new(copy_of(artist), copy_of(album)),
            ),
            Commands::Search { query } => AnyCommand::Search(SearchCommand::new(query.clone())),
            Commands::Playlist { action } => AnyCommand::Playlist(
                PlaylistCommand::new(playlist::copy_of_action(action)),
            ),
            Commands::Shuffle { mode } => AnyCommand::Shuffle(ShuffleCommand::new(*mode)),
            Commands::Repeat { mode } => AnyCommand::Repeat(RepeatCommand::new(*mode)),
        }
    }
}

/// A copy of an optional text.
pub fn copy_of(text: &Option<String>) -> (copy: Option<String>)
    ensures
        copy == *text,
{
    match text {
        Some(t) => Some(t.clone()),
        None => None,
    }
}

} // verus!
