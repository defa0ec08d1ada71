//! The `playlist`, `shuffle` and `repeat` subcommands.

use crate::cli::{PlaylistAction, RepeatModeArg, ShuffleMode};
use crate::commands::{mentions, text_holds, text_mentions};
use crate::error::LofiTurtleError;
use crate::models::song::Song;
use crate::text::{clock, clock_text, is_substring, joined, lowercase, trimmed};
use vstd::prelude::*;

verus! {

/// What a playlist action holds.
pub enum PlaylistActionView {
    Create { name: Seq<char>, description: Option<Seq<char>> },
    List,
    Show { name: Seq<char> },
    Delete { name: Seq<char> },
    Add { playlist: Seq<char>, songs: Seq<Seq<char>> },
    Remove { playlist: Seq<char>, songs: Seq<Seq<char>> },
    Play { name: Seq<char> },
}

impl View for PlaylistAction {
    type V = PlaylistActionView;

    open spec fn view(&self) -> PlaylistActionView {
        match *self {
            PlaylistAction::Create { name, description } => PlaylistActionView::Create {
                name: name@,
                description: match description {
                    Some(d) => Some(d@),
                    None => None,
                },
            },
            PlaylistAction::List => PlaylistActionView::List,
            PlaylistAction::Show { name } => PlaylistActionView::Show { name: name@ },
            PlaylistAction::Delete { name } => PlaylistActionView::Delete { name: name@ },
            PlaylistAction::Add { playlist, songs } => PlaylistActionView::Add {
                playlist: playlist@,
                songs: songs@.map_values(|s: String| s@),
            },
            PlaylistAction::Remove { playlist, songs } => PlaylistActionView::Remove {
                playlist: playlist@,
                songs: songs@.map_values(|s: String| s@),
            },
            PlaylistAction::Play { name } => PlaylistActionView::Play { name: name@ },
        }
    }
}

fn copy_of_texts(texts: &Vec<String>) -> (copy: Vec<String>)
    ensures
        copy@.map_values(|s: String| s@) == texts@.map_values(|s: String| s@),
{
    let mut copy: Vec<String> = Vec::new();
    let mut i: usize = 0;
    while i < texts.len()
        invariant
            i <= texts.len(),
            copy@.len() == i,
            forall|j: int| 0 <= j < i ==> copy@[j]@ == texts@[j]@,
        decreases texts.len() - i,
    {
        copy.push(texts[i].clone());
        i += 1;
    }
    assert(copy@.map_values(|s: String| s@) =~= texts@.map_values(|s: String| s@));
    copy
}

/// A copy of a playlist action.
pub fn copy_of_action(action: &PlaylistAction) -> (copy: PlaylistAction)
    ensures
        copy@ == action@,
{
    match action {
        PlaylistAction::Create { name, description } => PlaylistAction::Create {
            name: name.clone(),
            description: match description {
                Some(d) => Some(d.clone()),
                None => None,
            },
        },
        PlaylistAction::List => PlaylistAction::List,
        PlaylistAction::Show { name } => PlaylistAction::Show { name: name.clone() },
        PlaylistAction::Delete { name } => PlaylistAction::Delete { name: name.clone() },
        PlaylistAction::Add { playlist, songs } => PlaylistAction::Add {
            playlist: playlist.clone(),
            songs: copy_of_texts(songs),
        },
        PlaylistAction::Remove { playlist, songs } => PlaylistAction::Remove {
            playlist: playlist.clone(),
            songs: copy_of_texts(songs),
        },
        PlaylistAction::Play { name } => PlaylistAction::Play { name: name.clone() },
    }
}

/// Manages playlists.
pub struct PlaylistCommand {
    pub action: PlaylistAction,
}

/// What a query for one song found among a list of songs.
#[derive(Debug, Clone, Copy, PartialEq, Eq, Structural)]
pub enum SongChoice {
    /// No song matches.
    NoMatch,
    /// The song at this place of the list is the only match.
    Unique(usize),
    /// Several songs match: so many of them are shown, so many more are
    /// not.
    Ambiguous { shown: usize, more: usize },
}

/// The sum of the durations, or the largest number where the sum does not
/// fit.
pub open spec fn total_duration(songs: Seq<Song>) -> u64
    decreases songs.len(),
{
    if songs.len() == 0 {
        0
    } else {
        let rest = total_duration(songs.drop_last());
        if rest + songs.last().duration > u64::MAX {
            u64::MAX
        } else {
            (rest + songs.last().duration) as u64
        }
    }
}

impl PlaylistCommand {
    /// Whether `song` matches `query`, where `query_lower` is the query in
    /// lower case: its title or artist holds the query without regard to
    /// case, or its path holds the query as it is.
    pub open spec fn matches(song: Song, query: Seq<char>, query_lower: Seq<char>) -> bool {
        ||| mentions(song.title@, query_lower)
        ||| mentions(song.artist@, query_lower)
        ||| is_substring(query, song.path@)
    }

    /// What is made of the places at which songs match: none, the one, or
    /// too many, of which at most five are shown.
    pub open spec fn choice(places: Seq<usize>) -> SongChoice {
        if places.len() == 0 {
            SongChoice::NoMatch
        } else if places.len() == 1 {
            SongChoice::Unique(places[0])
        } else if places.len() > 5 {
            SongChoice::Ambiguous { shown: 5, more: (places.len() - 5) as usize }
        } else {
            SongChoice::Ambiguous { shown: places.len() as usize, more: 0 }
        }
    }

    /// The places in `songs`, in order, at which a song matches.
    pub open spec fn matching_places(songs: Seq<Song>, query: Seq<char>, query_lower: Seq<char>) -> Seq<
        usize,
    >
        decreases songs.len(),
    {
        if songs.len() == 0 {
            Seq::empty()
        } else if Self::matches(songs.last(), query, query_lower) {
            Self::matching_places(songs.drop_last(), query, query_lower).push(
                (songs.len() - 1) as usize,
            )
        } else {
            Self::matching_places(songs.drop_last(), query, query_lower)
        }
    }

    /// A playlist command.
    pub fn new(action: PlaylistAction) -> (command: Self)
        ensures
            command.action == action,
    {
        PlaylistCommand { action }
    }

    /// What the command does, in a few words.
    pub fn description(&self) -> (text: &'static str)
        ensures
            text@ == "Manage music playlists"@,
    {
        "Manage music playlists"
    }

    /// Whether `song` matches `query`, where `query_lower` is the query in
    /// lower case.
    pub fn song_matches(song: &Song, query: &str, query_lower: &str) -> (found: bool)
        ensures
            found == Self::matches(*song, query@, query_lower@),
    {
        text_mentions(song.title.as_str(), query_lower) || text_mentions(
            song.artist.as_str(),
            query_lower,
        ) || text_holds(song.path.as_str(), query)
    }

    /// The places in `songs`, in order, at which a song matches `query`,
    /// where `query_lower` is the query in lower case.
    pub fn find_songs_with(songs: &Vec<Song>, query: &str, query_lower: &str) -> (places: Vec<usize>)
        ensures
            places@ == Self::matching_places(songs@, query@, query_lower@),
    {
        let mut places: Vec<usize> = Vec::new();
        let mut i: usize = 0;
        while i < songs.len()
            invariant
                i <= songs.len(),
                places@ == Self::matching_places(songs@.take(i as int), query@, query_lower@),
            decreases songs.len() - i,
        {
            let ghost next = songs@.take(i + 1);
            assert(next.drop_last() =~= songs@.take(i as int));
            assert(next.last() == songs@[i as int]);
            if Self::song_matches(&songs[i], query, query_lower) {
                places.push(i);
            }
            i += 1;
        }
        assert(songs@.take(songs.len() as int) =~= songs@);
        places
    }

    /// The places in `songs`, in order, at which a song matches `query`.
    pub fn find_songs(songs: &Vec<Song>, query: &str) -> (places: Vec<usize>)
        ensures
            places@ == Self::matching_places(songs@, query@, lowercase(query@)),
    {
        let query_lower = query.to_lowercase();
        Self::find_songs_with(songs, query, query_lower.as_str())
    }

    /// What is made of the places at which songs match.
    pub fn choose_song(places: &Vec<usize>) -> (choice: SongChoice)
        ensures
            choice == Self::choice(places@),
    {
        if places.len() == 0 {
            SongChoice::NoMatch
        } else if places.len() == 1 {
            SongChoice::Unique(places[0])
        } else if places.len() > 5 {
            SongChoice::Ambiguous { shown: 5, more: places.len() - 5 }
        } else {
            SongChoice::Ambiguous { shown: places.len(), more: 0 }
        }
    }

    /// Whether the answer `lower`, trimmed and in lower case, says yes.
    pub fn says_yes(lower: &str) -> (yes: bool)
        ensures
            yes == (lower@ == "y"@ || lower@ == "yes"@),
    {
        lower.eq("y") || lower.eq("yes")
    }

    /// Whether `input`, the line typed in answer to a question, says yes:
    /// `y` or `yes` in any case, whitespace around it aside.
    pub fn confirms(input: &str) -> (yes: bool)
        ensures
            yes == (lowercase(trimmed(input@)) == "y"@ || lowercase(trimmed(input@)) == "yes"@),
    {
        let lower = input.trim().to_lowercase();
        Self::says_yes(lower.as_str())
    }

    /// The playing time of the songs, summed up.
    pub fn playing_time(songs: &Vec<Song>) -> (seconds: u64)
        ensures
            seconds == total_duration(songs@),
    {
        let mut seconds: u64 = 0;
        let mut i: usize = 0;
        while i < songs.len()
            invariant
                i <= songs.len(),
                seconds == total_duration(songs@.take(i as int)),
            decreases songs.len() - i,
        {
            assert(songs@.take(i + 1).drop_last() =~= songs@.take(i as int));
            seconds = seconds.saturating_add(songs[i].duration);
            i += 1;
        }
        assert(songs@.take(songs.len() as int) =~= songs@);
        seconds
    }

    /// The line that states the playing time of the songs.
    pub fn playing_time_line(songs: &Vec<Song>) -> (line: String)
        ensures
            line@ == "⏱️  Total duration: "@ + clock(total_duration(songs@) as nat),
    {
        let time = clock_text(Self::playing_time(songs));
        joined("⏱️  Total duration: ", time.as_str())
    }

    /// The error for a playlist that is to be made and exists already.
    pub fn already_exists(name: &str) -> (error: LofiTurtleError)
        ensures
            error matches LofiTurtleError::Configuration(reason) && reason@ == "Playlist '"@
                + name@ + "' already exists"@,
    {
        let mut reason = joined("Playlist '", name);
        reason.append("' already exists");
        LofiTurtleError::Configuration(reason)
    }

    /// The error for a playlist that is asked for and does not exist.
    pub fn not_found(name: &str) -> (error: LofiTurtleError)
        ensures
            error matches LofiTurtleError::Configuration(reason) && reason@ == "Playlist '"@
                + name@ + "' not found"@,
    {
        let mut reason = joined("Playlist '", name);
        reason.append("' not found");
        LofiTurtleError::Configuration(reason)
    }

    /// Whether a playlist with so many songs can be played: an empty one
    /// cannot.
    pub fn playable(name: &str, song_count: usize) -> (result: Result<(), LofiTurtleError>)
        ensures
            match result {
                Ok(()) => song_count > 0,
                Err(LofiTurtleError::Configuration(reason)) => song_count == 0 && reason@
                    == "Playlist '"@ + name@ + "' is empty"@,
                Err(_) => false,
            },
    {
        if song_count == 0 {
            let mut reason = joined("Playlist '", name);
            reason.append("' is empty");
            Err(LofiTurtleError::Configuration(reason))
        } else {
            Ok(())
        }
    }
}

/// Controls shuffle mode.
pub struct ShuffleCommand {
    pub mode: Option<ShuffleMode>,
}

impl ShuffleCommand {
    /// The command; no mode means toggle.
    pub fn new(mode: Option<ShuffleMode>) -> (command: Self)
        ensures
            command.mode == mode,
    {
        ShuffleCommand { mode }
    }

    /// What the command does, in a few words.
    pub fn description(&self) -> (text: &'static str)
        ensures
            text@ == "Control shuffle playback mode"@,
    {
        "Control shuffle playback mode"
    }

    /// What the command says.
    pub fn message(&self) -> (text: &'static str)
        ensures
            text@ == match self.mode {
                Some(ShuffleMode::On) => "🔀 Shuffle mode enabled"@,
                Some(ShuffleMode::Off) => "➡️  Shuffle mode disabled"@,
                _ => "🔀 Toggling shuffle mode"@,
            },
    {
        match self.mode {
            Some(ShuffleMode::On) => "🔀 Shuffle mode enabled",
            Some(ShuffleMode::Off) => "➡️  Shuffle mode disabled",
            Some(ShuffleMode::Toggle) => "🔀 Toggling shuffle mode",
            None => "🔀 Toggling shuffle mode",
        }
    }
}

/// Controls repeat mode.
pub struct RepeatCommand {
    pub mode: RepeatModeArg,
}

impl RepeatCommand {
    /// The command.
    pub fn new(mode: RepeatModeArg) -> (command: Self)
        ensures
            command.mode == mode,
    {
        RepeatCommand { mode }
    }

    /// What the command does, in a few words.
    pub fn description(&self) -> (text: &'static str)
        ensures
            text@ == "Control repeat playback mode"@,
    {
        "Control repeat playback mode"
    }

    /// What the command says.
    pub fn message(&self) -> (text: &'static str)
        ensures
            text@ == match self.mode {
                RepeatModeArg::Off => "⏭ Repeat mode set to: off"@,
                RepeatModeArg::Single => "🔂 Repeat mode set to: single song"@,
                RepeatModeArg::Playlist => "🔁 Repeat mode set to: playlist"@,
            },
    {
        match self.mode {
            RepeatModeArg::Off => "⏭ Repeat mode set to: off",
            RepeatModeArg::Single => "🔂 Repeat mode set to: single song",
            RepeatModeArg::Playlist => "🔁 Repeat mode set to: playlist",
        }
    }
}

} // verus!
