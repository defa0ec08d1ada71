//! The command line as the player reads it: options, subcommands, and the
//! music directory they point to.

use crate::error::LofiTurtleError;
use crate::models::playback::RepeatMode;
use crate::text::joined;
use vstd::prelude::*;

verus! {

/// Repeat mode argument.
#[derive(Debug, Clone, Copy, PartialEq, Eq, Structural)]
pub enum RepeatModeArg {
    Off,
    Single,
    Playlist,
}

impl RepeatModeArg {
    /// The repeat mode that the argument asks for.
    pub fn to_repeat_mode(self) -> (mode: RepeatMode)
        ensures
            mode == match self {
                RepeatModeArg::Off => RepeatMode::Off,
                RepeatModeArg::Single => RepeatMode::Single,
                RepeatModeArg::Playlist => RepeatMode::Playlist,
            },
    {
        match self {
            RepeatModeArg::Off => RepeatMode::Off,
            RepeatModeArg::Single => RepeatMode::Single,
            RepeatModeArg::Playlist => RepeatMode::Playlist,
        }
    }
}

/// Shuffle mode argument.
#[derive(Debug, Clone, Copy, PartialEq, Eq, Structural)]
pub enum ShuffleMode {
    On,
    Off,
    Toggle,
}

/// Playlist management actions.
#[derive(Debug, Clone, PartialEq, Eq)]
pub enum PlaylistAction {
    Create { name: String, description: Option<String> },
    List,
    Show { name: String },
    Delete { name: String },
    Add { playlist: String, songs: Vec<String> },
    Remove { playlist: String, songs: Vec<String> },
    Play { name: String },
}

/// The subcommands.
#[derive(Debug, Clone, PartialEq, Eq)]
pub enum Commands {
    /// Start the interactive music player.
    Play { music_dir: Option<String> },
    /// Scan the music library and update the database.
    Scan { music_dir: String, force: bool },
    /// List the songs in the database.
    List { artist: Option<String>, album: Option<String> },
    /// Search for songs.
    Search { query: String },
    /// Manage playlists.
    Playlist { action: PlaylistAction },
    /// Toggle shuffle mode.
    Shuffle { mode: Option<ShuffleMode> },
    /// Set the repeat mode.
    Repeat { mode: RepeatModeArg },
}

/// The command line. Paths are kept as text.
#[derive(Debug, Clone, PartialEq, Eq)]
pub struct Cli {
    pub music_dir: Option<String>,
    pub database: String,
    pub verbose: bool,
    pub no_scan: bool,
    pub show_art: bool,
    pub no_art: bool,
    pub shuffle: bool,
    pub repeat: Option<RepeatModeArg>,
    pub cli_mode: bool,
    pub layout_config: String,
    pub dump_layout: Option<String>,
    pub command: Option<Commands>,
}

/// What a run of the program does.
#[derive(Debug, Clone, Copy, PartialEq, Eq, Structural)]
pub enum Startup {
    /// Run the subcommand that was given.
    Subcommand,
    /// Say what the command-line mode offers.
    Banner,
    /// Start the interactive player.
    Interactive,
}

/// The kind of system the player runs on.
#[derive(Debug, Clone, Copy, PartialEq, Eq, Structural)]
pub enum TargetOs {
    MacOs,
    Windows,
    Other,
}

/// The music directory that is used on a system where none is given.
pub open spec fn default_music_dir_text(os: TargetOs) -> Seq<char> {
    match os {
        TargetOs::MacOs => "/Users/Shared/Music"@,
        TargetOs::Windows => "C:\\Users\\Public\\Music"@,
        TargetOs::Other => "/home/music"@,
    }
}

impl Cli {
    /// The music directory: the one given as an option, else the one given
    /// to the `play` subcommand, else the default of the system.
    pub open spec fn music_dir_text(self, os: TargetOs) -> Seq<char> {
        match self.music_dir {
            Some(dir) => dir@,
            None => match self.command {
                Some(Commands::Play { music_dir: Some(dir) }) => dir@,
                _ => default_music_dir_text(os),
            },
        }
    }

    /// The repeat mode asked for, which is none where nothing is said.
    pub open spec fn wanted_repeat_mode(self) -> RepeatMode {
        match self.repeat {
            Some(RepeatModeArg::Single) => RepeatMode::Single,
            Some(RepeatModeArg::Playlist) => RepeatMode::Playlist,
            _ => RepeatMode::Off,
        }
    }

    /// The music directory.
    pub fn get_music_dir(&self, os: TargetOs) -> (dir: String)
        ensures
            dir@ == self.music_dir_text(os),
    {
        if let Some(dir) = &self.music_dir {
            return dir.clone();
        }
        if let Some(Commands::Play { music_dir: Some(dir) }) = &self.command {
            return dir.clone();
        }
        Cli::default_music_dir(os)
    }

    /// The music directory that is used on a system where none is given.
    pub fn default_music_dir(os: TargetOs) -> (dir: String)
        ensures
            dir@ == default_music_dir_text(os),
    {
        match os {
            TargetOs::MacOs => "/Users/Shared/Music".to_string(),
            TargetOs::Windows => "C:\\Users\\Public\\Music".to_string(),
            TargetOs::Other => "/home/music".to_string(),
        }
    }

    /// The music directory, where `exists` and `is_dir` say what the file
    /// system holds at it: refused where nothing is there, or something that
    /// is no directory.
    pub fn validate_music_dir(&self, os: TargetOs, exists: bool, is_dir: bool) -> (result: Result<
        String,
        LofiTurtleError,
    >)
        ensures
            match result {
                Ok(dir) => exists && is_dir && dir@ == self.music_dir_text(os),
                Err(LofiTurtleError::DirectoryNotFound(reason)) => !exists && reason@
                    == "Music directory '"@ + self.music_dir_text(os) + "' does not exist"@,
                Err(LofiTurtleError::Configuration(reason)) => exists && !is_dir && reason@ == "'"@
                    + self.music_dir_text(os) + "' is not a directory"@,
                Err(_) => false,
            },
    {
        let music_dir = self.get_music_dir(os);
        if !exists {
            let mut reason = joined("Music directory '", music_dir.as_str());
            reason.append("' does not exist");
            return Err(LofiTurtleError::DirectoryNotFound(reason));
        }
        if !is_dir {
            let mut reason = joined("'", music_dir.as_str());
            reason.append("' is not a directory");
            return Err(LofiTurtleError::Configuration(reason));
        }
        Ok(music_dir)
    }

    /// The repeat mode asked for, which is none where nothing is said.
    pub fn repeat_mode(&self) -> (mode: RepeatMode)
        ensures
            mode == self.wanted_repeat_mode(),
    {
        match self.repeat {
            Some(arg) => arg.to_repeat_mode(),
            None => RepeatMode::Off,
        }
    }

    /// What a run with this command line does: the subcommand, where one
    /// is given; else the banner in command-line mode and the interactive
    /// player otherwise.
    pub fn startup(&self) -> (startup: Startup)
        ensures
            startup == if self.command is Some {
                Startup::Subcommand
            } else if self.cli_mode {
                Startup::Banner
            } else {
                Startup::Interactive
            },
    {
        if self.command.is_some() {
            Startup::Subcommand
        } else if self.cli_mode {
            Startup::Banner
        } else {
            Startup::Interactive
        }
    }

    /// Whether album art is shown: always, unless it was switched off.
    pub fn shows_art(&self) -> (shown: bool)
        ensures
            shown == !self.no_art,
    {
        !self.no_art
    }
}

} // verus!
