//! The player's error type.

use crate::text::joined;
use vstd::prelude::*;

verus! {

/// What can go wrong in the player, each with the detail that is shown to
/// the user.
#[derive(Debug, Clone, PartialEq, Eq)]
pub enum LofiTurtleError {
    Database(String),
    AudioPlayback(String),
    FileSystem(String),
    MusicLibrary(String),
    Configuration(String),
    Terminal(String),
    UnsupportedFormat(String),
    DirectoryNotFound(String),
    InvalidCommand(String),
    ChannelError(String),
}

impl LofiTurtleError {
    /// The words that introduce an error of this kind.
    pub open spec fn heading(self) -> Seq<char> {
        match self {
            LofiTurtleError::Database(_) => "Database error: "@,
            LofiTurtleError::AudioPlayback(_) => "Audio playback error: "@,
            LofiTurtleError::FileSystem(_) => "File system error: "@,
            LofiTurtleError::MusicLibrary(_) => "Music library error: "@,
            LofiTurtleError::Configuration(_) => "Configuration error: "@,
            LofiTurtleError::Terminal(_) => "Terminal interface error: "@,
            LofiTurtleError::UnsupportedFormat(_) => "Audio file format not supported: "@,
            LofiTurtleError::DirectoryNotFound(_) => "Music directory not found: "@,
            LofiTurtleError::InvalidCommand(_) => "Invalid command: "@,
            LofiTurtleError::ChannelError(_) => "Channel communication error: "@,
        }
    }

    /// The detail carried by the error.
    pub open spec fn detail(self) -> Seq<char> {
        match self {
            LofiTurtleError::Database(d) => d@,
            LofiTurtleError::AudioPlayback(d) => d@,
            LofiTurtleError::FileSystem(d) => d@,
            LofiTurtleError::MusicLibrary(d) => d@,
            LofiTurtleError::Configuration(d) => d@,
            LofiTurtleError::Terminal(d) => d@,
            LofiTurtleError::UnsupportedFormat(d) => d@,
            LofiTurtleError::DirectoryNotFound(d) => d@,
            LofiTurtleError::InvalidCommand(d) => d@,
            LofiTurtleError::ChannelError(d) => d@,
        }
    }

    /// The advice shown below an error of this kind, where there is any.
    pub open spec fn advice(self) -> Option<Seq<char>> {
        match self {
            LofiTurtleError::DirectoryNotFound(_) => Some(
                "Use --music-dir to specify a different directory"@,
            ),
            LofiTurtleError::Database(_) => Some("Try deleting the database file to reset"@),
            LofiTurtleError::AudioPlayback(_) => Some("Check if your audio drivers are working"@),
            LofiTurtleError::UnsupportedFormat(_) => Some(
                "Supported formats: MP3, FLAC, AAC, M4A, OGG, WAV"@,
            ),
            LofiTurtleError::Configuration(_) => Some("Use --help to see available options"@),
            LofiTurtleError::Terminal(_) => Some("Try running in a different terminal"@),
            _ => None,
        }
    }

    /// The advice shown below an error of this kind, where there is any.
    pub fn tip(&self) -> (tip: Option<&'static str>)
        ensures
            match tip {
                Some(t) => self.advice() == Some(t@),
                None => self.advice() is None,
            },
    {
        match self {
            LofiTurtleError::DirectoryNotFound(_) => Some(
                "Use --music-dir to specify a different directory",
            ),
            LofiTurtleError::Database(_) => Some("Try deleting the database file to reset"),
            LofiTurtleError::AudioPlayback(_) => Some("Check if your audio drivers are working"),
            LofiTurtleError::UnsupportedFormat(_) => Some(
                "Supported formats: MP3, FLAC, AAC, M4A, OGG, WAV",
            ),
            LofiTurtleError::Configuration(_) => Some("Use --help to see available options"),
            LofiTurtleError::Terminal(_) => Some("Try running in a different terminal"),
            _ => None,
        }
    }

    /// The line that tells the user of the error.
    pub open spec fn headline(self) -> Seq<char> {
        match self {
            LofiTurtleError::DirectoryNotFound(d) => "❌ Directory Error: "@ + d@,
            LofiTurtleError::Database(d) => "❌ Database Error: "@ + d@,
            LofiTurtleError::AudioPlayback(d) => "❌ Audio Error: "@ + d@,
            LofiTurtleError::UnsupportedFormat(d) => "❌ Format Error: "@ + d@,
            LofiTurtleError::Configuration(d) => "❌ Configuration Error: "@ + d@,
            LofiTurtleError::Terminal(d) => "❌ Terminal Error: "@ + d@,
            _ => "❌ Error: "@ + (self.heading() + self.detail()),
        }
    }

    /// What the user is shown of the error: the line that tells of it and,
    /// where there is advice, a line with the advice.
    pub open spec fn shown(self) -> Seq<Seq<char>> {
        match self.advice() {
            Some(advice) => seq![self.headline(), "💡 Tip: "@ + advice],
            None => seq![self.headline()],
        }
    }

    /// What the user is shown of the error.
    pub fn display_lines(&self) -> (lines: Vec<String>)
        ensures
            lines@.map_values(|line: String| line@) == self.shown(),
    {
        let headline = match self {
            LofiTurtleError::DirectoryNotFound(d) => joined("❌ Directory Error: ", d.as_str()),
            LofiTurtleError::Database(d) => joined("❌ Database Error: ", d.as_str()),
            LofiTurtleError::AudioPlayback(d) => joined("❌ Audio Error: ", d.as_str()),
            LofiTurtleError::UnsupportedFormat(d) => joined("❌ Format Error: ", d.as_str()),
            LofiTurtleError::Configuration(d) => joined("❌ Configuration Error: ", d.as_str()),
            LofiTurtleError::Terminal(d) => joined("❌ Terminal Error: ", d.as_str()),
            _ => {
                let message = self.message();
                joined("❌ Error: ", message.as_str())
            },
        };
        let mut lines: Vec<String> = Vec::new();
        lines.push(headline);
        match self.tip() {
            Some(tip) => {
                lines.push(joined("💡 Tip: ", tip));
            },
            None => {},
        }
        assert(lines@.map_values(|line: String| line@) =~= self.shown());
        lines
    }

    /// The error as one line of text: its heading, then its detail.
    pub fn message(&self) -> (text: String)
        ensures
            text@ == self.heading() + self.detail(),
    {
        match self {
            LofiTurtleError::Database(d) => joined("Database error: ", d.as_str()),
            LofiTurtleError::AudioPlayback(d) => joined("Audio playback error: ", d.as_str()),
            LofiTurtleError::FileSystem(d) => joined("File system error: ", d.as_str()),
            LofiTurtleError::MusicLibrary(d) => joined("Music library error: ", d.as_str()),
            LofiTurtleError::Configuration(d) => joined("Configuration error: ", d.as_str()),
            LofiTurtleError::Terminal(d) => joined("Terminal interface error: ", d.as_str()),
            LofiTurtleError::UnsupportedFormat(d) => joined(
                "Audio file format not supported: ",
                d.as_str(),
            ),
            LofiTurtleError::DirectoryNotFound(d) => joined(
                "Music directory not found: ",
                d.as_str(),
            ),
            LofiTurtleError::InvalidCommand(d) => joined("Invalid command: ", d.as_str()),
            LofiTurtleError::ChannelError(d) => joined(
                "Channel communication error: ",
                d.as_str(),
            ),
        }
    }
}

} // verus!
