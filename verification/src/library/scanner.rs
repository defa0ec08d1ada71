//! What the scanner decides about a file before it reads it.

use crate::text::lowercase;
use vstd::prelude::*;

verus! {

/// Finds the audio files of a music directory.
pub struct MusicScanner;

/// Whether `lower`, a file extension in lower case, is that of an audio
/// format the player reads.
pub open spec fn is_audio_extension(lower: Seq<char>) -> bool {
    ||| lower == "mp3"@
    ||| lower == "flac"@
    ||| lower == "aac"@
    ||| lower == "m4a"@
    ||| lower == "ogg"@
    ||| lower == "wav"@
}

impl MusicScanner {
    /// A scanner.
    pub fn new() -> Self {
        MusicScanner
    }

    /// Whether a file with the extension `lower`, given in lower case, is an
    /// audio file.
    pub fn reads_extension(&self, lower: &str) -> (audio: bool)
        ensures
            audio == is_audio_extension(lower@),
    {
        lower.eq("mp3") || lower.eq("flac") || lower.eq("aac") || lower.eq("m4a") || lower.eq(
            "ogg",
        ) || lower.eq("wav")
    }

    /// Whether a file is an audio file, by its extension, if it has one:
    /// the extension counts in any case.
    pub fn is_audio_file(&self, extension: Option<&str>) -> (audio: bool)
        ensures
            audio == match extension {
                Some(e) => is_audio_extension(lowercase(e@)),
                None => false,
            },
    {
        match extension {
            Some(e) => {
                let lower = e.to_lowercase();
                self.reads_extension(lower.as_str())
            },
            None => false,
        }
    }

    /// The title of a song that carries none: the stem of its file name,
    /// if it has one.
    pub fn extract_title_from_filename(&self, stem: Option<&str>) -> (title: String)
        ensures
            title@ == match stem {
                Some(s) => s@,
                None => "Unknown Title"@,
            },
    {
        match stem {
            Some(s) => s.to_string(),
            None => "Unknown Title".to_string(),
        }
    }
}

} // verus!
