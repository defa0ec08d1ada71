//! Value objects: identifiers, file paths and durations.

use crate::ids::{is_random_identifier, md5_hex, md5_hex_of, random_identifier};
use crate::shared::errors::DomainError;
use crate::text::{
    clock, clock_text, contains_char, decimal, decimal_text, is_blank, is_substring,
    lemma_trimmed_shape, two_digit_text, two_digits,
};
use vstd::prelude::*;

verus! {

/// The identifier of a song.
#[derive(Debug, PartialEq, Eq, Hash)]
pub struct SongId(String);

impl View for SongId {
    type V = Seq<char>;

    closed spec fn view(&self) -> Seq<char> {
        self.0@
    }
}

impl SongId {
    /// The identifier of the song at `path`: the digest of the path.
    pub fn from_path(path: &FilePath) -> (id: Self)
        ensures
            id@ == md5_hex(path@),
    {
        SongId(md5_hex_of(path.as_str()))
    }

    /// The identifier with the given text.
    pub fn from_string(id: String) -> (song_id: Self)
        ensures
            song_id@ == id@,
    {
        SongId(id)
    }

    /// The identifier's text.
    pub fn as_str(&self) -> (text: &str)
        ensures
            text@ == self@,
    {
        self.0.as_str()
    }

    /// Whether two identifiers have the same text.
    pub fn same_as(&self, other: &SongId) -> (same: bool)
        ensures
            same == (self@ == other@),
    {
        self.0.as_str().eq(other.0.as_str())
    }

    /// The text as `Display` prints it.
    pub fn to_text(&self) -> (text: String)
        ensures
            text@ == self@,
    {
        self.0.clone()
    }
}

/// The path of an audio file: not blank, and with a dot in it.
#[derive(Debug, PartialEq, Eq)]
pub struct FilePath(String);

impl View for FilePath {
    type V = Seq<char>;

    closed spec fn view(&self) -> Seq<char> {
        self.0@
    }
}

/// What follows the last `/` of `path`, or all of it where it holds none.
pub open spec fn last_segment(path: Seq<char>) -> Seq<char> {
    match path.index_of_last('/') {
        Some(slash) => path.skip(slash + 1),
        None => path,
    }
}

/// Whether the last segment of `path` is its file name on every system.
/// That asks three things. The segment is a name: not empty, as after a
/// closing `/`, and neither `.` nor `..`. The path holds neither `\` nor
/// `:`, which part a path on some systems and not on others. And it does not
/// begin with `//`, which some systems read as the start of a share's name.
pub open spec fn ends_in_file_name(path: Seq<char>) -> bool {
    let name = last_segment(path);
    &&& name.len() > 0
    &&& name != seq!['.']
    &&& name != seq!['.', '.']
    &&& !path.contains('\\')
    &&& !path.contains(':')
    &&& !(path.len() >= 2 && path[0] == '/' && path[1] == '/')
}

/// The extension of the file name `name`: what follows its last dot, unless
/// it holds no dot or only the one it begins with.
pub open spec fn name_extension(name: Seq<char>) -> Option<Seq<char>> {
    match name.index_of_last('.') {
        Some(dot) if dot > 0 => Some(name.skip(dot + 1)),
        _ => None,
    }
}

/// The stem of the file name `name`: what stands before its last dot, or
/// all of it where it holds no dot or only the one it begins with.
pub open spec fn name_stem(name: Seq<char>) -> Seq<char> {
    match name.index_of_last('.') {
        Some(dot) if dot > 0 => name.take(dot),
        _ => name,
    }
}

/// `Path::extension` of the standard library on `path`, as text. Where the
/// path ends in a file name on every system, it is the extension of that
/// name as the function's documentation gives it. Of any other path, whose
/// file name the system's own rules pick out, only this is claimed: where
/// there is an extension, it holds no dot and stands in the path right after
/// a dot.
#[verifier::external_body]
fn extension_of(path: &str) -> (extension: Option<&str>)
    ensures
        extension matches Some(e) ==> !e@.contains('.') && is_substring(seq!['.'] + e@, path@),
        ends_in_file_name(path@) ==> match extension {
            Some(e) => name_extension(last_segment(path@)) == Some(e@),
            None => name_extension(last_segment(path@)) is None,
        },
{
    std::path::Path::new(path).extension().and_then(|e| e.to_str())
}

/// `Path::file_stem` of the standard library on `path`, as text. Where the
/// path ends in a file name on every system, it is the stem of that name as
/// the function's documentation gives it. Of any other path, whose file name
/// the system's own rules pick out, only this is claimed: where there is a
/// stem, it stands in the path.
#[verifier::external_body]
fn file_stem_of(path: &str) -> (stem: Option<&str>)
    ensures
        stem matches Some(s) ==> is_substring(s@, path@),
        ends_in_file_name(path@) ==> match stem {
            Some(s) => s@ == name_stem(last_segment(path@)),
            None => false,
        },
{
    std::path::Path::new(path).file_stem().and_then(|s| s.to_str())
}

impl FilePath {
    /// Why `path` is no file path, if it is none.
    pub open spec fn refusal(path: Seq<char>) -> Option<Seq<char>> {
        if is_blank(path) {
            Some("Path cannot be empty"@)
        } else if !path.contains('.') {
            Some("Path must have an extension"@)
        } else {
            None
        }
    }

    /// The file path `path`, unless it is blank or holds no dot.
    pub fn new(path: &str) -> (result: Result<Self, DomainError>)
        ensures
            match result {
                Ok(file_path) => Self::refusal(path@) is None && file_path@ == path@,
                Err(DomainError::InvalidFilePath(reason)) => Self::refusal(path@) == Some(
                    reason@,
                ),
                Err(_) => false,
            },
    {
        proof {
            lemma_trimmed_shape(path@);
        }
        if path.trim().is_empty() {
            return Err(DomainError::InvalidFilePath("Path cannot be empty".to_string()));
        }
        if !contains_char(path, '.') {
            return Err(DomainError::InvalidFilePath("Path must have an extension".to_string()));
        }
        Ok(FilePath(path.to_string()))
    }

    /// The path's text.
    pub fn as_str(&self) -> (text: &str)
        ensures
            text@ == self@,
    {
        self.0.as_str()
    }

    /// The extension of the file name, without its dot. Where the path
    /// ends in a file name on every system, it is what follows the last dot
    /// of that name; of any other path, the system's rules pick the file
    /// name out.
    pub fn extension(&self) -> (extension: Option<&str>)
        ensures
            extension matches Some(e) ==> !e@.contains('.') && is_substring(
                seq!['.'] + e@,
                self@,
            ),
            ends_in_file_name(self@) ==> match extension {
                Some(e) => name_extension(last_segment(self@)) == Some(e@),
                None => name_extension(last_segment(self@)) is None,
            },
    {
        extension_of(self.0.as_str())
    }

    /// The file name without its extension. Where the path ends in a
    /// file name on every system, it is what stands before the last dot of
    /// that name; of any other path, the system's rules pick the file name
    /// out.
    pub fn filename_stem(&self) -> (stem: Option<&str>)
        ensures
            stem matches Some(s) ==> is_substring(s@, self@),
            ends_in_file_name(self@) ==> match stem {
                Some(s) => s@ == name_stem(last_segment(self@)),
                None => false,
            },
    {
        file_stem_of(self.0.as_str())
    }

    /// Whether two paths have the same text.
    pub fn same_as(&self, other: &FilePath) -> (same: bool)
        ensures
            same == (self@ == other@),
    {
        self.0.as_str().eq(other.0.as_str())
    }
}

/// A length of time in whole seconds.
#[derive(Debug, Clone, Copy, PartialEq, Eq, PartialOrd, Ord, Structural)]
pub struct Duration(u64);

impl View for Duration {
    type V = nat;

    closed spec fn view(&self) -> nat {
        self.0 as nat
    }
}

/// A length of time as `H:MM:SS`, or as `MM:SS` below one hour.
pub open spec fn long_clock(seconds: nat) -> Seq<char> {
    if seconds >= 3600 {
        decimal(seconds / 3600).push(':') + two_digits((seconds % 3600) / 60).push(':') + two_digits(
            seconds % 60,
        )
    } else {
        two_digits((seconds % 3600) / 60).push(':') + two_digits(seconds % 60)
    }
}

impl Duration {
    /// The duration of `seconds` seconds.
    pub fn from_seconds(seconds: u64) -> (duration: Self)
        ensures
            duration@ == seconds,
    {
        Duration(seconds)
    }

    /// The duration of `minutes` minutes and `seconds` seconds, unless
    /// `seconds` is 60 or more. Where it is below 60, the whole must fit in
    /// 64 bits.
    pub fn from_minutes_seconds(minutes: u64, seconds: u64) -> (result: Result<Self, DomainError>)
        requires
            seconds < 60 ==> minutes * 60 + seconds <= u64::MAX,
        ensures
            match result {
                Ok(duration) => seconds < 60 && duration@ == minutes * 60 + seconds,
                Err(DomainError::InvalidDuration(reason)) => seconds >= 60 && reason@
                    == "Seconds must be less than 60"@,
                Err(_) => false,
            },
    {
        if seconds >= 60 {
            return Err(DomainError::InvalidDuration("Seconds must be less than 60".to_string()));
        }
        Ok(Duration(minutes * 60 + seconds))
    }

    /// The duration in seconds.
    pub fn total_seconds(&self) -> (seconds: u64)
        ensures
            seconds == self@,
    {
        self.0
    }

    /// The whole minutes of the duration.
    pub fn minutes(&self) -> (minutes: u64)
        ensures
            minutes == self@ / 60,
    {
        self.0 / 60
    }

    /// The seconds past the last whole minute.
    pub fn seconds(&self) -> (seconds: u64)
        ensures
            seconds == self@ % 60,
    {
        self.0 % 60
    }

    /// The duration as `MM:SS`.
    pub fn format_mm_ss(&self) -> (text: String)
        ensures
            text@ == clock(self@),
    {
        clock_text(self.0)
    }

    /// The duration as `H:MM:SS`, or as `MM:SS` below one hour.
    pub fn format_h_mm_ss(&self) -> (text: String)
        ensures
            text@ == long_clock(self@),
    {
        let hours = self.0 / 3600;
        let minutes = (self.0 % 3600) / 60;
        let seconds = self.0 % 60;
        proof {
            reveal_strlit(":");
        }
        let mut text = if hours > 0 {
            let mut head = decimal_text(hours);
            head.append(":");
            let middle = two_digit_text(minutes);
            head.append(middle.as_str());
            head
        } else {
            two_digit_text(minutes)
        };
        text.append(":");
        let tail = two_digit_text(seconds);
        text.append(tail.as_str());
        assert(text@ =~= long_clock(self@));
        text
    }
}

/// The identifier of a playlist.
#[derive(Debug, PartialEq, Eq, Hash)]
pub struct PlaylistId(String);

impl View for PlaylistId {
    type V = Seq<char>;

    closed spec fn view(&self) -> Seq<char> {
        self.0@
    }
}

impl PlaylistId {
    /// A fresh random identifier: which one is left open, but it is
    /// written as every random identifier is.
    pub fn new() -> (id: Self)
        ensures
            is_random_identifier(id@),
    {
        PlaylistId(random_identifier())
    }

    /// The identifier with the given text.
    pub fn from_string(id: String) -> (playlist_id: Self)
        ensures
            playlist_id@ == id@,
    {
        PlaylistId(id)
    }

    /// The identifier's text.
    pub fn as_str(&self) -> (text: &str)
        ensures
            text@ == self@,
    {
        self.0.as_str()
    }
}

impl Default for PlaylistId {
    fn default() -> (id: Self)
        ensures
            is_random_identifier(id@),
    {
        Self::new()
    }
}

impl Clone for SongId {
    fn clone(&self) -> (copy: Self)
        ensures
            copy@ == self@,
    {
        SongId(self.0.clone())
    }
}

impl Clone for FilePath {
    fn clone(&self) -> (copy: Self)
        ensures
            copy@ == self@,
    {
        FilePath(self.0.clone())
    }
}

impl Clone for PlaylistId {
    fn clone(&self) -> (copy: Self)
        ensures
            copy@ == self@,
    {
        PlaylistId(self.0.clone())
    }
}

} // verus!
