//! The song entity.

use crate::domain::value_objects::{Duration, FilePath, SongId};
use crate::ids::md5_hex;
use crate::shared::errors::DomainError;
use crate::text::{is_blank, lemma_trimmed_shape, trimmed};
use vstd::prelude::*;

verus! {

/// A music track. Its identifier is the digest of its file path; its title
/// is never empty; title, artist and album carry no whitespace at either
/// end.
#[derive(Debug, PartialEq, Eq)]
pub struct Song {
    id: SongId,
    file_path: FilePath,
    title: String,
    artist: String,
    album: String,
    duration: Duration,
}

/// What a song holds.
pub struct SongView {
    pub id: Seq<char>,
    pub file_path: Seq<char>,
    pub title: Seq<char>,
    pub artist: Seq<char>,
    pub album: Seq<char>,
    pub duration: nat,
}

impl SongView {
    /// The artist as shown: a stand-in where none is recorded.
    pub open spec fn shown_artist(self) -> Seq<char> {
        if self.artist.len() == 0 {
            "Unknown Artist"@
        } else {
            self.artist
        }
    }

    /// The album as shown: a stand-in where none is recorded.
    pub open spec fn shown_album(self) -> Seq<char> {
        if self.album.len() == 0 {
            "Unknown Album"@
        } else {
            self.album
        }
    }

    /// The name the song is listed under: the title, followed by the artist
    /// where one is recorded and is not the stand-in itself.
    pub open spec fn listed_name(self) -> Seq<char> {
        if self.shown_artist().len() == 0 || self.shown_artist() == "Unknown Artist"@ {
            self.title
        } else {
            self.title + " - "@ + self.shown_artist()
        }
    }

    /// The song's title, artist, album and duration replaced by the given
    /// ones, trimmed.
    pub open spec fn with_metadata(
        self,
        title: Seq<char>,
        artist: Seq<char>,
        album: Seq<char>,
        duration: nat,
    ) -> SongView {
        SongView {
            title: trimmed(title),
            artist: trimmed(artist),
            album: trimmed(album),
            duration,
            ..self
        }
    }
}

impl View for Song {
    type V = SongView;

    closed spec fn view(&self) -> SongView {
        SongView {
            id: self.id@,
            file_path: self.file_path@,
            title: self.title@,
            artist: self.artist@,
            album: self.album@,
            duration: self.duration@,
        }
    }
}

impl Song {
    #[verifier::type_invariant]
    spec fn titled(self) -> bool {
        self.title@.len() > 0
    }

    /// The song at `file_path` with the given metadata, trimmed; refused
    /// where the title is blank.
    pub fn new(
        file_path: FilePath,
        title: String,
        artist: String,
        album: String,
        duration: Duration,
    ) -> (result: Result<Self, DomainError>)
        ensures
            match result {
                Ok(song) => !is_blank(title@) && song@ == (SongView {
                    id: md5_hex(file_path@),
                    file_path: file_path@,
                    title: trimmed(title@),
                    artist: trimmed(artist@),
                    album: trimmed(album@),
                    duration: duration@,
                }),
                Err(DomainError::InvalidSongTitle(reason)) => is_blank(title@) && reason@
                    == "Title cannot be empty"@,
                Err(_) => false,
            },
    {
        proof {
            lemma_trimmed_shape(title@);
        }
        if title.as_str().trim().is_empty() {
            return Err(DomainError::InvalidSongTitle("Title cannot be empty".to_string()));
        }
        let id = SongId::from_path(&file_path);
        Ok(
            Song {
                id,
                file_path,
                title: title.as_str().trim().to_string(),
                artist: artist.as_str().trim().to_string(),
                album: album.as_str().trim().to_string(),
                duration,
            },
        )
    }

    /// The song's identifier.
    pub fn id(&self) -> (id: &SongId)
        ensures
            id@ == self@.id,
    {
        &self.id
    }

    /// The song's file path.
    pub fn file_path(&self) -> (path: &FilePath)
        ensures
            path@ == self@.file_path,
    {
        &self.file_path
    }

    /// The song's title, which is never empty.
    pub fn title(&self) -> (title: &str)
        ensures
            title@ == self@.title,
            title@.len() > 0,
    {
        proof {
            use_type_invariant(self);
        }
        self.title.as_str()
    }

    /// The song's artist, or `Unknown Artist` where none is recorded.
    pub fn artist(&self) -> (artist: &str)
        ensures
            artist@ == self@.shown_artist(),
    {
        if self.artist.as_str().is_empty() {
            "Unknown Artist"
        } else {
            self.artist.as_str()
        }
    }

    /// The song's album, or `Unknown Album` where none is recorded.
    pub fn album(&self) -> (album: &str)
        ensures
            album@ == self@.shown_album(),
    {
        if self.album.as_str().is_empty() {
            "Unknown Album"
        } else {
            self.album.as_str()
        }
    }

    /// The song's duration.
    pub fn duration(&self) -> (duration: &Duration)
        ensures
            duration@ == self@.duration,
    {
        &self.duration
    }

    /// The name the song is listed under: `Title - Artist`, or the title
    /// alone where no artist is known.
    pub fn display_name(&self) -> (name: String)
        ensures
            name@ == self@.listed_name(),
    {
        let artist = self.artist();
        if artist.is_empty() || artist.eq("Unknown Artist") {
            self.title.clone()
        } else {
            let mut name = self.title.clone();
            name.append(" - ");
            name.append(artist);
            name
        }
    }

    /// Replaces title, artist, album and duration by the given ones,
    /// trimmed; identifier and file path stay. Refused, with the song left as
    /// it is, where the title is blank.
    pub fn update_metadata(
        &mut self,
        title: String,
        artist: String,
        album: String,
        duration: Duration,
    ) -> (result: Result<(), DomainError>)
        ensures
            match result {
                Ok(()) => !is_blank(title@) && final(self)@ == old(self)@.with_metadata(
                    title@,
                    artist@,
                    album@,
                    duration@,
                ),
                Err(DomainError::InvalidSongTitle(reason)) => is_blank(title@) && reason@
                    == "Title cannot be empty"@ && final(self)@ == old(self)@,
                Err(_) => false,
            },
    {
        proof {
            lemma_trimmed_shape(title@);
        }
        if title.as_str().trim().is_empty() {
            return Err(DomainError::InvalidSongTitle("Title cannot be empty".to_string()));
        }
        self.title = title.as_str().trim().to_string();
        self.artist = artist.as_str().trim().to_string();
        self.album = album.as_str().trim().to_string();
        self.duration = duration;
        Ok(())
    }
}

impl Clone for Song {
    fn clone(&self) -> (copy: Self)
        ensures
            copy@ == self@,
    {
        proof {
            use_type_invariant(self);
        }
        Song {
            id: self.id.clone(),
            file_path: self.file_path.clone(),
            title: self.title.clone(),
            artist: self.artist.clone(),
            album: self.album.clone(),
            duration: self.duration,
        }
    }
}

} // verus!
