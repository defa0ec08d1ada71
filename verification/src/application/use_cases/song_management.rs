//! Use cases on songs.

use crate::domain::entities::song::{Song, SongView};
use crate::domain::value_objects::{Duration, FilePath, SongId};
use crate::ids::md5_hex;
use crate::shared::errors::{ApplicationError, DomainError};
use crate::text::{is_blank, joined, lemma_trimmed_shape, trimmed};
use vstd::prelude::*;

verus! {

#[derive(Debug, Clone)]
pub struct AddSongRequest {
    pub file_path: FilePath,
    pub title: String,
    pub artist: String,
    pub album: String,
    pub duration: Duration,
}

#[derive(Debug, Clone)]
pub struct AddSongResponse {
    pub song_id: SongId,
    pub was_created: bool,
}

#[derive(Debug, Clone)]
pub struct SearchSongsRequest {
    pub query: String,
}

#[derive(Debug, Clone)]
pub struct SearchSongsResponse {
    pub songs: Vec<Song>,
}

#[derive(Debug, Clone)]
pub struct GetSongRequest {
    pub song_id: SongId,
}

#[derive(Debug, Clone)]
pub struct GetSongResponse {
    pub song: Song,
}

#[derive(Debug, Clone)]
pub struct RemoveSongRequest {
    pub song_id: SongId,
}

#[derive(Debug, Clone)]
pub struct RemoveSongResponse {
    pub song_id: SongId,
}

/// The error for a song that is asked for and is not in the library.
pub fn song_not_found(song_id: &SongId) -> (error: ApplicationError)
    ensures
        error matches ApplicationError::UseCaseFailed(reason) && reason@ == "Song not found: "@
            + song_id@,
{
    ApplicationError::UseCaseFailed(joined("Song not found: ", song_id.as_str()))
}

/// Adds a song to the library.
pub struct AddSongUseCase;

/// What is to be done about a song that is to be added.
pub enum AddSongDecision {
    /// The library holds a song at that path: nothing is stored.
    Known(AddSongResponse),
    /// The song is to be stored.
    Store(Song, AddSongResponse),
}

impl AddSongUseCase {
    /// Decides what to do about a request, where `exists` says whether the
    /// library holds a song at the request's path already. A song that is
    /// there is not touched; a new song must have a title.
    pub fn decide(request: AddSongRequest, exists: bool) -> (result: Result<
        AddSongDecision,
        ApplicationError,
    >)
        ensures
            match result {
                Ok(AddSongDecision::Known(response)) => exists && !response.was_created
                    && response.song_id@ == md5_hex(request.file_path@),
                Ok(AddSongDecision::Store(song, response)) => !exists && !is_blank(request.title@)
                    && response.was_created && response.song_id@ == md5_hex(request.file_path@)
                    && song@ == (SongView {
                    id: md5_hex(request.file_path@),
                    file_path: request.file_path@,
                    title: trimmed(request.title@),
                    artist: trimmed(request.artist@),
                    album: trimmed(request.album@),
                    duration: request.duration@,
                }),
                Err(ApplicationError::Domain(DomainError::InvalidSongTitle(reason))) => !exists
                    && is_blank(request.title@) && reason@ == "Title cannot be empty"@,
                Err(_) => false,
            },
    {
        if exists {
            return Ok(
                AddSongDecision::Known(
                    AddSongResponse {
                        song_id: SongId::from_path(&request.file_path),
                        was_created: false,
                    },
                ),
            );
        }
        match Song::new(
            request.file_path,
            request.title,
            request.artist,
            request.album,
            request.duration,
        ) {
            Ok(song) => {
                let song_id = song.id().clone();
                Ok(AddSongDecision::Store(song, AddSongResponse { song_id, was_created: true }))
            },
            Err(e) => Err(ApplicationError::Domain(e)),
        }
    }
}

/// Searches the library.
pub struct SearchSongsUseCase;

/// How the library is to be asked.
#[derive(Debug, Clone, Copy, PartialEq, Eq, Structural)]
pub enum SearchPlan {
    /// Every song is wanted.
    FindAll,
    /// The songs that match the request's query are wanted.
    Search,
}

impl SearchSongsUseCase {
    /// How the library is to be asked: for every song where the query is
    /// blank, for the matching ones otherwise.
    pub fn plan(request: &SearchSongsRequest) -> (plan: SearchPlan)
        ensures
            plan == if is_blank(request.query@) {
                SearchPlan::FindAll
            } else {
                SearchPlan::Search
            },
    {
        proof {
            lemma_trimmed_shape(request.query@);
        }
        if request.query.as_str().trim().is_empty() {
            SearchPlan::FindAll
        } else {
            SearchPlan::Search
        }
    }

    /// The response with the songs that the library handed over.
    pub fn respond(songs: Vec<Song>) -> (response: SearchSongsResponse)
        ensures
            response.songs == songs,
    {
        SearchSongsResponse { songs }
    }
}

/// Gets the details of a song.
pub struct GetSongUseCase;

impl GetSongUseCase {
    /// The response to a request, where `found` is what the library holds
    /// under the request's identifier.
    pub fn respond(request: &GetSongRequest, found: Option<Song>) -> (result: Result<
        GetSongResponse,
        ApplicationError,
    >)
        ensures
            match result {
                Ok(response) => found == Some(response.song),
                Err(ApplicationError::UseCaseFailed(reason)) => found is None && reason@
                    == "Song not found: "@ + request.song_id@,
                Err(_) => false,
            },
    {
        match found {
            Some(song) => Ok(GetSongResponse { song }),
            None => Err(song_not_found(&request.song_id)),
        }
    }
}

/// Removes a song from the library.
pub struct RemoveSongUseCase;

impl RemoveSongUseCase {
    /// Whether the song of a request is to be deleted, where `found` is
    /// what the library holds under the request's identifier: only a song
    /// that is there is deleted.
    pub fn respond(request: RemoveSongRequest, found: Option<Song>) -> (result: Result<
        RemoveSongResponse,
        ApplicationError,
    >)
        ensures
            match result {
                Ok(response) => found is Some && response.song_id == request.song_id,
                Err(ApplicationError::UseCaseFailed(reason)) => found is None && reason@
                    == "Song not found: "@ + request.song_id@,
                Err(_) => false,
            },
    {
        match found {
            Some(_) => Ok(RemoveSongResponse { song_id: request.song_id }),
            None => Err(song_not_found(&request.song_id)),
        }
    }
}

} // verus!
