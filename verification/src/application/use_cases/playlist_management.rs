//! Use cases on playlists.

use crate::application::use_cases::song_management::song_not_found;
use crate::domain::entities::playlist::{
    kept_description, name_refusal, without, Playlist, PlaylistView,
};
use crate::domain::entities::song::Song;
use crate::domain::value_objects::{PlaylistId, SongId};
use crate::shared::errors::{ApplicationError, DomainError};
use crate::stamp::Timestamp;
use crate::text::{joined, trimmed};
use vstd::prelude::*;

verus! {

#[derive(Debug, Clone)]
pub struct CreatePlaylistRequest {
    pub name: String,
    pub description: Option<String>,
}

#[derive(Debug, Clone)]
pub struct CreatePlaylistResponse {
    pub playlist_id: PlaylistId,
}

#[derive(Debug, Clone)]
pub struct AddSongToPlaylistRequest {
    pub playlist_id: PlaylistId,
    pub song_id: SongId,
}

#[derive(Debug, Clone)]
pub struct AddSongToPlaylistResponse {
    pub playlist_id: PlaylistId,
    pub song_id: SongId,
}

#[derive(Debug, Clone)]
pub struct RemoveSongFromPlaylistRequest {
    pub playlist_id: PlaylistId,
    pub song_id: SongId,
}

#[derive(Debug, Clone)]
pub struct RemoveSongFromPlaylistResponse {
    pub playlist_id: PlaylistId,
    pub song_id: SongId,
}

#[derive(Debug, Clone)]
pub struct GetPlaylistWithSongsRequest {
    pub playlist_id: PlaylistId,
}

#[derive(Debug, Clone)]
pub struct GetPlaylistWithSongsResponse {
    pub playlist: Playlist,
    pub songs: Vec<Song>,
}

#[derive(Debug, Clone)]
pub struct DeletePlaylistRequest {
    pub playlist_id: PlaylistId,
}

#[derive(Debug, Clone)]
pub struct DeletePlaylistResponse {
    pub playlist_id: PlaylistId,
}

/// The error for a playlist that is asked for and does not exist.
pub fn playlist_not_found(playlist_id: &PlaylistId) -> (error: ApplicationError)
    ensures
        error matches ApplicationError::UseCaseFailed(reason) && reason@
            == "Playlist not found: "@ + playlist_id@,
{
    ApplicationError::UseCaseFailed(joined("Playlist not found: ", playlist_id.as_str()))
}

/// Creates a playlist.
pub struct CreatePlaylistUseCase;

impl CreatePlaylistUseCase {
    /// The playlist to store for a request, with the given identifier and
    /// creation time, where `exists` says whether a playlist of that name is
    /// there already: a name is used once, and must be fit to name a
    /// playlist.
    pub fn decide_at(request: CreatePlaylistRequest, exists: bool, id: PlaylistId, now: Timestamp) -> (
        result: Result<(Playlist, CreatePlaylistResponse), ApplicationError>
    )
        ensures
            match result {
                Ok((playlist, response)) => !exists && name_refusal(request.name@) is None
                    && response.playlist_id@ == id@ && playlist@ == (PlaylistView {
                    id: id@,
                    name: trimmed(request.name@),
                    description: kept_description(request.description),
                    song_ids: Seq::empty(),
                    created_at: now,
                    updated_at: now,
                }),
                Err(ApplicationError::ValidationFailed(reason)) => exists && reason@
                    == "Playlist '"@ + request.name@ + "' already exists"@,
                Err(ApplicationError::Domain(DomainError::InvalidPlaylistName(reason))) => !exists
                    && name_refusal(request.name@) == Some(reason@),
                Err(_) => false,
            },
    {
        if exists {
            let mut reason = joined("Playlist '", request.name.as_str());
            reason.append("' already exists");
            return Err(ApplicationError::ValidationFailed(reason));
        }
        match Playlist::new_at(id, now, request.name, request.description) {
            Ok(playlist) => {
                let playlist_id = playlist.id().clone();
                Ok((playlist, CreatePlaylistResponse { playlist_id }))
            },
            Err(e) => Err(ApplicationError::Domain(e)),
        }
    }

    /// The playlist to store for a request, with a fresh random identifier
    /// and created now.
    pub fn decide(request: CreatePlaylistRequest, exists: bool) -> (result: Result<
        (Playlist, CreatePlaylistResponse),
        ApplicationError,
    >)
        ensures
            match result {
                Ok((playlist, response)) => !exists && name_refusal(request.name@) is None
                    && response.playlist_id@ == playlist@.id && playlist@.name == trimmed(
                    request.name@,
                ) && playlist@.description == kept_description(request.description)
                    && playlist@.song_ids.len() == 0 && playlist@.created_at
                    == playlist@.updated_at,
                Err(ApplicationError::ValidationFailed(reason)) => exists && reason@
                    == "Playlist '"@ + request.name@ + "' already exists"@,
                Err(ApplicationError::Domain(DomainError::InvalidPlaylistName(reason))) => !exists
                    && name_refusal(request.name@) == Some(reason@),
                Err(_) => false,
            },
    {
        Self::decide_at(request, exists, PlaylistId::new(), crate::stamp::current_time())
    }
}

/// Adds a song to a playlist.
pub struct AddSongToPlaylistUseCase;

impl AddSongToPlaylistUseCase {
    /// The playlist to store for a request, changed at `now`, and the place
    /// of the new song in it, where `playlist` and `song` are what the
    /// repositories hold under the request's identifiers: both must be
    /// there, and the playlist must not hold the song yet.
    pub fn decide_at(
        request: AddSongToPlaylistRequest,
        playlist: Option<Playlist>,
        song: Option<Song>,
        now: Timestamp,
    ) -> (result: Result<(Playlist, usize, AddSongToPlaylistResponse), ApplicationError>)
        ensures
            match result {
                Ok((changed, position, response)) => playlist matches Some(p) && song is Some
                    && !p@.song_ids.contains(request.song_id@) && changed@ == (PlaylistView {
                    song_ids: p@.song_ids.push(request.song_id@),
                    updated_at: now,
                    ..p@
                }) && position == p@.song_ids.len() && response.playlist_id
                    == request.playlist_id && response.song_id@ == request.song_id@,
                Err(ApplicationError::UseCaseFailed(reason)) => (playlist is None && reason@
                    == "Playlist not found: "@ + request.playlist_id@) || (playlist is Some
                    && song is None && reason@ == "Song not found: "@ + request.song_id@),
                Err(ApplicationError::Domain(DomainError::BusinessRuleViolation(reason))) =>
                    playlist matches Some(p) && song is Some && p@.song_ids.contains(
                    request.song_id@,
                ) && reason@ == "Song already exists in playlist"@,
                Err(_) => false,
            },
    {
        let mut playlist = match playlist {
            Some(playlist) => playlist,
            None => {
                return Err(playlist_not_found(&request.playlist_id));
            },
        };
        if song.is_none() {
            return Err(song_not_found(&request.song_id));
        }
        match playlist.add_song_at(request.song_id.clone(), now) {
            Ok(()) => {},
            Err(e) => {
                return Err(ApplicationError::Domain(e));
            },
        }
        let position = playlist.song_count() - 1;
        Ok(
            (
                playlist,
                position,
                AddSongToPlaylistResponse {
                    playlist_id: request.playlist_id,
                    song_id: request.song_id,
                },
            ),
        )
    }
}

/// Removes a song from a playlist.
pub struct RemoveSongFromPlaylistUseCase;

impl RemoveSongFromPlaylistUseCase {
    /// The playlist to store for a request, changed at `now`, where
    /// `playlist` is what the repository holds under the request's
    /// identifier: it must be there and hold the song.
    pub fn decide_at(
        request: RemoveSongFromPlaylistRequest,
        playlist: Option<Playlist>,
        now: Timestamp,
    ) -> (result: Result<(Playlist, RemoveSongFromPlaylistResponse), ApplicationError>)
        ensures
            match result {
                Ok((changed, response)) => playlist matches Some(p) && p@.song_ids.contains(
                    request.song_id@,
                ) && changed@ == (PlaylistView {
                    song_ids: without(p@.song_ids, request.song_id@),
                    updated_at: now,
                    ..p@
                }) && response.playlist_id == request.playlist_id && response.song_id
                    == request.song_id,
                Err(ApplicationError::UseCaseFailed(reason)) => playlist is None && reason@
                    == "Playlist not found: "@ + request.playlist_id@,
                Err(ApplicationError::Domain(DomainError::SongNotFound(missing))) =>
                    playlist matches Some(p) && !p@.song_ids.contains(request.song_id@) && missing@
                    == request.song_id@,
                Err(_) => false,
            },
    {
        let mut playlist = match playlist {
            Some(playlist) => playlist,
            None => {
                return Err(playlist_not_found(&request.playlist_id));
            },
        };
        match playlist.remove_song_at(&request.song_id, now) {
            Ok(()) => {},
            Err(e) => {
                return Err(ApplicationError::Domain(e));
            },
        }
        Ok(
            (
                playlist,
                RemoveSongFromPlaylistResponse {
                    playlist_id: request.playlist_id,
                    song_id: request.song_id,
                },
            ),
        )
    }
}

/// Gets a playlist with its songs.
pub struct GetPlaylistWithSongsUseCase;

impl GetPlaylistWithSongsUseCase {
    /// The playlist of a request, where `playlist` is what the repository
    /// holds under the request's identifier: it must be there before its
    /// songs are asked for.
    pub fn found(request: &GetPlaylistWithSongsRequest, playlist: Option<Playlist>) -> (result:
        Result<Playlist, ApplicationError>)
        ensures
            match result {
                Ok(p) => playlist == Some(p),
                Err(ApplicationError::UseCaseFailed(reason)) => playlist is None && reason@
                    == "Playlist not found: "@ + request.playlist_id@,
                Err(_) => false,
            },
    {
        match playlist {
            Some(playlist) => Ok(playlist),
            None => Err(playlist_not_found(&request.playlist_id)),
        }
    }

    /// The response with the playlist and the songs that the repository
    /// handed over.
    pub fn respond(playlist: Playlist, songs: Vec<Song>) -> (response: GetPlaylistWithSongsResponse)
        ensures
            response.playlist == playlist,
            response.songs == songs,
    {
        GetPlaylistWithSongsResponse { playlist, songs }
    }
}

/// Deletes a playlist.
pub struct DeletePlaylistUseCase;

impl DeletePlaylistUseCase {
    /// Whether the playlist of a request is to be emptied and deleted,
    /// where `playlist` is what the repository holds under the request's
    /// identifier: only a playlist that is there is deleted.
    pub fn respond(request: DeletePlaylistRequest, playlist: Option<Playlist>) -> (result: Result<
        DeletePlaylistResponse,
        ApplicationError,
    >)
        ensures
            match result {
                Ok(response) => playlist is Some && response.playlist_id == request.playlist_id,
                Err(ApplicationError::UseCaseFailed(reason)) => playlist is None && reason@
                    == "Playlist not found: "@ + request.playlist_id@,
                Err(_) => false,
            },
    {
        match playlist {
            Some(_) => Ok(DeletePlaylistResponse { playlist_id: request.playlist_id }),
            None => Err(playlist_not_found(&request.playlist_id)),
        }
    }
}

} // verus!
