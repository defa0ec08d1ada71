//! The use cases.

pub mod playlist_management;
pub mod song_management;

pub use playlist_management::{
    AddSongToPlaylistRequest, AddSongToPlaylistResponse, AddSongToPlaylistUseCase,
    CreatePlaylistRequest, CreatePlaylistResponse, CreatePlaylistUseCase, DeletePlaylistRequest,
    DeletePlaylistResponse, DeletePlaylistUseCase, GetPlaylistWithSongsRequest,
    GetPlaylistWithSongsResponse, GetPlaylistWithSongsUseCase, RemoveSongFromPlaylistRequest,
    RemoveSongFromPlaylistResponse, RemoveSongFromPlaylistUseCase,
};
pub use song_management::{
    AddSongRequest, AddSongResponse, AddSongUseCase, GetSongRequest, GetSongResponse,
    GetSongUseCase, RemoveSongRequest, RemoveSongResponse, RemoveSongUseCase, SearchSongsRequest,
    SearchSongsResponse, SearchSongsUseCase,
};
