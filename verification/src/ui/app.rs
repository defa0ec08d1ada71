//! The state of the user interface and what each user action does to it.
//! The database, the audio thread and the terminal stay with the caller.

use crate::audio::player::{PlaybackStatus, PlayerState};
use crate::commands::search::SearchCommand;
use crate::config::layout_config::LayoutConfig;
use crate::models::playback::PlaybackState;
use crate::models::playlist::Playlist;
use crate::models::song::Song;
use crate::text::lowercase;
use crate::ui::theme::{builtin_name, Themes};
use vstd::prelude::*;

verus! {

#[derive(Debug, Clone, Copy, PartialEq, Eq, Structural)]
pub enum InputMode {
    Normal,
    Search,
    PlaylistCreate,
    PlaylistEdit,
}

#[derive(Debug, Clone, Copy, PartialEq, Eq, Structural)]
pub enum ActivePanel {
    Playlists,
    Songs,
    AlbumArt,
}

#[derive(Debug, Clone, PartialEq, Eq)]
pub enum ViewMode {
    Library,
    Playlist(String),
}

/// What the scan of the music directory reports while it runs.
#[derive(Debug, Clone, PartialEq, Eq)]
pub enum ScanEvent {
    /// The scan has found so many files.
    ScanStarted(usize),
    FileProcessed,
    ScanFinished,
    ScanError(String),
}

/// What is to happen after the end of a song.
#[derive(Debug, Clone, Copy, PartialEq, Eq, Structural)]
pub enum NextStep {
    /// There is no list to go on in.
    Nothing,
    /// The song at this place of the list is to be played.
    Play(usize),
    /// The list is at its end: playback is to be stopped.
    Stop,
}

/// What selecting the entry under the cursor asks for.
#[derive(Debug, Clone, Copy, PartialEq, Eq, Structural)]
pub enum Selection {
    Nothing,
    /// Play the listed song at this place.
    PlaySong(usize),
    /// Show the playlist at this place.
    OpenPlaylist(usize),
}

/// What the play/pause key asks for.
#[derive(Debug, Clone, Copy, PartialEq, Eq, Structural)]
pub enum Toggle {
    Pause,
    Resume,
    /// Nothing plays: select the entry under the cursor.
    Select,
}

/// The state of the user interface.
#[derive(Debug)]
pub struct AppState {
    pub songs: Vec<Song>,
    pub filtered_songs: Vec<Song>,
    pub playlists: Vec<Playlist>,
    pub selected_song_index: usize,
    pub selected_playlist_index: usize,
    pub active_panel: ActivePanel,
    pub view_mode: ViewMode,
    pub search_query: String,
    pub input_mode: InputMode,
    pub playback_status: PlaybackStatus,
    pub playback_state: PlaybackState,
    pub show_album_art: bool,
    pub current_album_art: Option<String>,
    pub should_quit: bool,
    pub is_scanning: bool,
    /// Files scanned so far, and files found.
    pub scan_progress: (usize, usize),
}

/// The panel after `panel` in the round of panels; the album art is part
/// of the round only while it is shown.
pub open spec fn panel_after(panel: ActivePanel, show_album_art: bool) -> ActivePanel {
    match panel {
        ActivePanel::Playlists => ActivePanel::Songs,
        ActivePanel::Songs => if show_album_art {
            ActivePanel::AlbumArt
        } else {
            ActivePanel::Playlists
        },
        ActivePanel::AlbumArt => ActivePanel::Playlists,
    }
}

/// The panel before `panel` in the round of panels.
pub open spec fn panel_before(panel: ActivePanel, show_album_art: bool) -> ActivePanel {
    match panel {
        ActivePanel::Playlists => if show_album_art {
            ActivePanel::AlbumArt
        } else {
            ActivePanel::Songs
        },
        ActivePanel::Songs => ActivePanel::Playlists,
        ActivePanel::AlbumArt => ActivePanel::Songs,
    }
}

/// The place above `selected` in a list of `length` entries, wrapping from
/// the first to the last; an empty list keeps the place as it is.
pub open spec fn place_above(selected: usize, length: usize) -> usize {
    if length == 0 {
        selected
    } else if selected > 0 {
        (selected - 1) as usize
    } else {
        (length - 1) as usize
    }
}

/// The place below `selected` in a list of `length` entries, wrapping from
/// the last to the first; an empty list keeps the place as it is.
pub open spec fn place_below(selected: usize, length: usize) -> usize {
    if length == 0 {
        selected
    } else if selected < length - 1 {
        (selected + 1) as usize
    } else {
        0
    }
}

/// The songs that are listed under a search query.
pub open spec fn listed(songs: Seq<Song>, query: Seq<char>) -> Seq<Song> {
    if query.len() == 0 {
        songs
    } else {
        songs.filter(|s: Song| SearchCommand::answers(s, lowercase(query)))
    }
}

/// The place of the first song at `path`.
pub open spec fn first_at(songs: Seq<Song>, path: Seq<char>, from: int) -> Option<int>
    decreases songs.len() - from,
{
    if from < 0 || from >= songs.len() {
        None
    } else if songs[from].path@ == path {
        Some(from)
    } else {
        first_at(songs, path, from + 1)
    }
}

/// The place of the first theme called `name`.
pub open spec fn first_theme(name: Seq<char>, from: int) -> Option<int>
    decreases 6 - from,
{
    if from < 0 || from >= 6 {
        None
    } else if builtin_name(from) == name {
        Some(from)
    } else {
        first_theme(name, from + 1)
    }
}

fn copy_of_songs(songs: &Vec<Song>) -> (copy: Vec<Song>)
    ensures
        copy@ == songs@,
{
    let mut copy: Vec<Song> = Vec::new();
    let mut i: usize = 0;
    while i < songs.len()
        invariant
            i <= songs.len(),
            copy@ == songs@.take(i as int),
        decreases songs.len() - i,
    {
        copy.push(songs[i].clone());
        i += 1;
        assert(copy@ =~= songs@.take(i as int));
    }
    assert(songs@.take(songs.len() as int) =~= songs@);
    copy
}

impl Default for AppState {
    fn default() -> (state: Self)
        ensures
            state.is_initial(),
    {
        AppState {
            songs: Vec::new(),
            filtered_songs: Vec::new(),
            playlists: Vec::new(),
            selected_song_index: 0,
            selected_playlist_index: 0,
            active_panel: ActivePanel::Songs,
            view_mode: ViewMode::Library,
            search_query: String::new(),
            input_mode: InputMode::Normal,
            playback_status: PlaybackStatus::default(),
            playback_state: PlaybackState::default(),
            show_album_art: true,
            current_album_art: None,
            should_quit: false,
            is_scanning: false,
            scan_progress: (0, 0),
        }
    }
}

impl AppState {
    /// The state the user interface starts in.
    pub open spec fn is_initial(self) -> bool {
        &&& self.songs@.len() == 0
        &&& self.filtered_songs@.len() == 0
        &&& self.playlists@.len() == 0
        &&& self.selected_song_index == 0
        &&& self.selected_playlist_index == 0
        &&& self.active_panel == ActivePanel::Songs
        &&& self.view_mode == ViewMode::Library
        &&& self.search_query@.len() == 0
        &&& self.input_mode == InputMode::Normal
        &&& self.playback_status == PlaybackStatus::idle()
        &&& self.playback_state.is_initial()
        &&& self.show_album_art
        &&& self.current_album_art is None
        &&& !self.should_quit
        &&& !self.is_scanning
        &&& self.scan_progress == (0usize, 0usize)
    }

    /// Lists the songs that the search query admits, all of them where
    /// there is no query, and moves the selection to the first song where it
    /// pointed past the list.
    pub fn update_filtered_songs(&mut self)
        ensures
            final(self).filtered_songs@ == listed(old(self).songs@, old(self).search_query@),
            final(self).selected_song_index == if old(self).selected_song_index >= final(self).filtered_songs@.len() {
                0
            } else {
                old(self).selected_song_index
            },
            *final(self) == (AppState {
                filtered_songs: final(self).filtered_songs,
                selected_song_index: final(self).selected_song_index,
                ..*old(self)
            }),
    {
        if self.search_query.as_str().is_empty() {
            self.filtered_songs = copy_of_songs(&self.songs);
        } else {
            let query_lower = self.search_query.as_str().to_lowercase();
            let found = SearchCommand::select_with(&self.songs, query_lower.as_str());
            let mut filtered: Vec<Song> = Vec::new();
            let mut i: usize = 0;
            while i < found.len()
                invariant
                    i <= found.len(),
                    filtered@.len() == i,
                    forall|j: int| 0 <= j < i ==> filtered@[j] == *found@[j],
                decreases found.len() - i,
            {
                filtered.push(found[i].clone());
                i += 1;
            }
            assert(filtered@ =~= crate::commands::referred_songs(found@));
            self.filtered_songs = filtered;
        }
        if self.selected_song_index >= self.filtered_songs.len() {
            self.selected_song_index = 0;
        }
    }

    /// After the playlists were loaded: a selection that points past them
    /// moves to the last playlist, or to the first place where there is
    /// none.
    pub fn clamp_playlist_selection(&mut self)
        ensures
            final(self).selected_playlist_index == if old(self).playlists@.len() == 0 {
                0
            } else if old(self).selected_playlist_index >= old(self).playlists@.len() {
                (old(self).playlists@.len() - 1) as usize
            } else {
                old(self).selected_playlist_index
            },
            *final(self) == (AppState {
                selected_playlist_index: final(self).selected_playlist_index,
                ..*old(self)
            }),
    {
        if self.selected_playlist_index >= self.playlists.len() && self.playlists.len() > 0 {
            self.selected_playlist_index = self.playlists.len() - 1;
        } else if self.playlists.len() == 0 {
            self.selected_playlist_index = 0;
        }
    }

    /// Moves to the next panel.
    pub fn switch_to_next_panel(&mut self)
        ensures
            *final(self) == (AppState {
                active_panel: panel_after(old(self).active_panel, old(self).show_album_art),
                ..*old(self)
            }),
    {
        self.active_panel = match self.active_panel {
            ActivePanel::Playlists => ActivePanel::Songs,
            ActivePanel::Songs => {
                if self.show_album_art {
                    ActivePanel::AlbumArt
                } else {
                    ActivePanel::Playlists
                }
            },
            ActivePanel::AlbumArt => ActivePanel::Playlists,
        };
    }

    /// Moves to the previous panel.
    pub fn switch_to_previous_panel(&mut self)
        ensures
            *final(self) == (AppState {
                active_panel: panel_before(old(self).active_panel, old(self).show_album_art),
                ..*old(self)
            }),
    {
        self.active_panel = match self.active_panel {
            ActivePanel::Playlists => {
                if self.show_album_art {
                    ActivePanel::AlbumArt
                } else {
                    ActivePanel::Songs
                }
            },
            ActivePanel::Songs => ActivePanel::Playlists,
            ActivePanel::AlbumArt => ActivePanel::Songs,
        };
    }

    /// Moves the selection of the active panel up by one, wrapping around.
    pub fn move_selection_up(&mut self)
        ensures
            *final(self) == (AppState {
                selected_song_index: if old(self).active_panel == ActivePanel::Songs {
                    place_above(
                        old(self).selected_song_index,
                        old(self).filtered_songs@.len() as usize,
                    )
                } else {
                    old(self).selected_song_index
                },
                selected_playlist_index: if old(self).active_panel == ActivePanel::Playlists {
                    place_above(
                        old(self).selected_playlist_index,
                        old(self).playlists@.len() as usize,
                    )
                } else {
                    old(self).selected_playlist_index
                },
                ..*old(self)
            }),
    {
        match self.active_panel {
            ActivePanel::Songs => {
                if self.filtered_songs.len() > 0 {
                    if self.selected_song_index > 0 {
                        self.selected_song_index = self.selected_song_index - 1;
                    } else {
                        self.selected_song_index = self.filtered_songs.len() - 1;
                    }
                }
            },
            ActivePanel::Playlists => {
                if self.playlists.len() > 0 {
                    if self.selected_playlist_index > 0 {
                        self.selected_playlist_index = self.selected_playlist_index - 1;
                    } else {
                        self.selected_playlist_index = self.playlists.len() - 1;
                    }
                }
            },
            ActivePanel::AlbumArt => {},
        }
    }

    /// Moves the selection of the active panel down by one, wrapping
    /// around.
    pub fn move_selection_down(&mut self)
        ensures
            *final(self) == (AppState {
                selected_song_index: if old(self).active_panel == ActivePanel::Songs {
                    place_below(
                        old(self).selected_song_index,
                        old(self).filtered_songs@.len() as usize,
                    )
                } else {
                    old(self).selected_song_index
                },
                selected_playlist_index: if old(self).active_panel == ActivePanel::Playlists {
                    place_below(
                        old(self).selected_playlist_index,
                        old(self).playlists@.len() as usize,
                    )
                } else {
                    old(self).selected_playlist_index
                },
                ..*old(self)
            }),
    {
        match self.active_panel {
            ActivePanel::Songs => {
                if self.filtered_songs.len() > 0 {
                    if self.selected_song_index < self.filtered_songs.len() - 1 {
                        self.selected_song_index = self.selected_song_index + 1;
                    } else {
                        self.selected_song_index = 0;
                    }
                }
            },
            ActivePanel::Playlists => {
                if self.playlists.len() > 0 {
                    if self.selected_playlist_index < self.playlists.len() - 1 {
                        self.selected_playlist_index = self.selected_playlist_index + 1;
                    } else {
                        self.selected_playlist_index = 0;
                    }
                }
            },
            ActivePanel::AlbumArt => {},
        }
    }

    /// Starts typing a search query.
    pub fn enter_search_mode(&mut self)
        ensures
            *final(self) == (AppState { input_mode: InputMode::Search, ..*old(self) }),
    {
        self.input_mode = InputMode::Search;
    }

    /// Stops typing a search query.
    pub fn exit_search_mode(&mut self)
        ensures
            *final(self) == (AppState { input_mode: InputMode::Normal, ..*old(self) }),
    {
        self.input_mode = InputMode::Normal;
    }

    /// Starts typing the name of a new playlist.
    pub fn enter_playlist_create_mode(&mut self)
        ensures
            *final(self) == (AppState { input_mode: InputMode::PlaylistCreate, ..*old(self) }),
    {
        self.input_mode = InputMode::PlaylistCreate;
    }

    /// Starts editing the name of the selected playlist, if there is one,
    /// and hands back that name.
    pub fn enter_playlist_edit_mode(&mut self) -> (name: Option<String>)
        ensures
            match name {
                Some(n) => old(self).selected_playlist_index < old(self).playlists@.len() && n
                    == old(self).playlists@[old(self).selected_playlist_index as int].name
                    && *final(self) == (AppState {
                    input_mode: InputMode::PlaylistEdit,
                    ..*old(self)
                }),
                None => old(self).selected_playlist_index >= old(self).playlists@.len()
                    && *final(self) == *old(self),
            },
    {
        if self.selected_playlist_index < self.playlists.len() {
            self.input_mode = InputMode::PlaylistEdit;
            Some(self.playlists[self.selected_playlist_index].name.clone())
        } else {
            None
        }
    }

    /// Stops typing.
    pub fn exit_input_mode(&mut self)
        ensures
            *final(self) == (AppState { input_mode: InputMode::Normal, ..*old(self) }),
    {
        self.input_mode = InputMode::Normal;
    }

    /// Takes over the search query as typed: where it differs from the
    /// query in use, the listed songs follow it.
    pub fn update_search_query(&mut self, new_query: String)
        ensures
            final(self).search_query@ == new_query@,
            new_query@ == old(self).search_query@ ==> *final(self) == *old(self),
            new_query@ != old(self).search_query@ ==> {
                &&& final(self).filtered_songs@ == listed(old(self).songs@, new_query@)
                &&& final(self).selected_song_index == if old(self).selected_song_index >= final(self).filtered_songs@.len() {
                    0
                } else {
                    old(self).selected_song_index
                }
                &&& *final(self) == (AppState {
                    search_query: final(self).search_query,
                    filtered_songs: final(self).filtered_songs,
                    selected_song_index: final(self).selected_song_index,
                    ..*old(self)
                })
            },
    {
        if !new_query.as_str().eq(self.search_query.as_str()) {
            self.search_query = new_query;
            self.update_filtered_songs();
        }
    }

    /// Drops the search query: every song is listed again.
    pub fn clear_search(&mut self)
        ensures
            final(self).search_query@.len() == 0,
            final(self).filtered_songs@ == old(self).songs@,
            final(self).selected_song_index == if old(self).selected_song_index >= old(self).songs@.len() {
                0
            } else {
                old(self).selected_song_index
            },
            *final(self) == (AppState {
                search_query: final(self).search_query,
                filtered_songs: final(self).filtered_songs,
                selected_song_index: final(self).selected_song_index,
                ..*old(self)
            }),
    {
        self.search_query = String::new();
        self.update_filtered_songs();
    }

    /// What selecting the entry under the cursor asks for: the selected
    /// song is played, the selected playlist is shown, where there is one.
    pub fn selection(&self) -> (selection: Selection)
        ensures
            selection == match self.active_panel {
                ActivePanel::Songs => if self.selected_song_index < self.filtered_songs@.len() {
                    Selection::PlaySong(self.selected_song_index)
                } else {
                    Selection::Nothing
                },
                ActivePanel::Playlists => if self.selected_playlist_index
                    < self.playlists@.len() {
                    Selection::OpenPlaylist(self.selected_playlist_index)
                } else {
                    Selection::Nothing
                },
                ActivePanel::AlbumArt => Selection::Nothing,
            },
    {
        match self.active_panel {
            ActivePanel::Songs => {
                if self.selected_song_index < self.filtered_songs.len() {
                    Selection::PlaySong(self.selected_song_index)
                } else {
                    Selection::Nothing
                }
            },
            ActivePanel::Playlists => {
                if self.selected_playlist_index < self.playlists.len() {
                    Selection::OpenPlaylist(self.selected_playlist_index)
                } else {
                    Selection::Nothing
                }
            },
            ActivePanel::AlbumArt => Selection::Nothing,
        }
    }

    /// What the play/pause key asks for: a playing song is paused, a paused
    /// one resumed, and where nothing plays the entry under the cursor is
    /// selected.
    pub fn toggle(&self) -> (toggle: Toggle)
        ensures
            toggle == match self.playback_status.state {
                PlayerState::Playing => Toggle::Pause,
                PlayerState::Paused => Toggle::Resume,
                PlayerState::Stopped => Toggle::Select,
            },
    {
        match self.playback_status.state {
            PlayerState::Playing => Toggle::Pause,
            PlayerState::Paused => Toggle::Resume,
            PlayerState::Stopped => Toggle::Select,
        }
    }

    /// Whether the playlist called `playlist_name` is the one shown.
    pub fn is_viewing(&self, playlist_name: &str) -> (viewing: bool)
        ensures
            viewing == (self.view_mode matches ViewMode::Playlist(shown) && shown@
                == playlist_name@),
    {
        match &self.view_mode {
            ViewMode::Playlist(shown) => shown.as_str().eq(playlist_name),
            ViewMode::Library => false,
        }
    }

    /// Asks for the end of the program.
    pub fn quit(&mut self)
        ensures
            *final(self) == (AppState { should_quit: true, ..*old(self) }),
    {
        self.should_quit = true;
    }

    /// The song that plays: the first song whose path is the one the player
    /// reports.
    pub fn get_current_song(&self) -> (song: Option<&Song>)
        ensures
            match song {
                Some(s) => self.playback_status.current_song matches Some(path) && first_at(
                    self.songs@,
                    path@,
                    0,
                ) matches Some(i) && *s == self.songs@[i],
                None => self.playback_status.current_song matches Some(path) ==> first_at(
                    self.songs@,
                    path@,
                    0,
                ) is None,
            },
    {
        match &self.playback_status.current_song {
            Some(path) => {
                let mut i: usize = 0;
                while i < self.songs.len()
                    invariant
                        i <= self.songs.len(),
                        self.playback_status.current_song == Some(*path),
                        first_at(self.songs@, path@, 0) == first_at(self.songs@, path@, i as int),
                    decreases self.songs.len() - i,
                {
                    if self.songs[i].path.as_str().eq(path.as_str()) {
                        assert(first_at(self.songs@, path@, i as int) == Some(i as int));
                        return Some(&self.songs[i]);
                    }
                    i += 1;
                }
                None
            },
            None => None,
        }
    }

    /// The song that is selected in the list.
    pub fn get_selected_song(&self) -> (song: Option<&Song>)
        ensures
            match song {
                Some(s) => self.selected_song_index < self.filtered_songs@.len() && *s
                    == self.filtered_songs@[self.selected_song_index as int],
                None => self.selected_song_index >= self.filtered_songs@.len(),
            },
    {
        if self.selected_song_index < self.filtered_songs.len() {
            Some(&self.filtered_songs[self.selected_song_index])
        } else {
            None
        }
    }

    /// The input mode.
    pub fn get_input_mode(&self) -> (mode: &InputMode)
        ensures
            *mode == self.input_mode,
    {
        &self.input_mode
    }

    /// Whether the end of the program was asked for.
    pub fn should_quit(&self) -> (quit: bool)
        ensures
            quit == self.should_quit,
    {
        self.should_quit
    }

    /// The name of the playlist that is shown, if one is.
    pub fn get_current_playlist_name(&self) -> (name: Option<&str>)
        ensures
            match (self.view_mode, name) {
                (ViewMode::Playlist(shown), Some(n)) => n@ == shown@,
                (ViewMode::Library, None) => true,
                _ => false,
            },
    {
        match &self.view_mode {
            ViewMode::Playlist(name) => Some(name.as_str()),
            ViewMode::Library => None,
        }
    }

    /// Shows the playlist called `playlist_name` in the songs panel. The
    /// caller loads its songs.
    pub fn switch_to_playlist(&mut self, playlist_name: &str)
        ensures
            final(self).view_mode matches ViewMode::Playlist(shown) && shown@ == playlist_name@,
            *final(self) == (AppState {
                view_mode: final(self).view_mode,
                active_panel: ActivePanel::Songs,
                ..*old(self)
            }),
    {
        self.view_mode = ViewMode::Playlist(playlist_name.to_string());
        self.active_panel = ActivePanel::Songs;
    }

    /// Shows the whole library in the songs panel. The caller loads its
    /// songs.
    pub fn switch_to_library(&mut self)
        ensures
            *final(self) == (AppState {
                view_mode: ViewMode::Library,
                active_panel: ActivePanel::Songs,
                ..*old(self)
            }),
    {
        self.view_mode = ViewMode::Library;
        self.active_panel = ActivePanel::Songs;
    }

    /// Switches the album art on or off. Switching it off drops the art
    /// that is shown and leaves the album art panel for the songs panel.
    pub fn toggle_album_art(&mut self)
        ensures
            *final(self) == if old(self).show_album_art {
                AppState {
                    show_album_art: false,
                    current_album_art: None,
                    active_panel: if old(self).active_panel == ActivePanel::AlbumArt {
                        ActivePanel::Songs
                    } else {
                        old(self).active_panel
                    },
                    ..*old(self)
                }
            } else {
                AppState { show_album_art: true, ..*old(self) }
            },
    {
        self.show_album_art = !self.show_album_art;
        if !self.show_album_art {
            self.current_album_art = None;
            if let ActivePanel::AlbumArt = self.active_panel {
                self.active_panel = ActivePanel::Songs;
            }
        }
    }

    /// The song whose art is shown when no song was asked for: the one that
    /// plays, else the one that is selected.
    pub fn song_for_art(&self) -> (song: Option<&Song>)
        ensures
            match song {
                Some(s) => if self.playback_status.current_song matches Some(path) && first_at(
                    self.songs@,
                    path@,
                    0,
                ) is Some {
                    *s == self.songs@[first_at(
                        self.songs@,
                        self.playback_status.current_song->0@,
                        0,
                    )->0]
                } else {
                    self.selected_song_index < self.filtered_songs@.len() && *s
                        == self.filtered_songs@[self.selected_song_index as int]
                },
                None => self.selected_song_index >= self.filtered_songs@.len() && (
                self.playback_status.current_song matches Some(path) ==> first_at(
                    self.songs@,
                    path@,
                    0,
                ) is None),
            },
    {
        match self.get_current_song() {
            Some(song) => Some(song),
            None => self.get_selected_song(),
        }
    }

    /// Whether the end of a song is to be followed by the next one: the
    /// player reports that it has stopped without a song, and a playlist is
    /// shown.
    pub fn song_completed(&self, status: &PlaybackStatus) -> (completed: bool)
        ensures
            completed == (status.state == PlayerState::Stopped && status.current_song is None
                && self.view_mode is Playlist),
    {
        let in_playlist = match &self.view_mode {
            ViewMode::Playlist(_) => true,
            ViewMode::Library => false,
        };
        status.state == PlayerState::Stopped && status.current_song.is_none() && in_playlist
    }

    /// Asks the sequencer where playback goes in the listed songs and
    /// selects that song. The song becomes the current one once the caller
    /// reports that it has started.
    pub fn advance_to_next_song(&mut self) -> (step: NextStep)
        ensures
            old(self).filtered_songs@.len() == 0 ==> step == NextStep::Nothing && *final(self)
                == *old(self),
            old(self).filtered_songs@.len() > 0 ==> {
                let next = match step {
                    NextStep::Play(i) => Some(i),
                    _ => None,
                };
                &&& step != NextStep::Nothing
                &&& final(self).playback_state.advanced_from(
                    old(self).playback_state,
                    old(self).filtered_songs@.len() as usize,
                    next,
                )
                &&& *final(self) == (AppState {
                    playback_state: final(self).playback_state,
                    selected_song_index: match step {
                        NextStep::Play(i) => i,
                        _ => old(self).selected_song_index,
                    },
                    ..*old(self)
                })
            },
    {
        if self.filtered_songs.len() == 0 {
            return NextStep::Nothing;
        }
        let playlist_size = self.filtered_songs.len();
        match self.playback_state.next_song_index(playlist_size) {
            Some(next_index) => {
                self.selected_song_index = next_index;
                NextStep::Play(next_index)
            },
            None => NextStep::Stop,
        }
    }

    /// Records that the song at `index` of the listed songs has started.
    pub fn song_started(&mut self, index: usize)
        ensures
            final(self).playback_state.current_song_index == index,
            if old(self).playback_state.shuffle && old(self).playback_state.shuffle_queue@.len()
                == 0 && old(self).filtered_songs@.len() > 0 {
                final(self).playback_state.shuffle_enabled_from(
                    PlaybackState { current_song_index: index, ..old(self).playback_state },
                    old(self).filtered_songs@.len() as usize,
                )
            } else {
                final(self).playback_state == (PlaybackState {
                    current_song_index: index,
                    ..old(self).playback_state
                })
            },
            *final(self) == (AppState {
                playback_state: final(self).playback_state,
                ..*old(self)
            }),
    {
        let playlist_size = self.filtered_songs.len();
        self.playback_state.set_current_song_index(index, playlist_size);
    }

    /// Takes note of what the scan reports and says whether songs and
    /// playlists are to be loaded anew.
    pub fn on_scan_event(&mut self, event: &ScanEvent) -> (reload: bool)
        ensures
            reload == (*event is ScanFinished),
            *final(self) == match *event {
                ScanEvent::ScanStarted(total) => AppState {
                    is_scanning: true,
                    scan_progress: (0usize, total),
                    ..*old(self)
                },
                ScanEvent::FileProcessed => AppState {
                    scan_progress: (
                        if old(self).scan_progress.0 < usize::MAX {
                            (old(self).scan_progress.0 + 1) as usize
                        } else {
                            old(self).scan_progress.0
                        },
                        old(self).scan_progress.1,
                    ),
                    ..*old(self)
                },
                ScanEvent::ScanFinished => AppState { is_scanning: false, ..*old(self) },
                ScanEvent::ScanError(_) => AppState { is_scanning: false, ..*old(self) },
            },
    {
        match event {
            ScanEvent::ScanStarted(total) => {
                self.is_scanning = true;
                self.scan_progress = (0, *total);
                false
            },
            ScanEvent::FileProcessed => {
                if self.scan_progress.0 < usize::MAX {
                    self.scan_progress = (self.scan_progress.0 + 1, self.scan_progress.1);
                }
                false
            },
            ScanEvent::ScanFinished => {
                self.is_scanning = false;
                true
            },
            ScanEvent::ScanError(_) => {
                self.is_scanning = false;
                false
            },
        }
    }
}

/// Moves the layout on to the built-in theme after its own; a theme that
/// is not built in counts as the first.
pub fn cycle_theme(layout_config: &mut LayoutConfig)
    ensures
        final(layout_config).theme.is_builtin(
            match first_theme(old(layout_config).theme.name@, 0) {
                Some(i) => (i + 1) % 6,
                None => 1,
            },
        ),
        *final(layout_config) == (LayoutConfig {
            theme: final(layout_config).theme,
            ..*old(layout_config)
        }),
{
    let mut themes = Themes::all();
    let mut current_index: usize = 0;
    let mut i: usize = 0;
    let ghost name = layout_config.theme.name@;
    let mut found = false;
    while i < 6 && !found
        invariant
            i <= 6,
            themes@.len() == 6,
            name == layout_config.theme.name@,
            forall|k: int| 0 <= k < 6 ==> (#[trigger] themes@[k]).is_builtin(k),
            !found ==> first_theme(name, 0) == first_theme(name, i as int),
            !found ==> current_index == 0,
            found ==> first_theme(name, 0) == Some(current_index as int) && current_index < 6,
        decreases 6 - i + if found {
            0int
        } else {
            1int
        },
    {
        assert(themes@[i as int].is_builtin(i as int));
        if themes[i].name.as_str().eq(layout_config.theme.name.as_str()) {
            current_index = i;
            found = true;
        } else {
            i += 1;
        }
    }
    let next_index = (current_index + 1) % 6;
    assert(themes@[next_index as int].is_builtin(next_index as int));
    layout_config.theme = themes.swap_remove(next_index);
}

} // verus!
