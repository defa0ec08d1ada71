//! The keyboard of the terminal interface: which command a key stands for
//! in each input mode and panel.

use crate::text::{is_blank, lemma_trimmed_shape, trimmed};
use crate::ui::app::{ActivePanel, AppState, InputMode, ViewMode};
use vstd::prelude::*;

verus! {

/// A key, as far as the interface tells keys apart.
#[derive(Debug, Clone, Copy, PartialEq, Eq, Structural)]
pub enum KeyCode {
    Char(char),
    Tab,
    BackTab,
    Up,
    Down,
    Left,
    Right,
    Backspace,
    Enter,
    Esc,
    Other,
}

/// What a key asks the interface to do.
#[derive(Debug, Clone, Copy, PartialEq, Eq, Structural)]
pub enum UiCommand {
    Nothing,
    Quit,
    NextPanel,
    PreviousPanel,
    SelectionUp,
    SelectionDown,
    ShowLibrary,
    PlaySelectedSong,
    PlaySelectedPlaylist,
    TogglePlayback,
    ToggleShuffle,
    CycleRepeat,
    StopPlayback,
    VolumeUp,
    VolumeDown,
    EnterSearch,
    ClearSearch,
    ToggleAlbumArt,
    NewPlaylist,
    DeleteSelectedPlaylist,
    EditSelectedPlaylist,
    AddSelectedSongToPlaylist,
    RemoveSelectedSongFromPlaylist,
    ExitSearch,
    /// Play the selected song, then leave the search.
    PlayFoundSong,
    ExitInput,
    ConfirmPlaylist,
    /// Hand the key to the search field.
    TypeQuery,
    /// Hand the key to the playlist name field.
    TypeName,
}

/// The command of a key while nothing is typed.
pub open spec fn normal_command(active_panel: ActivePanel, key: KeyCode) -> UiCommand {
    match key {
        KeyCode::Tab => UiCommand::NextPanel,
        KeyCode::BackTab => UiCommand::PreviousPanel,
        KeyCode::Up => UiCommand::SelectionUp,
        KeyCode::Down => UiCommand::SelectionDown,
        KeyCode::Left => UiCommand::PreviousPanel,
        KeyCode::Right => UiCommand::NextPanel,
        KeyCode::Backspace => UiCommand::ShowLibrary,
        KeyCode::Enter => match active_panel {
            ActivePanel::Songs => UiCommand::PlaySelectedSong,
            ActivePanel::Playlists => UiCommand::PlaySelectedPlaylist,
            ActivePanel::AlbumArt => UiCommand::Nothing,
        },
        KeyCode::Char(c) => if c == 'q' {
            UiCommand::Quit
        } else if c == 'h' {
            UiCommand::PreviousPanel
        } else if c == 'j' {
            UiCommand::SelectionDown
        } else if c == 'k' {
            UiCommand::SelectionUp
        } else if c == 'l' {
            UiCommand::ShowLibrary
        } else if c == ' ' {
            UiCommand::TogglePlayback
        } else if c == 'S' {
            UiCommand::ToggleShuffle
        } else if c == 'R' {
            UiCommand::CycleRepeat
        } else if c == 's' {
            UiCommand::StopPlayback
        } else if c == ']' {
            UiCommand::VolumeUp
        } else if c == '[' {
            UiCommand::VolumeDown
        } else if c == '/' {
            UiCommand::EnterSearch
        } else if c == 'c' {
            UiCommand::ClearSearch
        } else if c == 'a' {
            UiCommand::ToggleAlbumArt
        } else if c == 'n' && active_panel == ActivePanel::Playlists {
            UiCommand::NewPlaylist
        } else if c == 'd' && active_panel == ActivePanel::Playlists {
            UiCommand::DeleteSelectedPlaylist
        } else if c == 'e' && active_panel == ActivePanel::Playlists {
            UiCommand::EditSelectedPlaylist
        } else if c == '+' && active_panel == ActivePanel::Songs {
            UiCommand::AddSelectedSongToPlaylist
        } else if c == '-' && active_panel == ActivePanel::Songs {
            UiCommand::RemoveSelectedSongFromPlaylist
        } else {
            UiCommand::Nothing
        },
        _ => UiCommand::Nothing,
    }
}

/// The command of a key in an input mode and panel.
pub open spec fn key_command(input_mode: InputMode, active_panel: ActivePanel, key: KeyCode) -> UiCommand {
    match input_mode {
        InputMode::Normal => normal_command(active_panel, key),
        InputMode::Search => match key {
            KeyCode::Esc => UiCommand::ExitSearch,
            KeyCode::Enter => UiCommand::PlayFoundSong,
            _ => UiCommand::TypeQuery,
        },
        _ => match key {
            KeyCode::Esc => UiCommand::ExitInput,
            KeyCode::Enter => UiCommand::ConfirmPlaylist,
            _ => UiCommand::TypeName,
        },
    }
}

fn command_in_normal_mode(active_panel: ActivePanel, key: KeyCode) -> (command: UiCommand)
    ensures
        command == normal_command(active_panel, key),
{
    match key {
        KeyCode::Tab => UiCommand::NextPanel,
        KeyCode::BackTab => UiCommand::PreviousPanel,
        KeyCode::Up => UiCommand::SelectionUp,
        KeyCode::Down => UiCommand::SelectionDown,
        KeyCode::Left => UiCommand::PreviousPanel,
        KeyCode::Right => UiCommand::NextPanel,
        KeyCode::Backspace => UiCommand::ShowLibrary,
        KeyCode::Enter => match active_panel {
            ActivePanel::Songs => UiCommand::PlaySelectedSong,
            ActivePanel::Playlists => UiCommand::PlaySelectedPlaylist,
            ActivePanel::AlbumArt => UiCommand::Nothing,
        },
        KeyCode::Char(c) => {
            let in_playlists = active_panel == ActivePanel::Playlists;
            let in_songs = active_panel == ActivePanel::Songs;
            if c == 'q' {
                UiCommand::Quit
            } else if c == 'h' {
                UiCommand::PreviousPanel
            } else if c == 'j' {
                UiCommand::SelectionDown
            } else if c == 'k' {
                UiCommand::SelectionUp
            } else if c == 'l' {
                UiCommand::ShowLibrary
            } else if c == ' ' {
                UiCommand::TogglePlayback
            } else if c == 'S' {
                UiCommand::ToggleShuffle
            } else if c == 'R' {
                UiCommand::CycleRepeat
            } else if c == 's' {
                UiCommand::StopPlayback
            } else if c == ']' {
                UiCommand::VolumeUp
            } else if c == '[' {
                UiCommand::VolumeDown
            } else if c == '/' {
                UiCommand::EnterSearch
            } else if c == 'c' {
                UiCommand::ClearSearch
            } else if c == 'a' {
                UiCommand::ToggleAlbumArt
            } else if c == 'n' && in_playlists {
                UiCommand::NewPlaylist
            } else if c == 'd' && in_playlists {
                UiCommand::DeleteSelectedPlaylist
            } else if c == 'e' && in_playlists {
                UiCommand::EditSelectedPlaylist
            } else if c == '+' && in_songs {
                UiCommand::AddSelectedSongToPlaylist
            } else if c == '-' && in_songs {
                UiCommand::RemoveSelectedSongFromPlaylist
            } else {
                UiCommand::Nothing
            }
        },
        KeyCode::Esc => UiCommand::Nothing,
        KeyCode::Other => UiCommand::Nothing,
    }
}

/// The command that `key` stands for in the state of the interface.
pub fn handle_key_event(state: &AppState, key: KeyCode) -> (command: UiCommand)
    ensures
        command == key_command(state.input_mode, state.active_panel, key),
{
    match state.input_mode {
        InputMode::Normal => command_in_normal_mode(state.active_panel, key),
        InputMode::Search => match key {
            KeyCode::Esc => UiCommand::ExitSearch,
            KeyCode::Enter => UiCommand::PlayFoundSong,
            _ => UiCommand::TypeQuery,
        },
        InputMode::PlaylistCreate | InputMode::PlaylistEdit => match key {
            KeyCode::Esc => UiCommand::ExitInput,
            KeyCode::Enter => UiCommand::ConfirmPlaylist,
            _ => UiCommand::TypeName,
        },
    }
}

/// Whether a command ends the key handling for good.
pub fn ends_program(command: UiCommand) -> (ends: bool)
    ensures
        ends == (command == UiCommand::Quit),
{
    command == UiCommand::Quit
}

/// The name of the playlist that the selected song is added to: the
/// selected playlist, if there is one.
pub fn playlist_for_addition(state: &AppState) -> (name: Option<&str>)
    ensures
        match name {
            Some(n) => state.selected_playlist_index < state.playlists@.len() && n@
                == state.playlists@[state.selected_playlist_index as int].name@,
            None => state.selected_playlist_index >= state.playlists@.len(),
        },
{
    if state.selected_playlist_index < state.playlists.len() {
        Some(state.playlists[state.selected_playlist_index].name.as_str())
    } else {
        None
    }
}

/// The name of the playlist that the selected song is removed from: the
/// playlist that is shown, else the selected playlist, if there is one.
pub fn playlist_for_removal(state: &AppState) -> (name: Option<&str>)
    ensures
        match state.view_mode {
            ViewMode::Playlist(shown) => name matches Some(n) && n@ == shown@,
            ViewMode::Library => match name {
                Some(n) => state.selected_playlist_index < state.playlists@.len() && n@
                    == state.playlists@[state.selected_playlist_index as int].name@,
                None => state.selected_playlist_index >= state.playlists@.len(),
            },
        },
{
    match state.get_current_playlist_name() {
        Some(name) => Some(name),
        None => playlist_for_addition(state),
    }
}

/// The name of the playlist to create when the name field is confirmed:
/// what was typed, trimmed, while a playlist is being created and the name
/// is not blank.
pub fn confirmed_name(input_mode: InputMode, typed: &str) -> (name: Option<String>)
    ensures
        match name {
            Some(n) => input_mode == InputMode::PlaylistCreate && !is_blank(typed@) && n@
                == trimmed(typed@),
            None => input_mode != InputMode::PlaylistCreate || is_blank(typed@),
        },
{
    proof {
        lemma_trimmed_shape(typed@);
    }
    let text = typed.trim();
    if !text.is_empty() && input_mode == InputMode::PlaylistCreate {
        Some(text.to_string())
    } else {
        None
    }
}

} // verus!
