use lofi_turtle::audio::{PlaybackStatus, PlayerState};
use lofi_turtle::config::LayoutConfig;
use lofi_turtle::models::{Playlist, RepeatMode, Song};
use lofi_turtle::services::tui_service::{
    confirmed_name, ends_program, handle_key_event, playlist_for_addition, playlist_for_removal,
};
use lofi_turtle::services::{KeyCode, UiCommand};
use lofi_turtle::stamp::Timestamp;
use lofi_turtle::ui::app::{cycle_theme, NextStep, ScanEvent};
use lofi_turtle::ui::widgets::{
    controls_text, format_duration, search_title, songs_title, status_text, volume_icon,
};
use lofi_turtle::ui::{ActivePanel, AppState, InputMode, ViewMode};

fn song(title: &str, artist: &str, path: &str) -> Song {
    Song::new(path.to_string(), title.to_string(), artist.to_string(), "Album".to_string(), 60)
}

fn playlist(name: &str) -> Playlist {
    Playlist::with_identity(
        name.to_string(),
        Timestamp { seconds: 0, nanoseconds: 0 },
        name.to_string(),
        None,
    )
}

fn state_with_songs() -> AppState {
    let mut state = AppState::default();
    state.songs = vec![
        song("Alpha", "Ann", "/a.mp3"),
        song("Beta", "Bob", "/b.mp3"),
        song("Gamma", "Ann", "/c.mp3"),
    ];
    state.update_filtered_songs();
    state
}

#[test]
fn the_interface_starts_in_the_songs_panel() {
    let state = AppState::default();
    assert!(state.songs.is_empty() && state.filtered_songs.is_empty());
    assert_eq!(state.active_panel, ActivePanel::Songs);
    assert_eq!(state.view_mode, ViewMode::Library);
    assert_eq!(state.input_mode, InputMode::Normal);
    assert_eq!(state.get_input_mode(), &InputMode::Normal);
    assert_eq!(state.playback_status, PlaybackStatus::default());
    assert!(state.show_album_art);
    assert!(!state.should_quit());
    assert!(!state.is_scanning);
    assert_eq!(state.scan_progress, (0, 0));
    assert_eq!(state.get_current_playlist_name(), None);
}

#[test]
fn the_search_query_filters_the_listed_songs() {
    let mut state = state_with_songs();
    assert_eq!(state.filtered_songs.len(), 3);
    state.selected_song_index = 2;
    state.update_search_query("ANN".to_string());
    assert_eq!(state.search_query, "ANN");
    assert_eq!(state.filtered_songs.len(), 2);
    assert_eq!(state.filtered_songs[1].title, "Gamma");
    assert_eq!(state.selected_song_index, 0);
    state.selected_song_index = 1;
    state.update_search_query("ANN".to_string());
    assert_eq!(state.selected_song_index, 1);
    state.update_search_query("album".to_string());
    assert_eq!(state.filtered_songs.len(), 3);
    state.update_search_query("zzz".to_string());
    assert!(state.filtered_songs.is_empty());
    assert_eq!(state.get_selected_song(), None);
    state.clear_search();
    assert_eq!(state.search_query, "");
    assert_eq!(state.filtered_songs.len(), 3);
    assert_eq!(state.get_selected_song().unwrap().title, "Alpha");
}

#[test]
fn panels_go_round_and_skip_hidden_album_art() {
    let mut state = AppState::default();
    state.switch_to_next_panel();
    assert_eq!(state.active_panel, ActivePanel::AlbumArt);
    state.switch_to_next_panel();
    assert_eq!(state.active_panel, ActivePanel::Playlists);
    state.switch_to_next_panel();
    assert_eq!(state.active_panel, ActivePanel::Songs);
    state.switch_to_previous_panel();
    assert_eq!(state.active_panel, ActivePanel::Playlists);
    state.switch_to_previous_panel();
    assert_eq!(state.active_panel, ActivePanel::AlbumArt);
    state.switch_to_previous_panel();
    assert_eq!(state.active_panel, ActivePanel::Songs);

    state.current_album_art = Some("art".to_string());
    state.active_panel = ActivePanel::AlbumArt;
    state.toggle_album_art();
    assert!(!state.show_album_art);
    assert_eq!(state.current_album_art, None);
    assert_eq!(state.active_panel, ActivePanel::Songs);
    state.switch_to_next_panel();
    assert_eq!(state.active_panel, ActivePanel::Playlists);
    state.switch_to_previous_panel();
    assert_eq!(state.active_panel, ActivePanel::Songs);
    state.switch_to_previous_panel();
    state.switch_to_previous_panel();
    assert_eq!(state.active_panel, ActivePanel::Songs);
    state.toggle_album_art();
    assert!(state.show_album_art);
}

#[test]
fn the_selection_wraps_around() {
    let mut state = state_with_songs();
    state.move_selection_up();
    assert_eq!(state.selected_song_index, 2);
    state.move_selection_down();
    assert_eq!(state.selected_song_index, 0);
    state.move_selection_down();
    assert_eq!(state.selected_song_index, 1);
    state.move_selection_up();
    assert_eq!(state.selected_song_index, 0);

    state.active_panel = ActivePanel::Playlists;
    state.move_selection_down();
    state.move_selection_up();
    assert_eq!(state.selected_playlist_index, 0);
    assert_eq!(state.selected_song_index, 0);
    state.playlists = vec![playlist("one"), playlist("two")];
    state.move_selection_up();
    assert_eq!(state.selected_playlist_index, 1);
    state.move_selection_down();
    assert_eq!(state.selected_playlist_index, 0);
    state.active_panel = ActivePanel::AlbumArt;
    state.move_selection_down();
    assert_eq!((state.selected_song_index, state.selected_playlist_index), (0, 0));

    state.selected_playlist_index = 5;
    state.clamp_playlist_selection();
    assert_eq!(state.selected_playlist_index, 1);
    state.playlists.clear();
    state.clamp_playlist_selection();
    assert_eq!(state.selected_playlist_index, 0);
}

#[test]
fn input_modes_and_views() {
    let mut state = state_with_songs();
    state.enter_search_mode();
    assert_eq!(state.input_mode, InputMode::Search);
    state.exit_search_mode();
    assert_eq!(state.input_mode, InputMode::Normal);
    state.enter_playlist_create_mode();
    assert_eq!(state.input_mode, InputMode::PlaylistCreate);
    state.exit_input_mode();
    assert_eq!(state.enter_playlist_edit_mode(), None);
    assert_eq!(state.input_mode, InputMode::Normal);
    state.playlists = vec![playlist("one"), playlist("two")];
    state.selected_playlist_index = 1;
    assert_eq!(state.enter_playlist_edit_mode(), Some("two".to_string()));
    assert_eq!(state.input_mode, InputMode::PlaylistEdit);

    state.active_panel = ActivePanel::Playlists;
    state.switch_to_playlist("two");
    assert_eq!(state.view_mode, ViewMode::Playlist("two".to_string()));
    assert_eq!(state.active_panel, ActivePanel::Songs);
    assert_eq!(state.get_current_playlist_name(), Some("two"));
    state.active_panel = ActivePanel::AlbumArt;
    state.switch_to_library();
    assert_eq!(state.view_mode, ViewMode::Library);
    assert_eq!(state.active_panel, ActivePanel::Songs);
    state.quit();
    assert!(state.should_quit());
}

#[test]
fn the_current_song_is_found_by_its_path() {
    let mut state = state_with_songs();
    assert_eq!(state.get_current_song(), None);
    assert_eq!(state.song_for_art().unwrap().title, "Alpha");
    state.playback_status.current_song = Some("/b.mp3".to_string());
    assert_eq!(state.get_current_song().unwrap().title, "Beta");
    assert_eq!(state.song_for_art().unwrap().title, "Beta");
    state.playback_status.current_song = Some("/nowhere.mp3".to_string());
    assert_eq!(state.get_current_song(), None);
    state.selected_song_index = 2;
    assert_eq!(state.song_for_art().unwrap().title, "Gamma");
    state.selected_song_index = 3;
    assert_eq!(state.song_for_art(), None);
}

#[test]
fn playback_moves_on_through_the_listed_songs() {
    let mut state = AppState::default();
    assert_eq!(state.advance_to_next_song(), NextStep::Nothing);
    let mut state = state_with_songs();
    assert_eq!(state.advance_to_next_song(), NextStep::Play(1));
    assert_eq!(state.selected_song_index, 1);
    assert_eq!(state.playback_state.current_song_index, 0);
    state.song_started(1);
    assert_eq!(state.playback_state.current_song_index, 1);
    assert_eq!(state.advance_to_next_song(), NextStep::Play(2));
    state.song_started(2);
    assert_eq!(state.advance_to_next_song(), NextStep::Stop);
    assert_eq!(state.selected_song_index, 2);
    state.playback_state.repeat_mode = RepeatMode::Playlist;
    assert_eq!(state.advance_to_next_song(), NextStep::Play(0));

    let stopped = PlaybackStatus::default();
    assert!(!state.song_completed(&stopped));
    state.switch_to_playlist("p");
    assert!(state.song_completed(&stopped));
    let playing = PlaybackStatus { state: PlayerState::Playing, ..PlaybackStatus::default() };
    assert!(!state.song_completed(&playing));
    let halted =
        PlaybackStatus { current_song: Some("/a.mp3".to_string()), ..PlaybackStatus::default() };
    assert!(!state.song_completed(&halted));
}

#[test]
fn scan_events_drive_the_progress() {
    let mut state = AppState::default();
    assert!(!state.on_scan_event(&ScanEvent::ScanStarted(3)));
    assert!(state.is_scanning);
    assert_eq!(state.scan_progress, (0, 3));
    assert!(!state.on_scan_event(&ScanEvent::FileProcessed));
    assert!(!state.on_scan_event(&ScanEvent::FileProcessed));
    assert_eq!(state.scan_progress, (2, 3));
    assert!(state.on_scan_event(&ScanEvent::ScanFinished));
    assert!(!state.is_scanning);
    state.on_scan_event(&ScanEvent::ScanStarted(1));
    assert!(!state.on_scan_event(&ScanEvent::ScanError("boom".to_string())));
    assert!(!state.is_scanning);
}

#[test]
fn themes_are_cycled_in_order() {
    let mut config = LayoutConfig::default();
    assert_eq!(config.theme.name, "lofi_night");
    cycle_theme(&mut config);
    assert_eq!(config.theme.name, "light");
    let mut names = Vec::new();
    for _ in 0..6 {
        cycle_theme(&mut config);
        names.push(config.theme.name.clone());
    }
    assert_eq!(names, vec!["synthwave", "forest", "dracula", "gruvbox", "dark", "light"]);
    assert_eq!(config.name, "Lofi Night");
    assert_eq!(config.widgets.len(), 6);
}

#[test]
fn keys_stand_for_commands() {
    let mut state = AppState::default();
    let key = |state: &AppState, c: char| handle_key_event(state, KeyCode::Char(c));
    assert_eq!(key(&state, 'q'), UiCommand::Quit);
    assert!(ends_program(key(&state, 'q')));
    assert!(!ends_program(key(&state, 'x')));
    assert_eq!(handle_key_event(&state, KeyCode::Tab), UiCommand::NextPanel);
    assert_eq!(handle_key_event(&state, KeyCode::BackTab), UiCommand::PreviousPanel);
    assert_eq!(handle_key_event(&state, KeyCode::Up), UiCommand::SelectionUp);
    assert_eq!(handle_key_event(&state, KeyCode::Down), UiCommand::SelectionDown);
    assert_eq!(handle_key_event(&state, KeyCode::Left), UiCommand::PreviousPanel);
    assert_eq!(handle_key_event(&state, KeyCode::Right), UiCommand::NextPanel);
    assert_eq!(handle_key_event(&state, KeyCode::Backspace), UiCommand::ShowLibrary);
    assert_eq!(handle_key_event(&state, KeyCode::Enter), UiCommand::PlaySelectedSong);
    assert_eq!(handle_key_event(&state, KeyCode::Esc), UiCommand::Nothing);
    assert_eq!(handle_key_event(&state, KeyCode::Other), UiCommand::Nothing);
    assert_eq!(key(&state, 'h'), UiCommand::PreviousPanel);
    assert_eq!(key(&state, 'j'), UiCommand::SelectionDown);
    assert_eq!(key(&state, 'k'), UiCommand::SelectionUp);
    assert_eq!(key(&state, 'l'), UiCommand::ShowLibrary);
    assert_eq!(key(&state, ' '), UiCommand::TogglePlayback);
    assert_eq!(key(&state, 'S'), UiCommand::ToggleShuffle);
    assert_eq!(key(&state, 'R'), UiCommand::CycleRepeat);
    assert_eq!(key(&state, 's'), UiCommand::StopPlayback);
    assert_eq!(key(&state, ']'), UiCommand::VolumeUp);
    assert_eq!(key(&state, '['), UiCommand::VolumeDown);
    assert_eq!(key(&state, '/'), UiCommand::EnterSearch);
    assert_eq!(key(&state, 'c'), UiCommand::ClearSearch);
    assert_eq!(key(&state, 'a'), UiCommand::ToggleAlbumArt);
    assert_eq!(key(&state, '+'), UiCommand::AddSelectedSongToPlaylist);
    assert_eq!(key(&state, '-'), UiCommand::RemoveSelectedSongFromPlaylist);
    assert_eq!(key(&state, 'n'), UiCommand::Nothing);
    assert_eq!(key(&state, 'd'), UiCommand::Nothing);
    assert_eq!(key(&state, 'e'), UiCommand::Nothing);
    assert_eq!(key(&state, 'r'), UiCommand::Nothing);

    state.active_panel = ActivePanel::Playlists;
    assert_eq!(handle_key_event(&state, KeyCode::Enter), UiCommand::PlaySelectedPlaylist);
    assert_eq!(key(&state, 'n'), UiCommand::NewPlaylist);
    assert_eq!(key(&state, 'd'), UiCommand::DeleteSelectedPlaylist);
    assert_eq!(key(&state, 'e'), UiCommand::EditSelectedPlaylist);
    assert_eq!(key(&state, '+'), UiCommand::Nothing);
    assert_eq!(key(&state, '-'), UiCommand::Nothing);
    state.active_panel = ActivePanel::AlbumArt;
    assert_eq!(handle_key_event(&state, KeyCode::Enter), UiCommand::Nothing);

    state.input_mode = InputMode::Search;
    assert_eq!(handle_key_event(&state, KeyCode::Esc), UiCommand::ExitSearch);
    assert_eq!(handle_key_event(&state, KeyCode::Enter), UiCommand::PlayFoundSong);
    assert_eq!(key(&state, 'q'), UiCommand::TypeQuery);
    assert_eq!(handle_key_event(&state, KeyCode::Backspace), UiCommand::TypeQuery);
    for mode in [InputMode::PlaylistCreate, InputMode::PlaylistEdit] {
        state.input_mode = mode;
        assert_eq!(handle_key_event(&state, KeyCode::Esc), UiCommand::ExitInput);
        assert_eq!(handle_key_event(&state, KeyCode::Enter), UiCommand::ConfirmPlaylist);
        assert_eq!(key(&state, 'q'), UiCommand::TypeName);
    }
}

#[test]
fn playlists_are_picked_for_adding_and_removing() {
    let mut state = AppState::default();
    assert_eq!(playlist_for_addition(&state), None);
    assert_eq!(playlist_for_removal(&state), None);
    state.playlists = vec![playlist("one"), playlist("two")];
    state.selected_playlist_index = 1;
    assert_eq!(playlist_for_addition(&state), Some("two"));
    assert_eq!(playlist_for_removal(&state), Some("two"));
    state.switch_to_playlist("one");
    assert_eq!(playlist_for_addition(&state), Some("two"));
    assert_eq!(playlist_for_removal(&state), Some("one"));

    assert_eq!(confirmed_name(InputMode::PlaylistCreate, "  My mix "), Some("My mix".to_string()));
    assert_eq!(confirmed_name(InputMode::PlaylistCreate, "  "), None);
    assert_eq!(confirmed_name(InputMode::PlaylistEdit, "My mix"), None);
    assert_eq!(confirmed_name(InputMode::Normal, "My mix"), None);
}

#[test]
fn widget_texts() {
    assert_eq!(format_duration(0), "00:00");
    assert_eq!(format_duration(125), "02:05");
    assert_eq!(format_duration(5999), "99:59");
    assert_eq!(format_duration(u64::MAX), "307445734561825860:15");
    assert_eq!(volume_icon(0), "🔇");
    assert_eq!(volume_icon(1), "🔈");
    assert_eq!(volume_icon(32), "🔈");
    assert_eq!(volume_icon(33), "🔉");
    assert_eq!(volume_icon(66), "🔉");
    assert_eq!(volume_icon(67), "🔊");
    assert_eq!(volume_icon(255), "🔊");
    assert_eq!(status_text(PlayerState::Playing), "▶ Playing");
    assert_eq!(status_text(PlayerState::Paused), "⏸ Paused");
    assert_eq!(status_text(PlayerState::Stopped), "⏹ Stopped");
    assert_eq!(
        controls_text(InputMode::Search, ActivePanel::Songs),
        "Type to search | Esc: Exit search | Enter: Play selected"
    );
    assert_eq!(
        controls_text(InputMode::PlaylistCreate, ActivePanel::Songs),
        "Enter playlist name | Enter: Create | Esc: Cancel"
    );
    assert_eq!(
        controls_text(InputMode::PlaylistEdit, ActivePanel::Songs),
        "Edit playlist name | Enter: Save | Esc: Cancel"
    );
    assert!(controls_text(InputMode::Normal, ActivePanel::Playlists).contains("n: New"));
    assert!(controls_text(InputMode::Normal, ActivePanel::Songs).contains("S: Shuffle"));
    assert!(controls_text(InputMode::Normal, ActivePanel::AlbumArt)
        .ends_with("a: Toggle album art | q: Quit"));
    assert_eq!(search_title(&ViewMode::Library), "Search Library");
    assert_eq!(search_title(&ViewMode::Playlist("Mix".to_string())), "Search Playlist: Mix");
    assert_eq!(songs_title(&ViewMode::Library, 3, 12), "Songs (3/12)");
    assert_eq!(songs_title(&ViewMode::Playlist("Mix".to_string()), 0, 0), "Mix (0/0)");
}
