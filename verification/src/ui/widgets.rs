//! The texts that the widgets show.

use crate::audio::player::PlayerState;
use crate::text::{clock, clock_text, decimal, decimal_text, joined};
use crate::ui::app::{ActivePanel, InputMode, ViewMode};
use vstd::prelude::*;

verus! {

/// A time in seconds as `MM:SS`.
pub fn format_duration(seconds: u64) -> (text: String)
    ensures
        text@ == clock(seconds as nat),
{
    clock_text(seconds)
}

/// The icon for a volume in percent.
pub fn volume_icon(volume_percent: u8) -> (icon: &'static str)
    ensures
        icon@ == if volume_percent == 0 {
            "🔇"@
        } else if volume_percent < 33 {
            "🔈"@
        } else if volume_percent < 67 {
            "🔉"@
        } else {
            "🔊"@
        },
{
    if volume_percent == 0 {
        "🔇"
    } else if volume_percent < 33 {
        "🔈"
    } else if volume_percent < 67 {
        "🔉"
    } else {
        "🔊"
    }
}

/// The text that states what the player does.
pub fn status_text(state: PlayerState) -> (text: &'static str)
    ensures
        text@ == match state {
            PlayerState::Playing => "▶ Playing"@,
            PlayerState::Paused => "⏸ Paused"@,
            PlayerState::Stopped => "⏹ Stopped"@,
        },
{
    match state {
        PlayerState::Playing => "▶ Playing",
        PlayerState::Paused => "⏸ Paused",
        PlayerState::Stopped => "⏹ Stopped",
    }
}

/// The help line for an input mode and panel.
pub open spec fn controls(input_mode: InputMode, active_panel: ActivePanel) -> Seq<char> {
    match input_mode {
        InputMode::Normal => match active_panel {
            ActivePanel::Playlists =>
                "hjkl/↑↓←→: Navigate | Tab: Switch panels | Enter: Select | Backspace: Back | [/]: Volume | +/-: Add/Remove songs | n: New | d: Delete | a: Toggle art | q: Quit"@,
            ActivePanel::Songs =>
                "hjkl/↑↓←→: Navigate | Tab: Switch panels | Enter: Play | Space: Play/Pause | S: Shuffle | R: Repeat | [/]: Volume | +/-: Add/Remove to playlist | Backspace: Back | /: Search | a: Toggle art | q: Quit"@,
            ActivePanel::AlbumArt =>
                "hjkl/↑↓←→: Navigate | Tab: Switch panels | [/]: Volume | Backspace: Back | a: Toggle album art | q: Quit"@,
        },
        InputMode::Search => "Type to search | Esc: Exit search | Enter: Play selected"@,
        InputMode::PlaylistCreate => "Enter playlist name | Enter: Create | Esc: Cancel"@,
        InputMode::PlaylistEdit => "Edit playlist name | Enter: Save | Esc: Cancel"@,
    }
}

/// The help line for an input mode and panel.
pub fn controls_text(input_mode: InputMode, active_panel: ActivePanel) -> (text: &'static str)
    ensures
        text@ == controls(input_mode, active_panel),
{
    match input_mode {
        InputMode::Normal => match active_panel {
            ActivePanel::Playlists =>
                "hjkl/↑↓←→: Navigate | Tab: Switch panels | Enter: Select | Backspace: Back | [/]: Volume | +/-: Add/Remove songs | n: New | d: Delete | a: Toggle art | q: Quit",
            ActivePanel::Songs =>
                "hjkl/↑↓←→: Navigate | Tab: Switch panels | Enter: Play | Space: Play/Pause | S: Shuffle | R: Repeat | [/]: Volume | +/-: Add/Remove to playlist | Backspace: Back | /: Search | a: Toggle art | q: Quit",
            ActivePanel::AlbumArt =>
                "hjkl/↑↓←→: Navigate | Tab: Switch panels | [/]: Volume | Backspace: Back | a: Toggle album art | q: Quit",
        },
        InputMode::Search => "Type to search | Esc: Exit search | Enter: Play selected",
        InputMode::PlaylistCreate => "Enter playlist name | Enter: Create | Esc: Cancel",
        InputMode::PlaylistEdit => "Edit playlist name | Enter: Save | Esc: Cancel",
    }
}

/// The title of the search bar.
pub fn search_title(view_mode: &ViewMode) -> (title: String)
    ensures
        title@ == match *view_mode {
            ViewMode::Library => "Search Library"@,
            ViewMode::Playlist(name) => "Search Playlist: "@ + name@,
        },
{
    match view_mode {
        ViewMode::Library => "Search Library".to_string(),
        ViewMode::Playlist(name) => joined("Search Playlist: ", name.as_str()),
    }
}

/// The title of the song list: what is shown, and how many of how many
/// songs are listed.
pub fn songs_title(view_mode: &ViewMode, listed: usize, total: usize) -> (title: String)
    ensures
        title@ == match *view_mode {
            ViewMode::Library => "Songs"@,
            ViewMode::Playlist(name) => name@,
        } + " ("@ + decimal(listed as nat) + "/"@ + decimal(total as nat) + ")"@,
{
    let mut title = match view_mode {
        ViewMode::Library => "Songs".to_string(),
        ViewMode::Playlist(name) => name.clone(),
    };
    title.append(" (");
    let listed_text = decimal_text(listed as u64);
    title.append(listed_text.as_str());
    title.append("/");
    let total_text = decimal_text(total as u64);
    title.append(total_text.as_str());
    title.append(")");
    title
}

} // verus!
