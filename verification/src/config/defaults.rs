//! The layout that is used where the user has configured none.

use crate::collections::StringMap;
use crate::config::layout_config::LayoutConfig;
use crate::ui::layout::{
    LayoutSettings, Position, ResponsiveBreakpoints, SizeConstraint, ThemeConfig, WidgetConfig,
    WidgetStyle, WidgetType,
};
use vstd::prelude::*;

verus! {

/// The default layout as a configuration file.
pub const DEFAULT_LAYOUT_TOML: &'static str = r##"version = "1.0"
name = "Lofi Night"
description = "A chill, dark theme with rounded borders and vibrant accents."

[theme]
name = "lofi_night"

[theme.colors]
primary = "#bd93f9"      # Dracula Purple
secondary = "#ff79c6"    # Dracula Pink
background = "#282a36"   # Dracula Background
foreground = "#f8f8f2"   # Dracula Foreground
border = "#6272a4"       # Dracula Comment/Selection
highlight = "#8be9fd"    # Dracula Cyan
error = "#ff5555"        # Dracula Red
success = "#50fa7b"      # Dracula Green

[[widgets]]
name = "sidebar"
type = "sidebar"
position = "left"
size = { percentage = 25 }
visible = true
border = true
title = "Library"

[[widgets]]
name = "playlist"
type = "playlist_view"
position = "center"
size = "fill"
visible = true
border = true
title = "Current Playlist"

[[widgets]]
name = "now_playing"
type = "now_playing"
position = "right"
size = { percentage = 30 }
visible = true
border = true
title = "Now Playing"

[[widgets]]
name = "album_art"
type = "album_art"
position = "right"
size = { percentage = 25 }
visible = true
border = true
title = "Visuals"

[[widgets]]
name = "progress"
type = "progress_bar"
position = "bottom"
size = { length = 3 }
visible = true
border = false

[[widgets]]
name = "status"
type = "status_bar"
position = "bottom"
size = { length = 1 }
visible = true
border = false

[keybindings]
space = "toggle_play"
n = "next_track"
p = "previous_track"
up = "move_up"
down = "move_down"
enter = "select"
"+" = "volume_up"
"-" = "volume_down"
f1 = "help"
f2 = "switch_layout"
f3 = "switch_theme"
f5 = "reload_layout"
q = "quit"
esc = "quit"
"/" = "search"
"a" = "toggle_art"

[settings]
auto_save = true
debounce_ms = 300

[settings.responsive]
small_width = 80
medium_width = 120
large_width = 160"##;

/// The default key bindings: the action of each key.
pub open spec fn default_bindings() -> Map<Seq<char>, Seq<char>> {
    Map::<Seq<char>, Seq<char>>::empty().insert("space"@, "toggle_play"@).insert(
        "n"@,
        "next_track"@,
    ).insert("p"@, "previous_track"@).insert("up"@, "move_up"@).insert("down"@, "move_down"@).insert(
        "enter"@,
        "select"@,
    ).insert("+"@, "volume_up"@).insert("-"@, "volume_down"@).insert("f1"@, "help"@).insert(
        "f2"@,
        "switch_layout"@,
    ).insert("f3"@, "switch_theme"@).insert("f5"@, "reload_layout"@).insert("q"@, "quit"@).insert(
        "esc"@,
        "quit"@,
    ).insert("/"@, "search"@).insert("a"@, "toggle_art"@)
}

/// The colours of the default theme, by role.
pub open spec fn default_colors() -> Map<Seq<char>, Seq<char>> {
    Map::<Seq<char>, Seq<char>>::empty().insert("primary"@, "#bd93f9"@).insert(
        "secondary"@,
        "#ff79c6"@,
    ).insert("background"@, "#282a36"@).insert("foreground"@, "#f8f8f2"@).insert(
        "border"@,
        "#6272a4"@,
    ).insert("highlight"@, "#8be9fd"@).insert("error"@, "#ff5555"@).insert("success"@, "#50fa7b"@)
}

/// The default layout settings.
pub open spec fn default_settings() -> LayoutSettings {
    LayoutSettings {
        auto_save: true,
        debounce_ms: 300,
        responsive: ResponsiveBreakpoints { small_width: 80, medium_width: 120, large_width: 160 },
    }
}

/// `widget` is a visible widget without colours of its own and with the
/// given name, kind, place, size, border and title.
pub open spec fn is_plain_widget(
    widget: WidgetConfig,
    name: Seq<char>,
    kind: WidgetType,
    position: Position,
    size: SizeConstraint,
    border: bool,
    title: Option<Seq<char>>,
) -> bool {
    &&& widget.name@ == name
    &&& widget.widget_type == kind
    &&& widget.position == position
    &&& widget.size == size
    &&& widget.visible
    &&& widget.border == border
    &&& match (widget.title, title) {
        (Some(given), Some(wanted)) => given@ == wanted,
        (None, None) => true,
        _ => false,
    }
    &&& widget.style.fg_color is None
    &&& widget.style.bg_color is None
    &&& widget.style.border_color is None
    &&& widget.style.highlight_color is None
    &&& widget.style.selected_color is None
}

/// `widgets` are the six widgets of the default layout: the library on
/// the left, the playlist in the centre, what plays and the album art on the
/// right, progress and status at the bottom.
pub open spec fn are_default_widgets(widgets: Seq<WidgetConfig>) -> bool {
    &&& widgets.len() == 6
    &&& is_plain_widget(
        widgets[0],
        "sidebar"@,
        WidgetType::Sidebar,
        Position::Left,
        SizeConstraint::Percentage(25),
        true,
        Some("Library"@),
    )
    &&& is_plain_widget(
        widgets[1],
        "playlist"@,
        WidgetType::PlaylistView,
        Position::Center,
        SizeConstraint::Fill,
        true,
        Some("Current Playlist"@),
    )
    &&& is_plain_widget(
        widgets[2],
        "now_playing"@,
        WidgetType::NowPlaying,
        Position::Right,
        SizeConstraint::Percentage(30),
        true,
        Some("Now Playing"@),
    )
    &&& is_plain_widget(
        widgets[3],
        "album_art"@,
        WidgetType::AlbumArt,
        Position::Right,
        SizeConstraint::Percentage(25),
        true,
        Some("Visuals"@),
    )
    &&& is_plain_widget(
        widgets[4],
        "progress"@,
        WidgetType::ProgressBar,
        Position::Bottom,
        SizeConstraint::Length(3),
        false,
        None,
    )
    &&& is_plain_widget(
        widgets[5],
        "status"@,
        WidgetType::StatusBar,
        Position::Bottom,
        SizeConstraint::Length(1),
        false,
        None,
    )
}

/// `config` is the default layout.
pub open spec fn is_default_layout(config: LayoutConfig) -> bool {
    &&& config.version@ == "1.0"@
    &&& config.name@ == "Lofi Night"@
    &&& config.description matches Some(d) && d@
        == "A chill, dark theme with rounded borders and vibrant accents."@
    &&& config.theme.name@ == "lofi_night"@
    &&& config.theme.styles is None
    &&& config.theme.colors matches Some(colors) && colors.texts() == default_colors()
    &&& are_default_widgets(config.widgets@)
    &&& config.keybindings.texts() == default_bindings()
    &&& config.settings == default_settings()
}

/// The default layout as a configuration file.
pub fn get_default_layout_toml() -> (text: String)
    ensures
        text@ == DEFAULT_LAYOUT_TOML@,
{
    DEFAULT_LAYOUT_TOML.to_string()
}

fn plain_widget(
    name: &str,
    kind: WidgetType,
    position: Position,
    size: SizeConstraint,
    border: bool,
    title: Option<&str>,
) -> (widget: WidgetConfig)
    ensures
        is_plain_widget(
            widget,
            name@,
            kind,
            position,
            size,
            border,
            match title {
                Some(t) => Some(t@),
                None => None,
            },
        ),
{
    WidgetConfig {
        name: name.to_string(),
        widget_type: kind,
        position,
        size,
        visible: true,
        border,
        title: match title {
            Some(t) => Some(t.to_string()),
            None => None,
        },
        style: WidgetStyle::default(),
    }
}

/// The default layout.
pub fn create_default_layout() -> (config: LayoutConfig)
    ensures
        is_default_layout(config),
{
    let mut colors: StringMap<String> = StringMap::new();
    assert(colors.texts() =~= Map::<Seq<char>, Seq<char>>::empty());
    colors.insert_text("primary", "#bd93f9");
    colors.insert_text("secondary", "#ff79c6");
    colors.insert_text("background", "#282a36");
    colors.insert_text("foreground", "#f8f8f2");
    colors.insert_text("border", "#6272a4");
    colors.insert_text("highlight", "#8be9fd");
    colors.insert_text("error", "#ff5555");
    colors.insert_text("success", "#50fa7b");
    LayoutConfig {
        version: "1.0".to_string(),
        name: "Lofi Night".to_string(),
        description: Some(
            "A chill, dark theme with rounded borders and vibrant accents.".to_string(),
        ),
        theme: ThemeConfig { name: "lofi_night".to_string(), colors: Some(colors), styles: None },
        widgets: get_default_widgets(),
        keybindings: get_default_keybindings(),
        settings: get_default_settings(),
    }
}

/// The default key bindings.
pub fn get_default_keybindings() -> (keybindings: StringMap<String>)
    ensures
        keybindings.texts() == default_bindings(),
{
    let mut keybindings: StringMap<String> = StringMap::new();
    assert(keybindings.texts() =~= Map::<Seq<char>, Seq<char>>::empty());
    keybindings.insert_text("space", "toggle_play");
    keybindings.insert_text("n", "next_track");
    keybindings.insert_text("p", "previous_track");
    keybindings.insert_text("up", "move_up");
    keybindings.insert_text("down", "move_down");
    keybindings.insert_text("enter", "select");
    keybindings.insert_text("+", "volume_up");
    keybindings.insert_text("-", "volume_down");
    keybindings.insert_text("f1", "help");
    keybindings.insert_text("f2", "switch_layout");
    keybindings.insert_text("f3", "switch_theme");
    keybindings.insert_text("f5", "reload_layout");
    keybindings.insert_text("q", "quit");
    keybindings.insert_text("esc", "quit");
    keybindings.insert_text("/", "search");
    keybindings.insert_text("a", "toggle_art");
    keybindings
}

/// The widgets of the default layout.
pub fn get_default_widgets() -> (widgets: Vec<WidgetConfig>)
    ensures
        are_default_widgets(widgets@),
{
    let mut widgets: Vec<WidgetConfig> = Vec::new();
    widgets.push(
        plain_widget(
            "sidebar",
            WidgetType::Sidebar,
            Position::Left,
            SizeConstraint::Percentage(25),
            true,
            Some("Library"),
        ),
    );
    widgets.push(
        plain_widget(
            "playlist",
            WidgetType::PlaylistView,
            Position::Center,
            SizeConstraint::Fill,
            true,
            Some("Current Playlist"),
        ),
    );
    widgets.push(
        plain_widget(
            "now_playing",
            WidgetType::NowPlaying,
            Position::Right,
            SizeConstraint::Percentage(30),
            true,
            Some("Now Playing"),
        ),
    );
    widgets.push(
        plain_widget(
            "album_art",
            WidgetType::AlbumArt,
            Position::Right,
            SizeConstraint::Percentage(25),
            true,
            Some("Visuals"),
        ),
    );
    widgets.push(
        plain_widget(
            "progress",
            WidgetType::ProgressBar,
            Position::Bottom,
            SizeConstraint::Length(3),
            false,
            None,
        ),
    );
    widgets.push(
        plain_widget(
            "status",
            WidgetType::StatusBar,
            Position::Bottom,
            SizeConstraint::Length(1),
            false,
            None,
        ),
    );
    widgets
}

/// The default layout settings.
pub fn get_default_settings() -> (settings: LayoutSettings)
    ensures
        settings == default_settings(),
{
    LayoutSettings {
        auto_save: true,
        debounce_ms: 300,
        responsive: ResponsiveBreakpoints { small_width: 80, medium_width: 120, large_width: 160 },
    }
}

impl Default for LayoutConfig {
    fn default() -> (config: Self)
        ensures
            is_default_layout(config),
    {
        create_default_layout()
    }
}

} // verus!
