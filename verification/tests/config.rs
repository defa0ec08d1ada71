use lofi_turtle::config::defaults::{
    create_default_layout, get_default_keybindings, get_default_layout_toml, get_default_settings,
    get_default_widgets,
};
use lofi_turtle::config::LayoutConfig;
use lofi_turtle::error::LofiTurtleError;
use lofi_turtle::ui::layout::{Position, ResponsiveMode, SizeConstraint, WidgetType};
use lofi_turtle::ui::theme::{Color, ColorPalette, Style, ThemeManager, Themes};

#[test]
fn test_layout_config_validation() {
    let mut config = LayoutConfig::default();

    // Valid config should pass
    assert!(config.validate().is_ok());

    // Empty version should fail
    config.version = String::new();
    assert!(config.validate().is_err());

    // Reset version
    config.version = "1.0".to_string();

    // No visible widgets should fail
    for widget in &mut config.widgets {
        widget.visible = false;
    }
    assert!(config.validate().is_err());
}

#[test]
fn test_duplicate_widget_names() {
    let mut config = LayoutConfig::default();
    let widget = config.widgets[0].clone();
    config.widgets.push(widget); // Add duplicate

    assert!(config.validate().is_err());
}

#[test]
fn test_widget_operations() {
    let config = LayoutConfig::default();

    // Test getting widget
    assert!(config.get_widget("sidebar").is_some());
    assert!(config.get_widget("nonexistent").is_none());

    // Test widget visibility
    assert!(config.is_widget_visible("sidebar"));

    // Test getting visible widgets
    let visible_widgets = config.get_visible_widgets();
    assert!(!visible_widgets.is_empty());
}

#[test]
fn test_keybinding_operations() {
    let mut config = LayoutConfig::default();

    // Test getting keybinding
    assert_eq!(config.get_keybinding("space"), Some(&"toggle_play".to_string()));
    assert_eq!(config.get_keybinding("nonexistent"), None);

    // Test setting keybinding
    config.set_keybinding("test".to_string(), "test_action".to_string());
    assert_eq!(config.get_keybinding("test"), Some(&"test_action".to_string()));

    // Test removing keybinding
    let removed = config.remove_keybinding("test");
    assert_eq!(removed, Some("test_action".to_string()));
    assert_eq!(config.get_keybinding("test"), None);
}

#[test]
fn test_responsive_mode() {
    let config = LayoutConfig::default();
    // Default breakpoints: small=80, medium=120, large=160

    assert_eq!(config.get_responsive_mode(79), ResponsiveMode::Small);
    assert_eq!(config.get_responsive_mode(80), ResponsiveMode::Medium);
    assert_eq!(config.get_responsive_mode(119), ResponsiveMode::Medium);
    assert_eq!(config.get_responsive_mode(120), ResponsiveMode::Large);
    assert_eq!(config.get_responsive_mode(160), ResponsiveMode::ExtraLarge);
}

#[test]
fn test_color_parsing() {
    assert_eq!(ColorPalette::parse_color("red"), Some(Color::Red));
    assert_eq!(ColorPalette::parse_color("bright_cyan"), Some(Color::LightCyan));
    assert_eq!(ColorPalette::parse_color("#ff0000"), Some(Color::Rgb(255, 0, 0)));
    assert_eq!(ColorPalette::parse_color("42"), Some(Color::Indexed(42)));
    assert_eq!(ColorPalette::parse_color("invalid"), None);
}

#[test]
fn test_theme_manager() {
    let theme = Themes::dark();
    let manager = ThemeManager::new(theme);

    let normal = manager.normal_style();
    assert_eq!(normal.fg, Some(Color::White));
    assert_eq!(normal.bg, Some(Color::Black));

    let highlight = manager.highlight_style();
    assert_eq!(highlight.fg, Some(Color::LightCyan));
    assert!(highlight.bold);
}

#[test]
fn test_predefined_themes() {
    let themes = Themes::all();
    assert_eq!(themes.len(), 6);

    let dark = Themes::get_by_name("dark").unwrap();
    assert_eq!(dark.name, "dark");

    let synthwave = Themes::get_by_name("synthwave").unwrap();
    assert_eq!(synthwave.name, "synthwave");

    let dracula = Themes::get_by_name("dracula").unwrap();
    assert_eq!(dracula.name, "dracula");
}

fn configuration_error(reason: &str) -> Result<(), LofiTurtleError> {
    Err(LofiTurtleError::Configuration(reason.to_string()))
}

#[test]
fn validation_names_the_first_problem() {
    let mut config = create_default_layout();
    config.version = String::new();
    config.widgets.clear();
    assert_eq!(config.validate(), configuration_error("Layout version cannot be empty"));
    config.version = "1".to_string();
    assert_eq!(config.validate(), configuration_error("At least one widget must be visible"));

    let mut config = create_default_layout();
    let status = config.widgets[5].clone();
    let playlist = config.widgets[1].clone();
    config.widgets.push(status);
    config.widgets.push(playlist);
    config.set_keybinding(String::new(), "x".to_string());
    assert_eq!(config.validate(), configuration_error("Duplicate widget name: status"));

    let mut config = create_default_layout();
    config.set_keybinding("zz".to_string(), String::new());
    config.set_keybinding(String::new(), "x".to_string());
    assert_eq!(
        config.validate(),
        configuration_error("Keybinding action for key 'zz' cannot be empty")
    );
    config.remove_keybinding("zz");
    assert_eq!(config.validate(), configuration_error("Keybinding key cannot be empty"));
    config.remove_keybinding("");
    assert_eq!(config.validate(), Ok(()));
}

#[test]
fn default_layout_holds_what_the_default_file_says() {
    let config = create_default_layout();
    assert_eq!(config.version, "1.0");
    assert_eq!(config.name, "Lofi Night");
    assert_eq!(config.theme.name, "lofi_night");
    let colors = config.theme.colors.as_ref().unwrap();
    assert_eq!(colors.len(), 8);
    assert_eq!(colors.get("primary"), Some(&"#bd93f9".to_string()));
    assert_eq!(colors.get("success"), Some(&"#50fa7b".to_string()));
    assert_eq!(config.widgets, get_default_widgets());
    assert_eq!(config.widgets.len(), 6);
    assert_eq!(config.widgets[2].name, "now_playing");
    assert_eq!(config.widgets[2].widget_type, WidgetType::NowPlaying);
    assert_eq!(config.widgets[2].position, Position::Right);
    assert_eq!(config.widgets[2].size, SizeConstraint::Percentage(30));
    assert_eq!(config.widgets[2].title, Some("Now Playing".to_string()));
    assert_eq!(config.widgets[4].size, SizeConstraint::Length(3));
    assert!(!config.widgets[4].border);
    assert_eq!(config.widgets[4].title, None);
    assert_eq!(config.keybindings, get_default_keybindings());
    assert_eq!(config.keybindings.len(), 16);
    assert_eq!(config.get_keybinding("esc"), Some(&"quit".to_string()));
    assert_eq!(config.get_keybinding("/"), Some(&"search".to_string()));
    assert_eq!(config.settings, get_default_settings());
    assert!(config.settings.auto_save);
    assert_eq!(config.settings.debounce_ms, 300);
    let text = get_default_layout_toml();
    assert!(text.starts_with("version = \"1.0\"\nname = \"Lofi Night\"\n"));
    assert!(text.contains("size = { percentage = 25 }"));
    assert!(text.ends_with("large_width = 160"));
}

#[test]
fn widgets_are_found_by_name_and_place() {
    let mut config = create_default_layout();
    let right = config.widgets_by_position(Position::Right);
    assert_eq!(right.len(), 2);
    assert_eq!(right[0].name, "now_playing");
    assert_eq!(right[1].name, "album_art");
    assert!(config.widgets_by_position(Position::Top).is_empty());
    config.get_widget_mut("album_art").unwrap().visible = false;
    assert!(!config.is_widget_visible("album_art"));
    assert!(!config.is_widget_visible("nowhere"));
    assert_eq!(config.widgets_by_position(Position::Right).len(), 1);
    assert_eq!(config.get_visible_widgets().len(), 5);
    assert!(config.get_widget_mut("nowhere").is_none());
}

#[test]
fn colours_are_parsed_as_documented() {
    assert_eq!(ColorPalette::parse_color("GREY"), Some(Color::Gray));
    assert_eq!(ColorPalette::parse_color("Dark_Grey"), Some(Color::DarkGray));
    assert_eq!(ColorPalette::parse_color("reset"), Some(Color::Reset));
    assert_eq!(ColorPalette::parse_color("#0A141e"), Some(Color::Rgb(10, 20, 30)));
    assert_eq!(ColorPalette::parse_color("#+fffff"), Some(Color::Rgb(15, 255, 255)));
    assert_eq!(ColorPalette::parse_color("#fff"), None);
    assert_eq!(ColorPalette::parse_color("#12345g"), None);
    assert_eq!(ColorPalette::parse_color("#1234567"), None);
    assert_eq!(ColorPalette::parse_color("#"), None);
    assert_eq!(ColorPalette::parse_color(""), None);
    assert_eq!(ColorPalette::parse_color("255"), Some(Color::Indexed(255)));
    assert_eq!(ColorPalette::parse_color("+7"), Some(Color::Indexed(7)));
    assert_eq!(ColorPalette::parse_color("007"), Some(Color::Indexed(7)));
    assert_eq!(ColorPalette::parse_color("256"), None);
    assert_eq!(ColorPalette::parse_color("-1"), None);
    assert_eq!(ColorPalette::parse_color(" 1"), None);
    assert_eq!(ColorPalette::parse_color_with("BLUE", "blue"), Some(Color::Blue));
    assert_eq!(ColorPalette::parse_color_with("BLUE", "BLUE"), None);
    assert_eq!(
        ColorPalette::get_color_from_option(Some(&"red".to_string()), Color::Blue),
        Color::Red
    );
    assert_eq!(
        ColorPalette::get_color_from_option(Some(&"nope".to_string()), Color::Blue),
        Color::Blue
    );
    assert_eq!(ColorPalette::get_color_from_option(None, Color::Blue), Color::Blue);
}

#[test]
fn palette_and_styles_follow_the_theme() {
    let mut theme = Themes::forest();
    theme.colors.as_mut().unwrap().insert("border".to_string(), "no colour".to_string());
    let mut manager = ThemeManager::new(theme.clone());
    assert_eq!(manager.config(), &theme);
    assert_eq!(manager.palette().get("primary"), Some(Color::Rgb(0x22, 0x8b, 0x22)));
    assert_eq!(manager.palette().get("border"), None);
    assert_eq!(manager.palette().get_or("border", Color::Gray), Color::Gray);
    assert_eq!(manager.border_style(), Style { fg: Some(Color::Gray), bg: None, bold: false });
    assert_eq!(
        manager.selected_style(),
        Style {
            fg: Some(Color::Rgb(0x0f, 0x14, 0x19)),
            bg: Some(Color::Rgb(0x22, 0x8b, 0x22)),
            bold: true
        }
    );
    assert_eq!(
        manager.custom_style(Some("error"), Some("missing")),
        Style { fg: Some(Color::Rgb(0xdc, 0x14, 0x3c)), bg: None, bold: false }
    );
    manager.update_theme(Themes::light());
    assert_eq!(manager.title_style(), Style { fg: Some(Color::Blue), bg: None, bold: true });
    assert_eq!(manager.playing_style().fg, Some(Color::Green));
    assert_eq!(manager.paused_style().fg, Some(Color::Yellow));
    assert_eq!(manager.progress_style().bg, Some(Color::White));
    assert_eq!(manager.error_style().fg, Some(Color::Red));
    assert_eq!(manager.success_style().fg, Some(Color::Green));
    assert_eq!(manager.secondary_style().fg, Some(Color::Magenta));
    assert_eq!(Themes::get_by_name("GruvBox").unwrap().name, "gruvbox");
    assert!(Themes::get_by_name("solarized").is_none());
    assert!(Themes::get_by_lowercase_name("Dark").is_none());
    let names: Vec<String> = Themes::all().into_iter().map(|t| t.name).collect();
    assert_eq!(names, vec!["dark", "light", "synthwave", "forest", "dracula", "gruvbox"]);
}
