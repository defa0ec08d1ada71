use lofi_turtle::collections::StringMap;
use lofi_turtle::config::LayoutConfig;
use lofi_turtle::ui::layout::{
    default_debounce, default_true, place, Constraint, LayoutEngine, LayoutSettings, Position,
    Rect, ResponsiveBreakpoints, SizeConstraint, ThemeConfig, WidgetConfig, WidgetStyle,
    WidgetType,
};

fn create_test_config(widgets: Vec<WidgetConfig>) -> LayoutConfig {
    let mut config = LayoutConfig::default();
    config.widgets = widgets;
    config
}

fn create_widget(name: &str, pos: Position, size: SizeConstraint) -> WidgetConfig {
    WidgetConfig {
        name: name.to_string(),
        widget_type: WidgetType::Sidebar, // Dummy type
        position: pos,
        size,
        visible: true,
        border: false,
        title: None,
        style: WidgetStyle::default(),
    }
}

#[test]
fn test_layout_top_only() {
    let widgets = vec![create_widget("top1", Position::Top, SizeConstraint::Length(10))];
    let config = create_test_config(widgets);
    let mut engine = LayoutEngine::new(config);
    let area = Rect::new(0, 0, 100, 100);

    let result = engine.calculate_layout(area).unwrap();

    assert!(result.contains_key("top1"));
    let rect = result.get("top1").unwrap();
    assert_eq!(rect.height, 10);
    assert_eq!(rect.y, 0);
}

#[test]
fn test_layout_bottom_only() {
    let widgets = vec![create_widget("bot1", Position::Bottom, SizeConstraint::Length(10))];
    let config = create_test_config(widgets);
    let mut engine = LayoutEngine::new(config);
    let area = Rect::new(0, 0, 100, 100);

    let result = engine.calculate_layout(area).unwrap();

    assert!(result.contains_key("bot1"));
    let rect = result.get("bot1").unwrap();
    assert_eq!(rect.height, 10);
    assert_eq!(rect.y, 90); // 100 - 10
}

#[test]
fn test_layout_top_and_bottom() {
    let widgets = vec![
        create_widget("top", Position::Top, SizeConstraint::Length(10)),
        create_widget("bot", Position::Bottom, SizeConstraint::Length(10)),
    ];
    let config = create_test_config(widgets);
    let mut engine = LayoutEngine::new(config);
    let area = Rect::new(0, 0, 100, 100);

    let result = engine.calculate_layout(area).unwrap();

    let top = result.get("top").unwrap();
    assert_eq!(top.y, 0);
    assert_eq!(top.height, 10);

    let bot = result.get("bot").unwrap();
    assert_eq!(bot.y, 90);
    assert_eq!(bot.height, 10);
}

#[test]
fn test_layout_middle_split() {
    let widgets = vec![
        create_widget("left", Position::Left, SizeConstraint::Percentage(20)),
        create_widget("center", Position::Center, SizeConstraint::Fill),
        create_widget("right", Position::Right, SizeConstraint::Percentage(20)),
    ];
    let config = create_test_config(widgets);
    let mut engine = LayoutEngine::new(config);
    let area = Rect::new(0, 0, 100, 100);

    let result = engine.calculate_layout(area).unwrap();

    let left = result.get("left").unwrap();
    assert_eq!(left.x, 0);
    assert_eq!(left.width, 20);

    let right = result.get("right").unwrap();
    // Left 20, Center Fill, Right 20.
    // Center should be ~60.
    assert!(right.x >= 80);
    assert_eq!(right.width, 20);

    let center = result.get("center").unwrap();
    assert_eq!(center.x, 20);
    assert_eq!(center.width, 60);
}

#[test]
fn test_complex_layout() {
    // Top (10), Bottom (10), Left (20%), Center (Fill)
    let widgets = vec![
        create_widget("top", Position::Top, SizeConstraint::Length(10)),
        create_widget("bot", Position::Bottom, SizeConstraint::Length(10)),
        create_widget("left", Position::Left, SizeConstraint::Percentage(20)),
        create_widget("center", Position::Center, SizeConstraint::Fill),
    ];
    let config = create_test_config(widgets);
    let mut engine = LayoutEngine::new(config);
    let area = Rect::new(0, 0, 100, 100);

    let result = engine.calculate_layout(area).unwrap();

    // Check vertical space remaining for middle: 100 - 10 - 10 = 80
    let left = result.get("left").unwrap();
    assert_eq!(left.height, 80);
    assert_eq!(left.y, 10); // Starts after top

    let center = result.get("center").unwrap();
    assert_eq!(center.height, 80);
}

#[test]
fn test_hidden_widget() {
    let mut w = create_widget("hidden", Position::Top, SizeConstraint::Length(10));
    w.visible = false;
    let widgets = vec![w];
    let config = create_test_config(widgets);
    let mut engine = LayoutEngine::new(config);
    let area = Rect::new(0, 0, 100, 100);

    let result = engine.calculate_layout(area).unwrap();
    assert!(result.is_empty());
}

#[test]
fn the_default_layout_places_every_widget() {
    let mut engine = LayoutEngine::new(LayoutConfig::default());
    let result = engine.calculate_layout(Rect::new(0, 0, 200, 50)).unwrap();
    assert_eq!(result.len(), 6);
    for name in ["sidebar", "playlist", "now_playing", "album_art", "progress", "status"] {
        assert!(result.contains_key(name));
    }
    assert_eq!(result.get("progress").unwrap().height, 3);
    assert_eq!(result.get("status").unwrap(), &Rect::new(0, 49, 200, 1));
    assert_eq!(result.get("sidebar").unwrap(), &Rect { x: 0, y: 0, width: 50, height: 46 });
    assert_eq!(engine.config().name, "Lofi Night");
}

#[test]
fn layouts_are_remembered_by_size_until_the_configuration_changes() {
    let widgets = vec![create_widget("top", Position::Top, SizeConstraint::Length(10))];
    let mut engine = LayoutEngine::new(create_test_config(widgets));
    let first = engine.calculate_layout(Rect::new(0, 0, 100, 100)).unwrap();
    // The same size at another place: the remembered answer comes back.
    let again = engine.calculate_layout(Rect::new(5, 5, 100, 100)).unwrap();
    assert_eq!(first, again);
    let other = engine.calculate_layout(Rect::new(5, 5, 100, 50)).unwrap();
    assert_eq!(other.get("top").unwrap().y, 5);
    engine.update_config(create_test_config(vec![create_widget(
        "bot",
        Position::Bottom,
        SizeConstraint::Length(4),
    )]));
    let fresh = engine.calculate_layout(Rect::new(0, 0, 100, 100)).unwrap();
    assert!(!fresh.contains_key("top"));
    assert_eq!(fresh.get("bot").unwrap(), &Rect::new(0, 96, 100, 4));
}

#[test]
fn areas_are_given_out_in_order() {
    let a = create_widget("a", Position::Top, SizeConstraint::Fill);
    let b = create_widget("b", Position::Top, SizeConstraint::Fill);
    let a_again = create_widget("a", Position::Top, SizeConstraint::Fill);
    let mut layout: StringMap<Rect> = StringMap::new();
    layout.insert("z".to_string(), Rect::new(9, 9, 9, 9));
    let areas = vec![Rect::new(0, 0, 1, 1), Rect::new(1, 0, 1, 1), Rect::new(2, 0, 1, 1)];
    place(&mut layout, &vec![&a, &b, &a_again], &areas);
    assert_eq!(layout.len(), 3);
    assert_eq!(layout.get("a"), Some(&Rect::new(2, 0, 1, 1)));
    assert_eq!(layout.get("b"), Some(&Rect::new(1, 0, 1, 1)));
    assert_eq!(layout.get("z"), Some(&Rect::new(9, 9, 9, 9)));
    let mut short: StringMap<Rect> = StringMap::new();
    place(&mut short, &vec![&a, &b], &vec![Rect::new(0, 0, 1, 1)]);
    assert_eq!(short.len(), 1);
    assert!(short.contains_key("a"));
}

#[test]
fn size_rules_and_defaults() {
    assert_eq!(Constraint::from(SizeConstraint::Percentage(7)), Constraint::Percentage(7));
    assert_eq!(Constraint::from(SizeConstraint::Length(7)), Constraint::Length(7));
    assert_eq!(Constraint::from(SizeConstraint::Min(7)), Constraint::Min(7));
    assert_eq!(Constraint::from(SizeConstraint::Max(7)), Constraint::Max(7));
    assert_eq!(Constraint::from(SizeConstraint::Fill), Constraint::Fill(1));
    assert!(default_true());
    assert_eq!(default_debounce(), 300);
    assert_eq!(
        LayoutSettings::default(),
        LayoutSettings {
            auto_save: true,
            debounce_ms: 300,
            responsive: ResponsiveBreakpoints { small_width: 80, medium_width: 120, large_width: 160 }
        }
    );
    assert_eq!(ResponsiveBreakpoints::default().medium_width, 120);
    let theme = ThemeConfig::default();
    assert_eq!(theme.name, "default");
    assert_eq!(theme.styles, None);
    let colors = theme.colors.unwrap();
    assert_eq!(colors.len(), 3);
    assert_eq!(colors.get("primary"), Some(&"cyan".to_string()));
    assert_eq!(colors.get("background"), Some(&"black".to_string()));
    assert_eq!(colors.get("foreground"), Some(&"white".to_string()));
}

#[test]
fn string_map_keeps_keys_once_and_in_order() {
    let mut map: StringMap<u32> = StringMap::new();
    assert!(map.is_empty());
    assert_eq!(map.insert("b".to_string(), 1), None);
    assert_eq!(map.insert("a".to_string(), 2), None);
    assert_eq!(map.insert("b".to_string(), 3), Some(1));
    assert_eq!(map.len(), 2);
    assert_eq!(map.key_at(0), "b");
    assert_eq!(map.value_at(0), &3);
    assert_eq!(map.key_at(1), "a");
    assert_eq!(map.get("a"), Some(&2));
    assert_eq!(map.get("c"), None);
    assert!(map.contains_key("b"));
    map.attest();
    let copy = map.clone();
    assert_eq!(copy, map);
    assert_eq!(map.remove("b"), Some(3));
    assert_eq!(map.remove("b"), None);
    assert_eq!(map.len(), 1);
    assert_eq!(map.key_at(0), "a");
    assert_eq!(copy.len(), 2);
    let mut same: StringMap<u32> = StringMap::new();
    same.insert("a".to_string(), 2);
    same.insert("b".to_string(), 3);
    assert_eq!(same, copy);
    same.insert("b".to_string(), 4);
    assert_ne!(same, copy);
    same.remove("b");
    assert_ne!(same, copy);
    assert_ne!(copy, same);
    let mut texts: StringMap<String> = StringMap::new();
    texts.insert_text("k", "v");
    texts.insert_text("k", "w");
    assert_eq!(texts.get("k"), Some(&"w".to_string()));
    assert_eq!(texts.len(), 1);
}
