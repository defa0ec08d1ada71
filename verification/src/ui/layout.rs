//! Widgets, their placement rules, and the engine that turns a terminal
//! area into one area per visible widget.

use crate::collections::StringMap;
use crate::config::layout_config::LayoutConfig;
use crate::error::LofiTurtleError;
use ratatui::layout::{
    Constraint as SolverConstraint, Direction as SolverDirection, Layout, Rect as SolverRect,
};
use std::collections::HashMap;
use vstd::prelude::*;

verus! {

/// Where a widget sits in the layout.
#[derive(Debug, Clone, Copy, PartialEq, Eq, Hash, Structural)]
pub enum Position {
    Left,
    Right,
    Top,
    Bottom,
    Center,
}

/// How much room a widget asks for.
#[derive(Debug, Clone, Copy, PartialEq, Eq, Structural)]
pub enum SizeConstraint {
    Percentage(u16),
    Length(u16),
    Min(u16),
    Max(u16),
    Fill,
}

/// A size rule as the layout solver takes it.
#[derive(Debug, Clone, Copy, PartialEq, Eq, Structural)]
pub enum Constraint {
    Percentage(u16),
    Length(u16),
    Min(u16),
    Max(u16),
    /// A share of the room that is left over, by weight.
    Fill(u16),
}

impl SizeConstraint {
    /// The rule handed to the solver: `Fill` takes one share of what is
    /// left over.
    pub open spec fn as_constraint(self) -> Constraint {
        match self {
            SizeConstraint::Percentage(p) => Constraint::Percentage(p),
            SizeConstraint::Length(l) => Constraint::Length(l),
            SizeConstraint::Min(m) => Constraint::Min(m),
            SizeConstraint::Max(m) => Constraint::Max(m),
            SizeConstraint::Fill => Constraint::Fill(1),
        }
    }
}

impl From<SizeConstraint> for Constraint {
    fn from(constraint: SizeConstraint) -> (rule: Self) {
        match constraint {
            SizeConstraint::Percentage(p) => Constraint::Percentage(p),
            SizeConstraint::Length(l) => Constraint::Length(l),
            SizeConstraint::Min(m) => Constraint::Min(m),
            SizeConstraint::Max(m) => Constraint::Max(m),
            SizeConstraint::Fill => Constraint::Fill(1),
        }
    }
}

impl vstd::std_specs::convert::FromSpecImpl<SizeConstraint> for Constraint {
    open spec fn obeys_from_spec() -> bool {
        true
    }

    open spec fn from_spec(constraint: SizeConstraint) -> Constraint {
        constraint.as_constraint()
    }
}

/// The direction in which an area is cut into parts.
#[derive(Debug, Clone, Copy, PartialEq, Eq, Structural)]
pub enum Direction {
    Horizontal,
    Vertical,
}

/// A rectangle of terminal cells.
#[derive(Debug, Clone, Copy, PartialEq, Eq, Hash, Structural)]
pub struct Rect {
    pub x: u16,
    pub y: u16,
    pub width: u16,
    pub height: u16,
}

impl Rect {
    /// The rectangle with the given corner and size.
    pub fn new(x: u16, y: u16, width: u16, height: u16) -> (rect: Self)
        ensures
            rect == (Rect { x, y, width, height }),
    {
        Rect { x, y, width, height }
    }
}

/// The kinds of widget.
#[derive(Debug, Clone, Copy, PartialEq, Eq, Structural)]
pub enum WidgetType {
    Sidebar,
    PlaylistView,
    NowPlaying,
    ProgressBar,
    Waveform,
    StatusBar,
    AlbumArt,
    VolumeControl,
    SearchBox,
}

/// Colours of a widget, by name.
#[derive(Debug, Clone, PartialEq, Eq)]
pub struct WidgetStyle {
    pub fg_color: Option<String>,
    pub bg_color: Option<String>,
    pub border_color: Option<String>,
    pub highlight_color: Option<String>,
    pub selected_color: Option<String>,
}

impl Default for WidgetStyle {
    fn default() -> (style: Self)
        ensures
            style.fg_color is None,
            style.bg_color is None,
            style.border_color is None,
            style.highlight_color is None,
            style.selected_color is None,
    {
        WidgetStyle {
            fg_color: None,
            bg_color: None,
            border_color: None,
            highlight_color: None,
            selected_color: None,
        }
    }
}

/// One widget of a layout.
#[derive(Debug, Clone, PartialEq, Eq)]
pub struct WidgetConfig {
    pub name: String,
    pub widget_type: WidgetType,
    pub position: Position,
    pub size: SizeConstraint,
    pub visible: bool,
    pub border: bool,
    pub title: Option<String>,
    pub style: WidgetStyle,
}

/// Whether a widget is shown where nothing is said about it.
pub fn default_true() -> (shown: bool)
    ensures
        shown,
{
    true
}

/// How text of a theme element looks.
#[derive(Debug, Clone, PartialEq, Eq)]
pub struct StyleConfig {
    pub fg: Option<String>,
    pub bg: Option<String>,
    pub bold: Option<bool>,
    pub italic: Option<bool>,
    pub underline: Option<bool>,
}

/// A theme: its name, its colours by role, and its styles by element.
#[derive(Debug, Clone, PartialEq, Eq)]
pub struct ThemeConfig {
    pub name: String,
    pub colors: Option<StringMap<String>>,
    pub styles: Option<StringMap<StyleConfig>>,
}

impl Default for ThemeConfig {
    fn default() -> (theme: Self)
        ensures
            theme.name@ == "default"@,
            theme.styles is None,
            theme.colors matches Some(colors) && colors.texts() == Map::<
                Seq<char>,
                Seq<char>,
            >::empty().insert("primary"@, "cyan"@).insert("background"@, "black"@).insert(
                "foreground"@,
                "white"@,
            ),
    {
        let mut colors: StringMap<String> = StringMap::new();
        assert(colors.texts() =~= Map::<Seq<char>, Seq<char>>::empty());
        colors.insert_text("primary", "cyan");
        colors.insert_text("background", "black");
        colors.insert_text("foreground", "white");
        ThemeConfig { name: "default".to_string(), colors: Some(colors), styles: None }
    }
}

/// The terminal widths at which the layout changes.
#[derive(Debug, Clone, Copy, PartialEq, Eq, Structural)]
pub struct ResponsiveBreakpoints {
    pub small_width: u16,
    pub medium_width: u16,
    pub large_width: u16,
}

impl Default for ResponsiveBreakpoints {
    fn default() -> (breakpoints: Self)
        ensures
            breakpoints == (ResponsiveBreakpoints {
                small_width: 80,
                medium_width: 120,
                large_width: 160,
            }),
    {
        ResponsiveBreakpoints { small_width: 80, medium_width: 120, large_width: 160 }
    }
}

/// Settings of a layout.
#[derive(Debug, Clone, Copy, PartialEq, Eq, Structural)]
pub struct LayoutSettings {
    pub auto_save: bool,
    pub debounce_ms: u64,
    pub responsive: ResponsiveBreakpoints,
}

/// The wait before a changed layout is saved, in milliseconds, where
/// nothing is said about it.
pub fn default_debounce() -> (milliseconds: u64)
    ensures
        milliseconds == 300,
{
    300
}

impl Default for LayoutSettings {
    fn default() -> (settings: Self)
        ensures
            settings == (LayoutSettings {
                auto_save: true,
                debounce_ms: 300,
                responsive: ResponsiveBreakpoints {
                    small_width: 80,
                    medium_width: 120,
                    large_width: 160,
                },
            }),
    {
        LayoutSettings {
            auto_save: true,
            debounce_ms: 300,
            responsive: ResponsiveBreakpoints::default(),
        }
    }
}

/// How wide the terminal is, in four steps.
#[derive(Debug, Clone, Copy, PartialEq, Eq, Structural)]
pub enum ResponsiveMode {
    Small,
    Medium,
    Large,
    ExtraLarge,
}

/// `ratatui`'s `Layout::split`, with no margin and the default flex and
/// spacing: the area is cut along `direction` into one part per rule, in
/// the order of the rules. How large the parts come out is the solver's
/// business and is not stated.
#[verifier::external_body]
fn split_area(direction: Direction, rules: &Vec<Constraint>, area: Rect) -> (parts: Vec<Rect>)
    ensures
        parts@.len() == rules@.len(),
{
    let rules = rules.iter().map(|rule| match *rule {
        Constraint::Percentage(p) => SolverConstraint::Percentage(p),
        Constraint::Length(l) => SolverConstraint::Length(l),
        Constraint::Min(m) => SolverConstraint::Min(m),
        Constraint::Max(m) => SolverConstraint::Max(m),
        Constraint::Fill(f) => SolverConstraint::Fill(f),
    });
    let layout = Layout::default().constraints(rules).direction(match direction {
        Direction::Horizontal => SolverDirection::Horizontal,
        Direction::Vertical => SolverDirection::Vertical,
    });
    let area = SolverRect { x: area.x, y: area.y, width: area.width, height: area.height };
    layout.split(area).iter().map(|p| Rect::new(p.x, p.y, p.width, p.height)).collect()
}

/// The widgets among `widgets` that are visible at `position`, in order.
pub open spec fn shown_at(widgets: Seq<WidgetConfig>, position: Position) -> Seq<WidgetConfig> {
    widgets.filter(|w: WidgetConfig| w.visible && w.position == position)
}

/// Some widget among `widgets` is called `name`.
pub open spec fn named_in(widgets: Seq<WidgetConfig>, name: Seq<char>) -> bool {
    exists|i: int| 0 <= i < widgets.len() && (#[trigger] widgets[i]).name@ == name
}

/// The names of the visible widgets.
pub open spec fn visible_names(widgets: Seq<WidgetConfig>) -> Set<Seq<char>> {
    Set::new(|name: Seq<char>| named_in(widgets.filter(|w: WidgetConfig| w.visible), name))
}

/// `layout` after each widget was given the area at its place in `areas`,
/// as far as both lists reach; a later widget takes the place of an earlier
/// one of the same name.
pub open spec fn placed(
    layout: Map<Seq<char>, Rect>,
    widgets: Seq<WidgetConfig>,
    areas: Seq<Rect>,
) -> Map<Seq<char>, Rect>
    decreases widgets.len(),
{
    if widgets.len() == 0 {
        layout
    } else if widgets.len() > areas.len() {
        placed(layout, widgets.drop_last(), areas)
    } else {
        placed(layout, widgets.drop_last(), areas).insert(
            widgets.last().name@,
            areas[widgets.len() - 1],
        )
    }
}

/// The widgets behind a list of references.
pub open spec fn referred(widgets: Seq<&WidgetConfig>) -> Seq<WidgetConfig> {
    widgets.map_values(|w: &WidgetConfig| *w)
}

proof fn lemma_placed_domain(
    layout: Map<Seq<char>, Rect>,
    widgets: Seq<WidgetConfig>,
    areas: Seq<Rect>,
    name: Seq<char>,
)
    requires
        widgets.len() <= areas.len(),
    ensures
        placed(layout, widgets, areas).contains_key(name) <==> (layout.contains_key(name)
            || named_in(widgets, name)),
    decreases widgets.len(),
{
    if widgets.len() > 0 {
        let rest = widgets.drop_last();
        lemma_placed_domain(layout, rest, areas, name);
        if named_in(rest, name) {
            let i = choose|i: int| 0 <= i < rest.len() && (#[trigger] rest[i]).name@ == name;
            assert(widgets[i].name@ == name);
        }
        if named_in(widgets, name) {
            let i = choose|i: int| 0 <= i < widgets.len() && (#[trigger] widgets[i]).name@ == name;
            if i < rest.len() {
                assert(rest[i].name@ == name);
            }
        }
        if name == widgets.last().name@ {
            assert(widgets[widgets.len() - 1].name@ == name);
        }
    }
}

proof fn lemma_filter_members(
    widgets: Seq<WidgetConfig>,
    pred: spec_fn(WidgetConfig) -> bool,
    name: Seq<char>,
)
    ensures
        named_in(widgets.filter(pred), name) <==> exists|i: int|
            0 <= i < widgets.len() && pred(#[trigger] widgets[i]) && widgets[i].name@ == name,
{
    let shown = widgets.filter(pred);
    if named_in(shown, name) {
        let i = choose|i: int| 0 <= i < shown.len() && (#[trigger] shown[i]).name@ == name;
        widgets.lemma_filter_pred(pred, i);
        assert(shown.contains(shown[i]));
        widgets.lemma_filter_contains_rev(pred, shown[i]);
        let j = choose|j: int| 0 <= j < widgets.len() && widgets[j] == shown[i];
        assert(pred(widgets[j]) && widgets[j].name@ == name);
    }
    if exists|i: int|
        0 <= i < widgets.len() && pred(#[trigger] widgets[i]) && widgets[i].name@ == name {
        let i = choose|i: int|
            0 <= i < widgets.len() && pred(#[trigger] widgets[i]) && widgets[i].name@ == name;
        widgets.lemma_filter_contains(pred, i);
        let j = choose|j: int| 0 <= j < shown.len() && shown[j] == widgets[i];
        assert(shown[j].name@ == name);
    }
}

/// Gives each widget the area at its place in `areas`, as far as both
/// lists reach.
pub fn place(layout: &mut StringMap<Rect>, widgets: &Vec<&WidgetConfig>, areas: &Vec<Rect>)
    ensures
        final(layout)@ == placed(old(layout)@, referred(widgets@), areas@),
{
    let mut i: usize = 0;
    while i < widgets.len() && i < areas.len()
        invariant
            i <= widgets.len(),
            i <= areas.len(),
            layout@ == placed(old(layout)@, referred(widgets@).take(i as int), areas@),
        decreases widgets.len() - i,
    {
        let ghost next = referred(widgets@).take(i + 1);
        assert(next.drop_last() =~= referred(widgets@).take(i as int));
        assert(next.last() == *widgets@[i as int]);
        layout.insert(widgets[i].name.clone(), areas[i]);
        i += 1;
    }
    proof {
        let all = referred(widgets@);
        lemma_placed_beyond(old(layout)@, all, areas@, i as int);
    }
}

proof fn lemma_placed_beyond(
    layout: Map<Seq<char>, Rect>,
    widgets: Seq<WidgetConfig>,
    areas: Seq<Rect>,
    i: int,
)
    requires
        0 <= i <= widgets.len(),
        i == widgets.len() || i >= areas.len(),
    ensures
        placed(layout, widgets, areas) == placed(layout, widgets.take(i), areas),
    decreases widgets.len() - i,
{
    if i == widgets.len() {
        assert(widgets.take(i) =~= widgets);
    } else {
        let rest = widgets.drop_last();
        lemma_placed_beyond(layout, rest, areas, i);
        assert(rest.take(i) =~= widgets.take(i));
    }
}

/// Turns a terminal area into one area per visible widget, and remembers
/// the answer for each size of terminal.
pub struct LayoutEngine {
    config: LayoutConfig,
    cached_layouts: HashMap<u32, StringMap<Rect>>,
}

/// The key under which the layout for a terminal of this size is
/// remembered.
pub open spec fn size_key(width: u16, height: u16) -> u32 {
    (width as u32 * 65536 + height as u32) as u32
}

impl LayoutEngine {
    #[verifier::type_invariant]
    spec fn remembers_own_layouts(self) -> bool {
        forall|key: u32| #[trigger]
            self.cached_layouts@.contains_key(key) ==> self.cached_layouts@[key]@.dom()
                == visible_names(self.config.widgets@)
    }

    /// The layout configuration in use.
    pub closed spec fn settings(self) -> LayoutConfig {
        self.config
    }

    /// The sizes of terminal for which a layout is remembered.
    pub closed spec fn remembered(self) -> Set<u32> {
        self.cached_layouts@.dom()
    }

    /// An engine for `config` that remembers nothing yet.
    pub fn new(config: LayoutConfig) -> (engine: Self)
        ensures
            engine.settings() == config,
            engine.remembered() == Set::<u32>::empty(),
    {
        let engine = LayoutEngine { config, cached_layouts: HashMap::new() };
        assert(engine.remembered() =~= Set::<u32>::empty());
        engine
    }

    /// Replaces the configuration and forgets every remembered layout.
    pub fn update_config(&mut self, config: LayoutConfig)
        ensures
            final(self).settings() == config,
            final(self).remembered() == Set::<u32>::empty(),
    {
        let mut fresh: HashMap<u32, StringMap<Rect>> = HashMap::new();
        core::mem::swap(&mut self.cached_layouts, &mut fresh);
        self.config = config;
        assert(self.remembered() =~= Set::<u32>::empty());
    }

    /// The configuration in use.
    pub fn config(&self) -> (config: &LayoutConfig)
        ensures
            *config == self.settings(),
    {
        &self.config
    }

    /// The area of each visible widget within `area`, by widget name. The
    /// answer is computed once per size of terminal and remembered.
    pub fn calculate_layout(&mut self, area: Rect) -> (result: Result<
        StringMap<Rect>,
        LofiTurtleError,
    >)
        ensures
            final(self).settings() == old(self).settings(),
            final(self).remembered() == old(self).remembered().insert(
                size_key(area.width, area.height),
            ),
            result matches Ok(layout) && layout@.dom() == visible_names(
                old(self).settings().widgets@,
            ),
    {
        let key: u32 = area.width as u32 * 65536 + area.height as u32;
        proof {
            use_type_invariant(&*self);
        }
        match self.cached_layouts.get(&key) {
            Some(cached) => {
                let copy = cached.clone();
                cached.attest();
                copy.attest();
                assert(copy@.dom() =~= cached@.dom());
                assert(self.remembered() =~= old(self).remembered().insert(key));
                return Ok(copy);
            },
            None => {},
        }
        let responsive_mode = self.config.get_responsive_mode(area.width);
        let layout = match self.build_layout(area, responsive_mode) {
            Ok(layout) => layout,
            Err(e) => {
                return Err(e);
            },
        };
        let copy = layout.clone();
        layout.attest();
        copy.attest();
        assert(copy@.dom() =~= layout@.dom());
        let mut cache: HashMap<u32, StringMap<Rect>> = HashMap::new();
        core::mem::swap(&mut self.cached_layouts, &mut cache);
        cache.insert(key, copy);
        self.cached_layouts = cache;
        assert(self.remembered() =~= old(self).remembered().insert(key));
        Ok(layout)
    }

    /// Cuts `area` up: the widgets at the top take their rows first, then
    /// those at the bottom, and what is left in the middle is shared from
    /// left to right by the widgets on the left, in the centre and on the
    /// right.
    fn build_layout(&self, area: Rect, _responsive_mode: ResponsiveMode) -> (result: Result<
        StringMap<Rect>,
        LofiTurtleError,
    >)
        ensures
            result matches Ok(layout) && layout@.dom() == visible_names(self.config.widgets@),
    {
        let mut result: StringMap<Rect> = StringMap::new();
        let mut current_area = area;
        let ghost widgets = self.config.widgets@;
        let ghost mut top_areas: Seq<Rect> = Seq::empty();
        let ghost mut bottom_areas: Seq<Rect> = Seq::empty();
        let ghost mut middle_areas: Seq<Rect> = Seq::empty();

        let top_widgets = self.get_visible_widgets_by_pos(Position::Top);
        if top_widgets.len() > 0 {
            let (areas, remaining) = self.split_vertical(current_area, &top_widgets, true);
            place(&mut result, &top_widgets, &areas);
            current_area = remaining;
            proof {
                top_areas = areas@;
            }
        }
        let ghost after_top = result@;

        let bottom_widgets = self.get_visible_widgets_by_pos(Position::Bottom);
        if bottom_widgets.len() > 0 {
            let (areas, remaining) = self.split_vertical(current_area, &bottom_widgets, false);
            place(&mut result, &bottom_widgets, &areas);
            current_area = remaining;
            proof {
                bottom_areas = areas@;
            }
        }
        let ghost after_bottom = result@;

        let left_widgets = self.get_visible_widgets_by_pos(Position::Left);
        let center_widgets = self.get_visible_widgets_by_pos(Position::Center);
        let right_widgets = self.get_visible_widgets_by_pos(Position::Right);

        let mut rules: Vec<Constraint> = Vec::new();
        let mut middle_widgets: Vec<&WidgetConfig> = Vec::new();
        gather(&mut rules, &mut middle_widgets, &left_widgets);
        gather(&mut rules, &mut middle_widgets, &center_widgets);
        gather(&mut rules, &mut middle_widgets, &right_widgets);

        if rules.len() > 0 {
            let areas = split_area(Direction::Horizontal, &rules, current_area);
            place(&mut result, &middle_widgets, &areas);
            proof {
                middle_areas = areas@;
            }
        }
        proof {
            let top = shown_at(widgets, Position::Top);
            let bottom = shown_at(widgets, Position::Bottom);
            let left = shown_at(widgets, Position::Left);
            let center = shown_at(widgets, Position::Center);
            let right = shown_at(widgets, Position::Right);
            let middle = referred(middle_widgets@);
            assert(middle =~= left + center + right);
            assert(after_top == placed(Map::empty(), top, top_areas));
            assert(after_bottom == placed(after_top, bottom, bottom_areas));
            assert(result@ == placed(after_bottom, middle, middle_areas));
            assert forall|name: Seq<char>| result@.contains_key(name) <==> visible_names(
                widgets,
            ).contains(name) by {
                lemma_placed_domain(Map::empty(), top, top_areas, name);
                lemma_placed_domain(after_top, bottom, bottom_areas, name);
                lemma_placed_domain(after_bottom, middle, middle_areas, name);
                lemma_filter_members(
                    widgets,
                    |w: WidgetConfig| w.visible && w.position == Position::Top,
                    name,
                );
                lemma_filter_members(
                    widgets,
                    |w: WidgetConfig| w.visible && w.position == Position::Bottom,
                    name,
                );
                lemma_filter_members(
                    widgets,
                    |w: WidgetConfig| w.visible && w.position == Position::Left,
                    name,
                );
                lemma_filter_members(
                    widgets,
                    |w: WidgetConfig| w.visible && w.position == Position::Center,
                    name,
                );
                lemma_filter_members(
                    widgets,
                    |w: WidgetConfig| w.visible && w.position == Position::Right,
                    name,
                );
                lemma_filter_members(widgets, |w: WidgetConfig| w.visible, name);
                if named_in(middle, name) {
                    let i = choose|i: int|
                        0 <= i < middle.len() && (#[trigger] middle[i]).name@ == name;
                    if i < left.len() {
                        assert(left[i].name@ == name);
                    } else if i < left.len() + center.len() {
                        assert(center[i - left.len()].name@ == name);
                    } else {
                        assert(right[i - left.len() - center.len()].name@ == name);
                    }
                }
                if named_in(left, name) {
                    let i = choose|i: int| 0 <= i < left.len() && (#[trigger] left[i]).name@ == name;
                    assert(middle[i].name@ == name);
                }
                if named_in(center, name) {
                    let i = choose|i: int|
                        0 <= i < center.len() && (#[trigger] center[i]).name@ == name;
                    assert(middle[left.len() + i].name@ == name);
                }
                if named_in(right, name) {
                    let i = choose|i: int|
                        0 <= i < right.len() && (#[trigger] right[i]).name@ == name;
                    assert(middle[left.len() + center.len() + i].name@ == name);
                }
                if exists|i: int|
                    0 <= i < widgets.len() && (#[trigger] widgets[i]).visible && widgets[i].name@
                        == name {
                    let i = choose|i: int|
                        0 <= i < widgets.len() && (#[trigger] widgets[i]).visible
                            && widgets[i].name@ == name;
                    match widgets[i].position {
                        Position::Top => {},
                        Position::Bottom => {},
                        Position::Left => {},
                        Position::Center => {},
                        Position::Right => {},
                    }
                }
            }
            assert(result@.dom() =~= visible_names(widgets));
        }
        Ok(result)
    }

    /// The visible widgets at `pos`, in the order of the configuration.
    fn get_visible_widgets_by_pos(&self, pos: Position) -> (found: Vec<&WidgetConfig>)
        ensures
            referred(found@) == shown_at(self.config.widgets@, pos),
    {
        self.config.widgets_by_position(pos)
    }

    /// Cuts the rows for `widgets` off `area`, at its top or at its bottom,
    /// and hands back those rows, one area per widget, and the rest of the
    /// area.
    fn split_vertical(&self, area: Rect, widgets: &Vec<&WidgetConfig>, is_top: bool) -> (cut: (
        Vec<Rect>,
        Rect,
    ))
        ensures
            cut.0@.len() == widgets@.len(),
    {
        let mut rules: Vec<Constraint> = Vec::new();
        if !is_top {
            rules.push(Constraint::Fill(1));
        }
        let mut i: usize = 0;
        while i < widgets.len()
            invariant
                i <= widgets.len(),
                rules@.len() == i + if is_top {
                    0int
                } else {
                    1int
                },
            decreases widgets.len() - i,
        {
            rules.push(Constraint::from(widgets[i].size));
            i += 1;
        }
        if is_top {
            rules.push(Constraint::Fill(1));
        }
        let mut parts = split_area(Direction::Vertical, &rules, area);
        if is_top {
            let remaining = parts.pop();
            match remaining {
                Some(rest) => (parts, rest),
                None => (parts, area),
            }
        } else {
            let remaining = parts.remove(0);
            (parts, remaining)
        }
    }
}

/// Appends the widgets and their size rules to the lists for the middle
/// row.
fn gather<'a>(
    rules: &mut Vec<Constraint>,
    gathered: &mut Vec<&'a WidgetConfig>,
    widgets: &Vec<&'a WidgetConfig>,
)
    requires
        old(rules)@.len() == old(gathered)@.len(),
    ensures
        final(rules)@.len() == final(gathered)@.len(),
        final(gathered)@ == old(gathered)@ + widgets@,
{
    let mut i: usize = 0;
    while i < widgets.len()
        invariant
            i <= widgets.len(),
            rules@.len() == gathered@.len(),
            gathered@ == old(gathered)@ + widgets@.take(i as int),
        decreases widgets.len() - i,
    {
        rules.push(Constraint::from(widgets[i].size));
        gathered.push(widgets[i]);
        i += 1;
        assert(gathered@ =~= old(gathered)@ + widgets@.take(i as int));
    }
    assert(widgets@.take(widgets.len() as int) =~= widgets@);
}

} // verus!
