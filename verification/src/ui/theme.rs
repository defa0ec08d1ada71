//! Colours, palettes, the theme manager and the built-in themes.

use crate::collections::StringMap;
use crate::text::{lowercase, parse_hex_u32, parse_u8, unsigned_value};
use crate::ui::layout::ThemeConfig;
use vstd::prelude::*;

verus! {

/// A terminal colour.
#[derive(Debug, Clone, Copy, PartialEq, Eq, Hash, Structural)]
pub enum Color {
    Reset,
    Black,
    Red,
    Green,
    Yellow,
    Blue,
    Magenta,
    Cyan,
    Gray,
    DarkGray,
    LightRed,
    LightGreen,
    LightYellow,
    LightBlue,
    LightMagenta,
    LightCyan,
    White,
    Rgb(u8, u8, u8),
    Indexed(u8),
}

/// How a piece of text is drawn.
#[derive(Debug, Clone, Copy, PartialEq, Eq, Structural)]
pub struct Style {
    pub fg: Option<Color>,
    pub bg: Option<Color>,
    pub bold: bool,
}

impl Default for Style {
    fn default() -> (style: Self)
        ensures
            style == (Style { fg: None, bg: None, bold: false }),
    {
        Style { fg: None, bg: None, bold: false }
    }
}

impl Style {
    /// The style with this foreground colour.
    pub fn fg(self, color: Color) -> (style: Self)
        ensures
            style == (Style { fg: Some(color), ..self }),
    {
        Style { fg: Some(color), bg: self.bg, bold: self.bold }
    }

    /// The style with this background colour.
    pub fn bg(self, color: Color) -> (style: Self)
        ensures
            style == (Style { bg: Some(color), ..self }),
    {
        Style { fg: self.fg, bg: Some(color), bold: self.bold }
    }

    /// The style in bold.
    pub fn bold(self) -> (style: Self)
        ensures
            style == (Style { bold: true, ..self }),
    {
        Style { fg: self.fg, bg: self.bg, bold: true }
    }
}

/// The colour with the given lower-case name.
pub open spec fn named_color(lower: Seq<char>) -> Option<Color> {
    if lower == "black"@ {
        Some(Color::Black)
    } else if lower == "red"@ {
        Some(Color::Red)
    } else if lower == "green"@ {
        Some(Color::Green)
    } else if lower == "yellow"@ {
        Some(Color::Yellow)
    } else if lower == "blue"@ {
        Some(Color::Blue)
    } else if lower == "magenta"@ {
        Some(Color::Magenta)
    } else if lower == "cyan"@ {
        Some(Color::Cyan)
    } else if lower == "gray"@ || lower == "grey"@ {
        Some(Color::Gray)
    } else if lower == "dark_gray"@ || lower == "dark_grey"@ {
        Some(Color::DarkGray)
    } else if lower == "light_red"@ || lower == "bright_red"@ {
        Some(Color::LightRed)
    } else if lower == "light_green"@ || lower == "bright_green"@ {
        Some(Color::LightGreen)
    } else if lower == "light_yellow"@ || lower == "bright_yellow"@ {
        Some(Color::LightYellow)
    } else if lower == "light_blue"@ || lower == "bright_blue"@ {
        Some(Color::LightBlue)
    } else if lower == "light_magenta"@ || lower == "bright_magenta"@ {
        Some(Color::LightMagenta)
    } else if lower == "light_cyan"@ || lower == "bright_cyan"@ {
        Some(Color::LightCyan)
    } else if lower == "white"@ {
        Some(Color::White)
    } else if lower == "reset"@ {
        Some(Color::Reset)
    } else {
        None
    }
}

/// The colour that the number `rgb` stands for: red in its third byte,
/// green in its second, blue in its first.
pub open spec fn rgb_color(rgb: nat) -> Color {
    Color::Rgb(((rgb / 65536) % 256) as u8, ((rgb / 256) % 256) as u8, (rgb % 256) as u8)
}

/// The colour that `text` spells, where `lower` is the text in lower case:
/// a colour name; or `#` and six hexadecimal digits; or, for a text that
/// does not start with `#`, the decimal number of an indexed colour.
pub open spec fn color_of(text: Seq<char>, lower: Seq<char>) -> Option<Color> {
    if named_color(lower) is Some {
        named_color(lower)
    } else if text.len() > 0 && text[0] == '#' {
        if text.len() == 7 {
            match unsigned_value(text.skip(1), 16) {
                Some(rgb) => Some(rgb_color(rgb)),
                None => None,
            }
        } else {
            None
        }
    } else {
        match unsigned_value(text, 10) {
            Some(index) => if index <= u8::MAX {
                Some(Color::Indexed(index as u8))
            } else {
                None
            },
            None => None,
        }
    }
}

proof fn lemma_six_digits_fit(s: Seq<char>, n: nat)
    requires
        s.len() <= n,
        n <= 6,
        digits_value_is_some(s),
    ensures
        crate::text::digits_value(s, 16)->0 < pow16(s.len()),
    decreases s.len(),
{
    if s.len() > 0 {
        lemma_six_digits_fit(s.drop_last(), (n - 1) as nat);
    }
}

/// The digits spell a number in base 16.
spec fn digits_value_is_some(s: Seq<char>) -> bool {
    crate::text::digits_value(s, 16) is Some
}

/// Sixteen to the power of `n`.
spec fn pow16(n: nat) -> nat
    decreases n,
{
    if n == 0 {
        1
    } else {
        16 * pow16((n - 1) as nat)
    }
}

fn named(lower: &str) -> (color: Option<Color>)
    ensures
        color == named_color(lower@),
{
    if lower.eq("black") {
        Some(Color::Black)
    } else if lower.eq("red") {
        Some(Color::Red)
    } else if lower.eq("green") {
        Some(Color::Green)
    } else if lower.eq("yellow") {
        Some(Color::Yellow)
    } else if lower.eq("blue") {
        Some(Color::Blue)
    } else if lower.eq("magenta") {
        Some(Color::Magenta)
    } else if lower.eq("cyan") {
        Some(Color::Cyan)
    } else if lower.eq("gray") || lower.eq("grey") {
        Some(Color::Gray)
    } else if lower.eq("dark_gray") || lower.eq("dark_grey") {
        Some(Color::DarkGray)
    } else if lower.eq("light_red") || lower.eq("bright_red") {
        Some(Color::LightRed)
    } else if lower.eq("light_green") || lower.eq("bright_green") {
        Some(Color::LightGreen)
    } else if lower.eq("light_yellow") || lower.eq("bright_yellow") {
        Some(Color::LightYellow)
    } else if lower.eq("light_blue") || lower.eq("bright_blue") {
        Some(Color::LightBlue)
    } else if lower.eq("light_magenta") || lower.eq("bright_magenta") {
        Some(Color::LightMagenta)
    } else if lower.eq("light_cyan") || lower.eq("bright_cyan") {
        Some(Color::LightCyan)
    } else if lower.eq("white") {
        Some(Color::White)
    } else if lower.eq("reset") {
        Some(Color::Reset)
    } else {
        None
    }
}

/// Colours by role.
#[derive(Debug, Clone, PartialEq, Eq)]
pub struct ColorPalette {
    colors: StringMap<Color>,
}

impl View for ColorPalette {
    type V = Map<Seq<char>, Color>;

    closed spec fn view(&self) -> Map<Seq<char>, Color> {
        self.colors@
    }
}

/// The palette that a list of colour texts gives, where `lower` holds each
/// text in lower case: each role whose text spells a colour gets that
/// colour, a later entry overriding an earlier one of the same role.
pub open spec fn palette_of(
    roles: Seq<Seq<char>>,
    texts: Seq<Seq<char>>,
    lower: Seq<Seq<char>>,
) -> Map<Seq<char>, Color>
    decreases roles.len(),
{
    if roles.len() == 0 || texts.len() < roles.len() || lower.len() < roles.len() {
        Map::empty()
    } else {
        let rest = palette_of(roles.drop_last(), texts, lower);
        match color_of(texts[roles.len() - 1], lower[roles.len() - 1]) {
            Some(color) => rest.insert(roles.last(), color),
            None => rest,
        }
    }
}

/// Each text in lower case.
pub open spec fn lowered(texts: Seq<Seq<char>>) -> Seq<Seq<char>> {
    texts.map_values(|text: Seq<char>| lowercase(text))
}

/// The texts of a list of strings.
pub open spec fn texts_of(strings: Seq<String>) -> Seq<Seq<char>> {
    strings.map_values(|s: String| s@)
}

impl ColorPalette {
    /// The palette of a theme: every role of the theme whose text spells a
    /// colour, with that colour.
    pub fn from_theme(theme: &ThemeConfig) -> (palette: Self)
        ensures
            palette@ == match theme.colors {
                Some(colors) => palette_of(
                    colors.keys(),
                    texts_of(colors.values()),
                    lowered(texts_of(colors.values())),
                ),
                None => Map::empty(),
            },
    {
        let mut found: StringMap<Color> = StringMap::new();
        match &theme.colors {
            Some(theme_colors) => {
                theme_colors.attest();
                let count = theme_colors.len();
                let ghost roles = theme_colors.keys();
                let ghost texts = texts_of(theme_colors.values());
                let ghost lower = lowered(texts);
                let mut i: usize = 0;
                while i < count
                    invariant
                        i <= count,
                        count == roles.len(),
                        roles == theme_colors.keys(),
                        texts == texts_of(theme_colors.values()),
                        lower == lowered(texts),
                        texts.len() == roles.len(),
                        found@ == palette_of(roles.take(i as int), texts, lower),
                    decreases count - i,
                {
                    let ghost next = roles.take(i + 1);
                    assert(next.drop_last() =~= roles.take(i as int));
                    assert(next.last() == roles[i as int]);
                    let role = theme_colors.key_at(i);
                    let text = theme_colors.value_at(i);
                    match ColorPalette::parse_color(text.as_str()) {
                        Some(color) => {
                            found.insert(role.clone(), color);
                        },
                        None => {},
                    }
                    i += 1;
                }
                assert(roles.take(count as int) =~= roles);
            },
            None => {},
        }
        ColorPalette { colors: found }
    }

    /// The colour of a role.
    pub fn get(&self, name: &str) -> (color: Option<Color>)
        ensures
            color == if self@.contains_key(name@) {
                Some(self@[name@])
            } else {
                None
            },
    {
        match self.colors.get(name) {
            Some(color) => Some(*color),
            None => None,
        }
    }

    /// The colour of a role, or `fallback` where the role has none.
    pub fn get_or(&self, name: &str, fallback: Color) -> (color: Color)
        ensures
            color == if self@.contains_key(name@) {
                self@[name@]
            } else {
                fallback
            },
    {
        match self.colors.get(name) {
            Some(color) => *color,
            None => fallback,
        }
    }

    /// The colour that `color_str` spells, where `lower` is that text in
    /// lower case.
    pub fn parse_color_with(color_str: &str, lower: &str) -> (color: Option<Color>)
        ensures
            color == color_of(color_str@, lower@),
    {
        let by_name = named(lower);
        if by_name.is_some() {
            return by_name;
        }
        let length = color_str.unicode_len();
        if length > 0 && color_str.get_char(0) == '#' {
            if length == 7 {
                let digits = color_str.substring_char(1, 7);
                assert(digits@ =~= color_str@.skip(1));
                match parse_hex_u32(digits) {
                    Some(rgb) => {
                        let r = ((rgb / 65536) % 256) as u8;
                        let g = ((rgb / 256) % 256) as u8;
                        let b = (rgb % 256) as u8;
                        return Some(Color::Rgb(r, g, b));
                    },
                    None => {
                        proof {
                            lemma_six_digits_need_no_more(digits@);
                        }
                        return None;
                    },
                }
            }
            return None;
        }
        match parse_u8(color_str) {
            Some(index) => Some(Color::Indexed(index)),
            None => None,
        }
    }

    /// The colour that `color_str` spells: a colour name in any case; or
    /// `#` and six hexadecimal digits; or the decimal number of an indexed
    /// colour.
    pub fn parse_color(color_str: &str) -> (color: Option<Color>)
        ensures
            color == color_of(color_str@, lowercase(color_str@)),
    {
        let lower = color_str.to_lowercase();
        ColorPalette::parse_color_with(color_str, lower.as_str())
    }

    /// The colour that `color_str` spells, or `fallback` where there is no
    /// text or it spells none.
    pub fn get_color_from_option(color_str: Option<&String>, fallback: Color) -> (color: Color)
        ensures
            color == match color_str {
                Some(text) => match color_of(text@, lowercase(text@)) {
                    Some(c) => c,
                    None => fallback,
                },
                None => fallback,
            },
    {
        match color_str {
            Some(text) => match ColorPalette::parse_color(text.as_str()) {
                Some(color) => color,
                None => fallback,
            },
            None => fallback,
        }
    }
}

proof fn lemma_six_digits_need_no_more(digits: Seq<char>)
    requires
        digits.len() == 6,
    ensures
        unsigned_value(digits, 16) matches Some(value) ==> value <= u32::MAX,
{
    let body = if digits[0] == '+' {
        digits.skip(1)
    } else {
        digits
    };
    if crate::text::digits_value(body, 16) is Some {
        lemma_six_digits_fit(body, 6);
        assert(pow16(6) == 16777216) by {
            reveal_with_fuel(pow16, 7);
        }
        assert(pow16(5) <= 16777216) by {
            reveal_with_fuel(pow16, 7);
        }
        assert(pow16(body.len()) <= 16777216);
    }
}

/// The styles of the user interface under a theme.
#[derive(Debug, Clone, PartialEq, Eq)]
pub struct ThemeManager {
    palette: ColorPalette,
    theme_config: ThemeConfig,
}

impl ThemeManager {
    /// The colours in use, by role.
    pub closed spec fn colors(self) -> Map<Seq<char>, Color> {
        self.palette@
    }

    /// The theme in use.
    pub closed spec fn theme(self) -> ThemeConfig {
        self.theme_config
    }

    /// The colour of `role`, or `fallback` where the theme gives none.
    pub open spec fn color(self, role: Seq<char>, fallback: Color) -> Color {
        if self.colors().contains_key(role) {
            self.colors()[role]
        } else {
            fallback
        }
    }

    /// The palette that belongs to a theme.
    pub open spec fn colors_of(theme: ThemeConfig) -> Map<Seq<char>, Color> {
        match theme.colors {
            Some(colors) => palette_of(
                colors.keys(),
                texts_of(colors.values()),
                lowered(texts_of(colors.values())),
            ),
            None => Map::empty(),
        }
    }

    /// A manager for the theme.
    pub fn new(theme_config: ThemeConfig) -> (manager: Self)
        ensures
            manager.theme() == theme_config,
            manager.colors() == Self::colors_of(theme_config),
    {
        let palette = ColorPalette::from_theme(&theme_config);
        ThemeManager { palette, theme_config }
    }

    /// The colours in use.
    pub fn palette(&self) -> (palette: &ColorPalette)
        ensures
            palette@ == self.colors(),
    {
        &self.palette
    }

    /// The theme in use.
    pub fn config(&self) -> (config: &ThemeConfig)
        ensures
            *config == self.theme(),
    {
        &self.theme_config
    }

    /// Ordinary text.
    pub fn normal_style(&self) -> (style: Style)
        ensures
            style == (Style {
                fg: Some(self.color("foreground"@, Color::White)),
                bg: Some(self.color("background"@, Color::Black)),
                bold: false,
            }),
    {
        Style::default().fg(self.palette.get_or("foreground", Color::White)).bg(
            self.palette.get_or("background", Color::Black),
        )
    }

    /// Highlighted text.
    pub fn highlight_style(&self) -> (style: Style)
        ensures
            style == (Style {
                fg: Some(self.color("highlight"@, Color::Cyan)),
                bg: Some(self.color("background"@, Color::Black)),
                bold: true,
            }),
    {
        Style::default().fg(self.palette.get_or("highlight", Color::Cyan)).bg(
            self.palette.get_or("background", Color::Black),
        ).bold()
    }

    /// The selected item.
    pub fn selected_style(&self) -> (style: Style)
        ensures
            style == (Style {
                fg: Some(self.color("background"@, Color::Black)),
                bg: Some(self.color("primary"@, Color::Cyan)),
                bold: true,
            }),
    {
        Style::default().fg(self.palette.get_or("background", Color::Black)).bg(
            self.palette.get_or("primary", Color::Cyan),
        ).bold()
    }

    /// Borders.
    pub fn border_style(&self) -> (style: Style)
        ensures
            style == (Style {
                fg: Some(self.color("border"@, Color::Gray)),
                bg: None,
                bold: false,
            }),
    {
        Style::default().fg(self.palette.get_or("border", Color::Gray))
    }

    /// Titles.
    pub fn title_style(&self) -> (style: Style)
        ensures
            style == (Style {
                fg: Some(self.color("primary"@, Color::Cyan)),
                bg: None,
                bold: true,
            }),
    {
        Style::default().fg(self.palette.get_or("primary", Color::Cyan)).bold()
    }

    /// The track that plays.
    pub fn playing_style(&self) -> (style: Style)
        ensures
            style == (Style {
                fg: Some(self.color("playing"@, Color::Green)),
                bg: None,
                bold: true,
            }),
    {
        Style::default().fg(self.palette.get_or("playing", Color::Green)).bold()
    }

    /// The track that is paused.
    pub fn paused_style(&self) -> (style: Style)
        ensures
            style == (Style {
                fg: Some(self.color("paused"@, Color::Yellow)),
                bg: None,
                bold: false,
            }),
    {
        Style::default().fg(self.palette.get_or("paused", Color::Yellow))
    }

    /// The progress bar.
    pub fn progress_style(&self) -> (style: Style)
        ensures
            style == (Style {
                fg: Some(self.color("progress"@, Color::Blue)),
                bg: Some(self.color("background"@, Color::Black)),
                bold: false,
            }),
    {
        Style::default().fg(self.palette.get_or("progress", Color::Blue)).bg(
            self.palette.get_or("background", Color::Black),
        )
    }

    /// Error messages.
    pub fn error_style(&self) -> (style: Style)
        ensures
            style == (Style {
                fg: Some(self.color("error"@, Color::Red)),
                bg: None,
                bold: true,
            }),
    {
        Style::default().fg(self.palette.get_or("error", Color::Red)).bold()
    }

    /// Success messages.
    pub fn success_style(&self) -> (style: Style)
        ensures
            style == (Style {
                fg: Some(self.color("success"@, Color::Green)),
                bg: None,
                bold: true,
            }),
    {
        Style::default().fg(self.palette.get_or("success", Color::Green)).bold()
    }

    /// Secondary text.
    pub fn secondary_style(&self) -> (style: Style)
        ensures
            style == (Style {
                fg: Some(self.color("secondary"@, Color::Yellow)),
                bg: None,
                bold: false,
            }),
    {
        Style::default().fg(self.palette.get_or("secondary", Color::Yellow))
    }

    /// A style from the colours of two roles; a role that is not given or
    /// has no colour leaves its side of the style unset.
    pub fn custom_style(&self, fg: Option<&str>, bg: Option<&str>) -> (style: Style)
        ensures
            style == (Style {
                fg: match fg {
                    Some(role) => if self.colors().contains_key(role@) {
                        Some(self.colors()[role@])
                    } else {
                        None
                    },
                    None => None,
                },
                bg: match bg {
                    Some(role) => if self.colors().contains_key(role@) {
                        Some(self.colors()[role@])
                    } else {
                        None
                    },
                    None => None,
                },
                bold: false,
            }),
    {
        let mut style = Style::default();
        if let Some(role) = fg {
            if let Some(color) = self.palette.get(role) {
                style = style.fg(color);
            }
        }
        if let Some(role) = bg {
            if let Some(color) = self.palette.get(role) {
                style = style.bg(color);
            }
        }
        style
    }

    /// Replaces the theme, and the palette with it.
    pub fn update_theme(&mut self, theme_config: ThemeConfig)
        ensures
            final(self).theme() == theme_config,
            final(self).colors() == Self::colors_of(theme_config),
    {
        let palette = ColorPalette::from_theme(&theme_config);
        self.theme_config = theme_config;
        self.palette = palette;
    }
}

/// The built-in themes.
pub struct Themes;

/// The colours of a theme by role, as texts.
pub open spec fn roles(
    primary: Seq<char>,
    secondary: Seq<char>,
    background: Seq<char>,
    foreground: Seq<char>,
    border: Seq<char>,
    highlight: Seq<char>,
    error: Seq<char>,
    success: Seq<char>,
    playing: Seq<char>,
    paused: Seq<char>,
    progress: Seq<char>,
) -> Map<Seq<char>, Seq<char>> {
    Map::<Seq<char>, Seq<char>>::empty().insert("primary"@, primary).insert(
        "secondary"@,
        secondary,
    ).insert("background"@, background).insert("foreground"@, foreground).insert(
        "border"@,
        border,
    ).insert("highlight"@, highlight).insert("error"@, error).insert("success"@, success).insert(
        "playing"@,
        playing,
    ).insert("paused"@, paused).insert("progress"@, progress)
}

/// The name of the built-in theme number `i`.
pub open spec fn builtin_name(i: int) -> Seq<char> {
    if i == 0 {
        "dark"@
    } else if i == 1 {
        "light"@
    } else if i == 2 {
        "synthwave"@
    } else if i == 3 {
        "forest"@
    } else if i == 4 {
        "dracula"@
    } else {
        "gruvbox"@
    }
}

/// The colours of the built-in theme number `i`.
pub open spec fn builtin_colors(i: int) -> Map<Seq<char>, Seq<char>> {
    if i == 0 {
        roles(
            "cyan"@,
            "yellow"@,
            "black"@,
            "white"@,
            "gray"@,
            "bright_cyan"@,
            "red"@,
            "green"@,
            "bright_green"@,
            "bright_yellow"@,
            "blue"@,
        )
    } else if i == 1 {
        roles(
            "blue"@,
            "magenta"@,
            "white"@,
            "black"@,
            "dark_gray"@,
            "bright_blue"@,
            "red"@,
            "green"@,
            "green"@,
            "yellow"@,
            "blue"@,
        )
    } else if i == 2 {
        roles(
            "#ff00ff"@,
            "#00ffff"@,
            "#0a0a0a"@,
            "#ffffff"@,
            "#ff00ff"@,
            "#ffff00"@,
            "#ff0080"@,
            "#00ff80"@,
            "#00ff00"@,
            "#ffff00"@,
            "#8000ff"@,
        )
    } else if i == 3 {
        roles(
            "#228b22"@,
            "#daa520"@,
            "#0f1419"@,
            "#e6e6e6"@,
            "#556b2f"@,
            "#32cd32"@,
            "#dc143c"@,
            "#90ee90"@,
            "#00ff7f"@,
            "#ffd700"@,
            "#4682b4"@,
        )
    } else if i == 4 {
        roles(
            "#bd93f9"@,
            "#ff79c6"@,
            "#282a36"@,
            "#f8f8f2"@,
            "#6272a4"@,
            "#8be9fd"@,
            "#ff5555"@,
            "#50fa7b"@,
            "#50fa7b"@,
            "#ffb86c"@,
            "#bd93f9"@,
        )
    } else {
        roles(
            "#fabd2f"@,
            "#fe8019"@,
            "#282828"@,
            "#ebdbb2"@,
            "#928374"@,
            "#83a598"@,
            "#cc241d"@,
            "#b8bb26"@,
            "#b8bb26"@,
            "#fabd2f"@,
            "#d3869b"@,
        )
    }
}

/// The number of the built-in theme with the given lower-case name.
pub open spec fn builtin_index(lower: Seq<char>) -> Option<int> {
    if lower == "dark"@ {
        Some(0)
    } else if lower == "light"@ {
        Some(1)
    } else if lower == "synthwave"@ {
        Some(2)
    } else if lower == "forest"@ {
        Some(3)
    } else if lower == "dracula"@ {
        Some(4)
    } else if lower == "gruvbox"@ {
        Some(5)
    } else {
        None
    }
}

impl ThemeConfig {
    /// The theme is the built-in theme number `i`.
    pub open spec fn is_builtin(self, i: int) -> bool {
        &&& self.name@ == builtin_name(i)
        &&& self.styles is None
        &&& self.colors matches Some(colors) && colors.texts() == builtin_colors(i)
    }
}

fn themed(
    name: &str,
    primary: &str,
    secondary: &str,
    background: &str,
    foreground: &str,
    border: &str,
    highlight: &str,
    error: &str,
    success: &str,
    playing: &str,
    paused: &str,
    progress: &str,
) -> (theme: ThemeConfig)
    ensures
        theme.name@ == name@,
        theme.styles is None,
        theme.colors matches Some(colors) && colors.texts() == roles(
            primary@,
            secondary@,
            background@,
            foreground@,
            border@,
            highlight@,
            error@,
            success@,
            playing@,
            paused@,
            progress@,
        ),
{
    let mut colors: StringMap<String> = StringMap::new();
    assert(colors.texts() =~= Map::<Seq<char>, Seq<char>>::empty());
    colors.insert_text("primary", primary);
    colors.insert_text("secondary", secondary);
    colors.insert_text("background", background);
    colors.insert_text("foreground", foreground);
    colors.insert_text("border", border);
    colors.insert_text("highlight", highlight);
    colors.insert_text("error", error);
    colors.insert_text("success", success);
    colors.insert_text("playing", playing);
    colors.insert_text("paused", paused);
    colors.insert_text("progress", progress);
    ThemeConfig { name: name.to_string(), colors: Some(colors), styles: None }
}

impl Themes {
    /// The default dark theme.
    pub fn dark() -> (theme: ThemeConfig)
        ensures
            theme.is_builtin(0),
    {
        themed(
            "dark",
            "cyan",
            "yellow",
            "black",
            "white",
            "gray",
            "bright_cyan",
            "red",
            "green",
            "bright_green",
            "bright_yellow",
            "blue",
        )
    }

    /// The light theme.
    pub fn light() -> (theme: ThemeConfig)
        ensures
            theme.is_builtin(1),
    {
        themed(
            "light",
            "blue",
            "magenta",
            "white",
            "black",
            "dark_gray",
            "bright_blue",
            "red",
            "green",
            "green",
            "yellow",
            "blue",
        )
    }

    /// The synthwave theme.
    pub fn synthwave() -> (theme: ThemeConfig)
        ensures
            theme.is_builtin(2),
    {
        themed(
            "synthwave",
            "#ff00ff",
            "#00ffff",
            "#0a0a0a",
            "#ffffff",
            "#ff00ff",
            "#ffff00",
            "#ff0080",
            "#00ff80",
            "#00ff00",
            "#ffff00",
            "#8000ff",
        )
    }

    /// The forest theme.
    pub fn forest() -> (theme: ThemeConfig)
        ensures
            theme.is_builtin(3),
    {
        themed(
            "forest",
            "#228b22",
            "#daa520",
            "#0f1419",
            "#e6e6e6",
            "#556b2f",
            "#32cd32",
            "#dc143c",
            "#90ee90",
            "#00ff7f",
            "#ffd700",
            "#4682b4",
        )
    }

    /// The Dracula theme.
    pub fn dracula() -> (theme: ThemeConfig)
        ensures
            theme.is_builtin(4),
    {
        themed(
            "dracula",
            "#bd93f9",
            "#ff79c6",
            "#282a36",
            "#f8f8f2",
            "#6272a4",
            "#8be9fd",
            "#ff5555",
            "#50fa7b",
            "#50fa7b",
            "#ffb86c",
            "#bd93f9",
        )
    }

    /// The Gruvbox theme.
    pub fn gruvbox() -> (theme: ThemeConfig)
        ensures
            theme.is_builtin(5),
    {
        themed(
            "gruvbox",
            "#fabd2f",
            "#fe8019",
            "#282828",
            "#ebdbb2",
            "#928374",
            "#83a598",
            "#cc241d",
            "#b8bb26",
            "#b8bb26",
            "#fabd2f",
            "#d3869b",
        )
    }

    /// Every built-in theme, in order.
    pub fn all() -> (themes: Vec<ThemeConfig>)
        ensures
            themes@.len() == 6,
            forall|i: int| 0 <= i < 6 ==> (#[trigger] themes@[i]).is_builtin(i),
    {
        let mut themes: Vec<ThemeConfig> = Vec::new();
        themes.push(Themes::dark());
        themes.push(Themes::light());
        themes.push(Themes::synthwave());
        themes.push(Themes::forest());
        themes.push(Themes::dracula());
        themes.push(Themes::gruvbox());
        themes
    }

    /// The built-in theme with the given lower-case name.
    pub fn get_by_lowercase_name(lower: &str) -> (theme: Option<ThemeConfig>)
        ensures
            match theme {
                Some(t) => builtin_index(lower@) matches Some(i) && t.is_builtin(i),
                None => builtin_index(lower@) is None,
            },
    {
        if lower.eq("dark") {
            Some(Themes::dark())
        } else if lower.eq("light") {
            Some(Themes::light())
        } else if lower.eq("synthwave") {
            Some(Themes::synthwave())
        } else if lower.eq("forest") {
            Some(Themes::forest())
        } else if lower.eq("dracula") {
            Some(Themes::dracula())
        } else if lower.eq("gruvbox") {
            Some(Themes::gruvbox())
        } else {
            None
        }
    }

    /// The built-in theme with the given name, in any case.
    pub fn get_by_name(name: &str) -> (theme: Option<ThemeConfig>)
        ensures
            match theme {
                Some(t) => builtin_index(lowercase(name@)) matches Some(i) && t.is_builtin(i),
                None => builtin_index(lowercase(name@)) is None,
            },
    {
        let lower = name.to_lowercase();
        Themes::get_by_lowercase_name(lower.as_str())
    }
}

} // verus!
