//! Album art as text: its settings, the placeholder that stands in where a
//! song carries no picture, and the memory of what was rendered before.

use crate::collections::StringMap;
use crate::text::{decimal, decimal_text};
use vstd::prelude::*;

verus! {

/// How album art is shown.
#[derive(Debug, Clone, Copy, PartialEq, Eq, Structural)]
pub struct AlbumArtConfig {
    pub width: u32,
    pub height: u32,
    pub show_art: bool,
    pub use_color: bool,
}

impl Default for AlbumArtConfig {
    fn default() -> (config: Self)
        ensures
            config == (AlbumArtConfig { width: 40, height: 20, show_art: true, use_color: false }),
    {
        AlbumArtConfig { width: 40, height: 20, show_art: true, use_color: false }
    }
}

impl AlbumArtConfig {
    /// A builder for the settings.
    pub fn builder() -> (builder: AlbumArtConfigBuilder)
        ensures
            builder == (AlbumArtConfigBuilder {
                width: None,
                height: None,
                show_art: None,
                use_color: None,
            }),
    {
        AlbumArtConfigBuilder::default()
    }
}

/// Collects the settings of album art.
#[derive(Debug, Clone, Copy, PartialEq, Eq, Structural)]
pub struct AlbumArtConfigBuilder {
    pub width: Option<u32>,
    pub height: Option<u32>,
    pub show_art: Option<bool>,
    pub use_color: Option<bool>,
}

impl Default for AlbumArtConfigBuilder {
    fn default() -> (builder: Self)
        ensures
            builder == (AlbumArtConfigBuilder {
                width: None,
                height: None,
                show_art: None,
                use_color: None,
            }),
    {
        AlbumArtConfigBuilder { width: None, height: None, show_art: None, use_color: None }
    }
}

impl AlbumArtConfigBuilder {
    /// Says whether album art is shown.
    pub fn show_art(self, show_art: bool) -> (builder: Self)
        ensures
            builder == (AlbumArtConfigBuilder { show_art: Some(show_art), ..self }),
    {
        AlbumArtConfigBuilder {
            width: self.width,
            height: self.height,
            show_art: Some(show_art),
            use_color: self.use_color,
        }
    }

    /// The settings: 40 by 20 characters, no art and no colour, where
    /// nothing else was said.
    pub fn build(self) -> (config: AlbumArtConfig)
        ensures
            config == (AlbumArtConfig {
                width: match self.width {
                    Some(w) => w,
                    None => 40,
                },
                height: match self.height {
                    Some(h) => h,
                    None => 20,
                },
                show_art: match self.show_art {
                    Some(s) => s,
                    None => false,
                },
                use_color: match self.use_color {
                    Some(c) => c,
                    None => false,
                },
            }),
    {
        AlbumArtConfig {
            width: match self.width {
                Some(w) => w,
                None => 40,
            },
            height: match self.height {
                Some(h) => h,
                None => 20,
            },
            show_art: match self.show_art {
                Some(s) => s,
                None => false,
            },
            use_color: match self.use_color {
                Some(c) => c,
                None => false,
            },
        }
    }
}

/// The distance between `a` and `b`.
pub open spec fn apart(a: int, b: int) -> int {
    if a >= b {
        a - b
    } else {
        b - a
    }
}

/// Whether the cell in column `x` and row `y` is part of the note that is
/// drawn around the centre `(cx, cy)`: its head, five cells wide and three
/// high, or its stem, up to three cells above the centre.
pub open spec fn note_at(x: int, y: int, cx: int, cy: int) -> bool {
    (apart(x, cx) <= 2 && apart(y, cy) <= 1) || (x == cx && y < cy && apart(y, cy) <= 3)
}

/// The character in column `x` and row `y` of a placeholder of the given
/// size: the note, the frame at the rim, or blank.
pub open spec fn cell(x: int, y: int, width: int, height: int) -> char {
    if note_at(x, y, width / 2, height / 2) {
        '♪'
    } else if x == 0 || x == width - 1 || y == 0 || y == height - 1 {
        '│'
    } else {
        ' '
    }
}

/// The first `x` cells of row `y`.
pub open spec fn cells(x: nat, y: int, width: int, height: int) -> Seq<char> {
    Seq::new(x, |i: int| cell(i, y, width, height))
}

/// The first `y` rows of a placeholder, each ended by a line break.
pub open spec fn rows(y: nat, width: int, height: int) -> Seq<char>
    decreases y,
{
    if y == 0 {
        Seq::empty()
    } else {
        rows((y - 1) as nat, width, height) + cells(width as nat, y - 1, width, height).push('\n')
    }
}

/// The placeholder of the given size.
pub open spec fn placeholder(width: u32, height: u32) -> Seq<char> {
    rows(height as nat, width as int, height as int)
}

/// The key under which the art of a file is remembered: size and colour
/// setting, then the path.
pub open spec fn art_key(config: AlbumArtConfig, file_path: Seq<char>) -> Seq<char> {
    decimal(config.width as nat) + "x"@ + decimal(config.height as nat) + if config.use_color {
        "c:"@
    } else {
        "m:"@
    } + file_path
}

/// Renders album art as text and remembers what it rendered.
pub struct AlbumArtRenderer {
    config: AlbumArtConfig,
    ascii_cache: StringMap<String>,
}

impl AlbumArtRenderer {
    /// The settings in use.
    pub closed spec fn settings(self) -> AlbumArtConfig {
        self.config
    }

    /// What is remembered, by key.
    pub closed spec fn remembered(self) -> Map<Seq<char>, String> {
        self.ascii_cache@
    }

    /// A renderer with the given settings that remembers nothing yet.
    pub fn new(config: AlbumArtConfig) -> (renderer: Self)
        ensures
            renderer.settings() == config,
            renderer.remembered() == Map::<Seq<char>, String>::empty(),
    {
        AlbumArtRenderer { config, ascii_cache: StringMap::new() }
    }

    /// The settings in use.
    pub fn config(&self) -> (config: AlbumArtConfig)
        ensures
            config == self.settings(),
    {
        self.config
    }

    /// Sets the size of what is rendered from now on.
    pub fn update_dimensions(&mut self, width: u32, height: u32)
        ensures
            final(self).settings() == (AlbumArtConfig { width, height, ..old(self).settings() }),
            final(self).remembered() == old(self).remembered(),
    {
        self.config.width = width;
        self.config.height = height;
    }

    /// Whether the cell in column `x` and row `y` is part of the note.
    fn is_music_note_pattern(&self, x: u32, y: u32, center_x: u32, center_y: u32) -> (note: bool)
        ensures
            note == note_at(x as int, y as int, center_x as int, center_y as int),
    {
        let dx = if x >= center_x {
            x - center_x
        } else {
            center_x - x
        };
        let dy = if y >= center_y {
            y - center_y
        } else {
            center_y - y
        };
        (dx <= 2 && dy <= 1) || (x == center_x && y < center_y && dy <= 3)
    }

    /// The placeholder that stands in where a song carries no picture: a
    /// note in a frame, of the size in the settings; the empty text where
    /// album art is switched off.
    pub fn generate_placeholder(&self) -> (art: String)
        ensures
            art@ == if self.settings().show_art {
                placeholder(self.settings().width, self.settings().height)
            } else {
                Seq::empty()
            },
    {
        if !self.config.show_art {
            return String::new();
        }
        proof {
            reveal_strlit("♪");
            reveal_strlit("│");
            reveal_strlit(" ");
            reveal_strlit("\n");
        }
        let width = self.config.width;
        let height = self.config.height;
        let center_x = width / 2;
        let center_y = height / 2;
        let mut art = String::new();
        let mut y: u32 = 0;
        while y < height
            invariant
                y <= height,
                center_x == width / 2,
                center_y == height / 2,
                art@ == rows(y as nat, width as int, height as int),
                "♪"@ == seq!['♪'],
                "│"@ == seq!['│'],
                " "@ == seq![' '],
                "\n"@ == seq!['\n'],
            decreases height - y,
        {
            let ghost above = art@;
            let mut x: u32 = 0;
            while x < width
                invariant
                    x <= width,
                    y < height,
                    center_x == width / 2,
                    center_y == height / 2,
                    art@ == above + cells(x as nat, y as int, width as int, height as int),
                    "♪"@ == seq!['♪'],
                    "│"@ == seq!['│'],
                    " "@ == seq![' '],
                decreases width - x,
            {
                if self.is_music_note_pattern(x, y, center_x, center_y) {
                    art.append("♪");
                } else if (x == 0 || x == width - 1) || (y == 0 || y == height - 1) {
                    art.append("│");
                } else {
                    art.append(" ");
                }
                x += 1;
                assert(art@ =~= above + cells(x as nat, y as int, width as int, height as int));
            }
            art.append("\n");
            y += 1;
            assert(art@ =~= rows(y as nat, width as int, height as int));
        }
        art
    }

    fn key_for(&self, file_path: &str) -> (key: String)
        ensures
            key@ == art_key(self.config, file_path@),
    {
        let mut key = decimal_text(self.config.width as u64);
        key.append("x");
        let height = decimal_text(self.config.height as u64);
        key.append(height.as_str());
        if self.config.use_color {
            key.append("c:");
        } else {
            key.append("m:");
        }
        key.append(file_path);
        assert(key@ =~= art_key(self.config, file_path@));
        key
    }

    /// The art that is remembered for the file under the settings in use.
    pub fn lookup(&self, file_path: &str) -> (art: Option<String>)
        ensures
            match art {
                Some(a) => self.remembered().contains_key(art_key(self.settings(), file_path@))
                    && a == self.remembered()[art_key(self.settings(), file_path@)],
                None => !self.remembered().contains_key(art_key(self.settings(), file_path@)),
            },
    {
        let key = self.key_for(file_path);
        match self.ascii_cache.get(key.as_str()) {
            Some(art) => Some(art.clone()),
            None => None,
        }
    }

    /// Remembers the art of the file under the settings in use.
    pub fn store(&mut self, file_path: &str, art: String)
        ensures
            final(self).settings() == old(self).settings(),
            final(self).remembered() == old(self).remembered().insert(
                art_key(old(self).settings(), file_path@),
                art,
            ),
    {
        let key = self.key_for(file_path);
        self.ascii_cache.insert(key, art);
    }
}

impl Default for AlbumArtRenderer {
    fn default() -> (renderer: Self)
        ensures
            renderer.settings() == (AlbumArtConfig {
                width: 40,
                height: 20,
                show_art: true,
                use_color: false,
            }),
            renderer.remembered() == Map::<Seq<char>, String>::empty(),
    {
        AlbumArtRenderer::new(AlbumArtConfig::default())
    }
}

} // verus!
