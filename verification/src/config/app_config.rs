//! The configuration of a run of the player. The default volume, a
//! fractional number, is kept beside it by the caller.

use crate::art::AlbumArtConfig;
use crate::cli::{default_music_dir_text, Cli, TargetOs};
use crate::error::LofiTurtleError;
use crate::models::playback::RepeatMode;
use crate::text::joined;
use vstd::prelude::*;

verus! {

/// The configuration of a run of the player. Paths are kept as text.
#[derive(Debug, Clone, PartialEq, Eq)]
pub struct Config {
    pub music_dir: String,
    pub database_path: String,
    pub verbose: bool,
    pub no_scan: bool,
    pub tick_rate_ms: u64,
    pub show_art: bool,
    pub shuffle: bool,
    pub repeat_mode: RepeatMode,
    pub album_art_config: AlbumArtConfig,
    pub cli_mode: bool,
}

/// Collects the settings of a run.
#[derive(Debug, Clone, PartialEq, Eq)]
pub struct ConfigBuilder {
    pub music_dir: Option<String>,
    pub database_path: Option<String>,
    pub verbose: Option<bool>,
    pub no_scan: Option<bool>,
    pub tick_rate_ms: Option<u64>,
    pub show_art: Option<bool>,
    pub shuffle: Option<bool>,
    pub repeat_mode: Option<RepeatMode>,
    pub album_art_config: Option<AlbumArtConfig>,
    pub cli_mode: Option<bool>,
}

/// `given`, or `fallback` where nothing is given.
pub open spec fn or_else<T>(given: Option<T>, fallback: T) -> T {
    match given {
        Some(value) => value,
        None => fallback,
    }
}

impl Config {
    /// The configuration where nothing is said, on the given system.
    pub open spec fn is_default(self, os: TargetOs) -> bool {
        &&& self.music_dir@ == default_music_dir_text(os)
        &&& self.database_path@ == "music_library.db"@
        &&& !self.verbose
        &&& !self.no_scan
        &&& self.tick_rate_ms == 250
        &&& self.show_art
        &&& !self.shuffle
        &&& self.repeat_mode == RepeatMode::Off
        &&& self.album_art_config == (AlbumArtConfig {
            width: 40,
            height: 20,
            show_art: true,
            use_color: false,
        })
        &&& !self.cli_mode
    }

    /// The configuration where nothing is said, on the given system.
    pub fn default_for(os: TargetOs) -> (config: Self)
        ensures
            config.is_default(os),
    {
        Config {
            music_dir: Cli::default_music_dir(os),
            database_path: "music_library.db".to_string(),
            verbose: false,
            no_scan: false,
            tick_rate_ms: 250,
            show_art: true,
            shuffle: false,
            repeat_mode: RepeatMode::Off,
            album_art_config: AlbumArtConfig::default(),
            cli_mode: false,
        }
    }

    /// A builder that holds nothing yet.
    pub fn builder() -> (builder: ConfigBuilder)
        ensures
            builder.is_empty(),
    {
        ConfigBuilder::new()
    }

    /// The configuration that the command line asks for, where `exists` and
    /// `is_dir` say what the file system holds at the music directory.
    pub fn from_cli(cli: &Cli, os: TargetOs, exists: bool, is_dir: bool) -> (result: Result<
        Self,
        LofiTurtleError,
    >)
        ensures
            match result {
                Ok(config) => {
                    &&& exists
                    &&& is_dir
                    &&& config.music_dir@ == cli.music_dir_text(os)
                    &&& config.database_path@ == cli.database@
                    &&& config.verbose == cli.verbose
                    &&& config.no_scan == cli.no_scan
                    &&& config.tick_rate_ms == 250
                    &&& config.show_art == !cli.no_art
                    &&& config.shuffle == cli.shuffle
                    &&& config.repeat_mode == cli.wanted_repeat_mode()
                    &&& config.album_art_config == (AlbumArtConfig {
                        width: 40,
                        height: 20,
                        show_art: !cli.no_art,
                        use_color: false,
                    })
                    &&& config.cli_mode == cli.cli_mode
                },
                Err(LofiTurtleError::DirectoryNotFound(reason)) => !exists && reason@
                    == "Music directory '"@ + cli.music_dir_text(os) + "' does not exist"@,
                Err(LofiTurtleError::Configuration(reason)) => exists && !is_dir && reason@ == "'"@
                    + cli.music_dir_text(os) + "' is not a directory"@,
                Err(_) => false,
            },
    {
        let music_dir = match cli.validate_music_dir(os, exists, is_dir) {
            Ok(dir) => dir,
            Err(e) => {
                return Err(e);
            },
        };
        let show_art = cli.shows_art();
        let album_art_config = AlbumArtConfig::builder().show_art(show_art).build();
        Config::builder().music_dir(music_dir).database_path(cli.database.clone()).verbose(
            cli.verbose,
        ).no_scan(cli.no_scan).show_art(show_art).shuffle(cli.shuffle).repeat_mode(
            cli.repeat_mode(),
        ).album_art_config(album_art_config).cli_mode(cli.cli_mode).build(os, exists, is_dir)
    }
}

impl ConfigBuilder {
    /// Nothing is set.
    pub open spec fn is_empty(self) -> bool {
        &&& self.music_dir is None
        &&& self.database_path is None
        &&& self.verbose is None
        &&& self.no_scan is None
        &&& self.tick_rate_ms is None
        &&& self.show_art is None
        &&& self.shuffle is None
        &&& self.repeat_mode is None
        &&& self.album_art_config is None
        &&& self.cli_mode is None
    }

    /// The music directory that is built with.
    pub open spec fn music_dir_text(self, os: TargetOs) -> Seq<char> {
        match self.music_dir {
            Some(dir) => dir@,
            None => default_music_dir_text(os),
        }
    }

    /// A builder that holds nothing yet.
    pub fn new() -> (builder: Self)
        ensures
            builder.is_empty(),
    {
        ConfigBuilder {
            music_dir: None,
            database_path: None,
            verbose: None,
            no_scan: None,
            tick_rate_ms: None,
            show_art: None,
            shuffle: None,
            repeat_mode: None,
            album_art_config: None,
            cli_mode: None,
        }
    }

    /// Sets the music directory.
    pub fn music_dir(self, path: String) -> (builder: Self)
        ensures
            builder == (ConfigBuilder { music_dir: Some(path), ..self }),
    {
        ConfigBuilder { music_dir: Some(path), ..self }
    }

    /// Sets the database path.
    pub fn database_path(self, path: String) -> (builder: Self)
        ensures
            builder == (ConfigBuilder { database_path: Some(path), ..self }),
    {
        ConfigBuilder { database_path: Some(path), ..self }
    }

    /// Switches verbose logging on or off.
    pub fn verbose(self, verbose: bool) -> (builder: Self)
        ensures
            builder == (ConfigBuilder { verbose: Some(verbose), ..self }),
    {
        ConfigBuilder { verbose: Some(verbose), ..self }
    }

    /// Says whether the library is left unscanned at the start.
    pub fn no_scan(self, no_scan: bool) -> (builder: Self)
        ensures
            builder == (ConfigBuilder { no_scan: Some(no_scan), ..self }),
    {
        ConfigBuilder { no_scan: Some(no_scan), ..self }
    }

    /// Sets the tick rate in milliseconds.
    pub fn tick_rate_ms(self, ms: u64) -> (builder: Self)
        ensures
            builder == (ConfigBuilder { tick_rate_ms: Some(ms), ..self }),
    {
        ConfigBuilder { tick_rate_ms: Some(ms), ..self }
    }

    /// Switches album art on or off.
    pub fn show_art(self, show_art: bool) -> (builder: Self)
        ensures
            builder == (ConfigBuilder { show_art: Some(show_art), ..self }),
    {
        ConfigBuilder { show_art: Some(show_art), ..self }
    }

    /// Switches shuffle on or off.
    pub fn shuffle(self, shuffle: bool) -> (builder: Self)
        ensures
            builder == (ConfigBuilder { shuffle: Some(shuffle), ..self }),
    {
        ConfigBuilder { shuffle: Some(shuffle), ..self }
    }

    /// Sets the repeat mode.
    pub fn repeat_mode(self, mode: RepeatMode) -> (builder: Self)
        ensures
            builder == (ConfigBuilder { repeat_mode: Some(mode), ..self }),
    {
        ConfigBuilder { repeat_mode: Some(mode), ..self }
    }

    /// Sets the album art settings.
    pub fn album_art_config(self, config: AlbumArtConfig) -> (builder: Self)
        ensures
            builder == (ConfigBuilder { album_art_config: Some(config), ..self }),
    {
        ConfigBuilder { album_art_config: Some(config), ..self }
    }

    /// Switches the command-line mode on or off.
    pub fn cli_mode(self, cli_mode: bool) -> (builder: Self)
        ensures
            builder == (ConfigBuilder { cli_mode: Some(cli_mode), ..self }),
    {
        ConfigBuilder { cli_mode: Some(cli_mode), ..self }
    }

    /// The configuration, with the defaults of the system where nothing was
    /// set, where `exists` and `is_dir` say what the file system holds at the
    /// music directory. Refused where the music directory is not there or is
    /// no directory, or the tick rate is zero.
    pub fn build(self, os: TargetOs, exists: bool, is_dir: bool) -> (result: Result<
        Config,
        LofiTurtleError,
    >)
        ensures
            match result {
                Ok(config) => {
                    &&& exists
                    &&& is_dir
                    &&& or_else(self.tick_rate_ms, 250) != 0
                    &&& config.music_dir@ == self.music_dir_text(os)
                    &&& config.database_path@ == match self.database_path {
                        Some(path) => path@,
                        None => "music_library.db"@,
                    }
                    &&& config.verbose == or_else(self.verbose, false)
                    &&& config.no_scan == or_else(self.no_scan, false)
                    &&& config.tick_rate_ms == or_else(self.tick_rate_ms, 250)
                    &&& config.show_art == or_else(self.show_art, true)
                    &&& config.shuffle == or_else(self.shuffle, false)
                    &&& config.repeat_mode == or_else(self.repeat_mode, RepeatMode::Off)
                    &&& config.album_art_config == or_else(
                        self.album_art_config,
                        AlbumArtConfig { width: 40, height: 20, show_art: true, use_color: false },
                    )
                    &&& config.cli_mode == or_else(self.cli_mode, false)
                },
                Err(LofiTurtleError::DirectoryNotFound(reason)) => !exists && reason@
                    == "Music directory '"@ + self.music_dir_text(os) + "' does not exist"@,
                Err(LofiTurtleError::Configuration(reason)) => exists && if !is_dir {
                    reason@ == "'"@ + self.music_dir_text(os) + "' is not a directory"@
                } else {
                    or_else(self.tick_rate_ms, 250) == 0 && reason@
                        == "Tick rate must be greater than 0"@
                },
                Err(_) => false,
            },
    {
        let default_config = Config::default_for(os);
        let music_dir = match self.music_dir {
            Some(dir) => dir,
            None => default_config.music_dir,
        };
        let database_path = match self.database_path {
            Some(path) => path,
            None => default_config.database_path,
        };
        if !exists {
            let mut reason = joined("Music directory '", music_dir.as_str());
            reason.append("' does not exist");
            return Err(LofiTurtleError::DirectoryNotFound(reason));
        }
        if !is_dir {
            let mut reason = joined("'", music_dir.as_str());
            reason.append("' is not a directory");
            return Err(LofiTurtleError::Configuration(reason));
        }
        let tick_rate_ms = match self.tick_rate_ms {
            Some(ms) => ms,
            None => default_config.tick_rate_ms,
        };
        if tick_rate_ms == 0 {
            return Err(
                LofiTurtleError::Configuration("Tick rate must be greater than 0".to_string()),
            );
        }
        Ok(
            Config {
                music_dir,
                database_path,
                verbose: match self.verbose {
                    Some(v) => v,
                    None => default_config.verbose,
                },
                no_scan: match self.no_scan {
                    Some(v) => v,
                    None => default_config.no_scan,
                },
                tick_rate_ms,
                show_art: match self.show_art {
                    Some(v) => v,
                    None => default_config.show_art,
                },
                shuffle: match self.shuffle {
                    Some(v) => v,
                    None => default_config.shuffle,
                },
                repeat_mode: match self.repeat_mode {
                    Some(v) => v,
                    None => default_config.repeat_mode,
                },
                album_art_config: match self.album_art_config {
                    Some(v) => v,
                    None => default_config.album_art_config,
                },
                cli_mode: match self.cli_mode {
                    Some(v) => v,
                    None => default_config.cli_mode,
                },
            },
        )
    }
}

} // verus!
