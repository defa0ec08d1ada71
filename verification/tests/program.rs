use lofi_turtle::text::contains_text;
use lofi_turtle::application::dto::{PlaylistDto, SongDto};
use lofi_turtle::application::services::{BatchAddResult, SongData};
use lofi_turtle::application::use_cases::playlist_management::{
    AddSongToPlaylistRequest, AddSongToPlaylistUseCase, CreatePlaylistRequest,
    CreatePlaylistUseCase, DeletePlaylistRequest, DeletePlaylistUseCase,
    GetPlaylistWithSongsRequest, GetPlaylistWithSongsUseCase, RemoveSongFromPlaylistRequest,
    RemoveSongFromPlaylistUseCase,
};
use lofi_turtle::application::use_cases::song_management::{
    AddSongDecision, AddSongRequest, AddSongResponse, AddSongUseCase, GetSongRequest,
    GetSongUseCase, RemoveSongRequest, RemoveSongUseCase, SearchPlan, SearchSongsRequest,
    SearchSongsUseCase,
};
use lofi_turtle::art::{AlbumArtConfig, AlbumArtRenderer};
use lofi_turtle::cli::{Cli, Commands, PlaylistAction, RepeatModeArg, ShuffleMode, TargetOs};
use lofi_turtle::commands::playlist::SongChoice;
use lofi_turtle::commands::scan::ScanTally;
use lofi_turtle::commands::{
    listing_line, ruler, text_mentions, AnyCommand, CommandFactory, ListCommand, PlayCommand,
    PlaylistCommand, RepeatCommand, ScanCommand, SearchCommand, ShuffleCommand,
};
use lofi_turtle::config::{Config, ConfigBuilder};
use lofi_turtle::domain::entities::playlist::Playlist;
use lofi_turtle::domain::entities::Song as Track;
use lofi_turtle::domain::value_objects::{Duration, FilePath, PlaylistId, SongId};
use lofi_turtle::error::LofiTurtleError;
use lofi_turtle::library::MusicScanner;
use lofi_turtle::models::{Playlist as Mixtape, PlaylistBuilder, RepeatMode, Song};
use lofi_turtle::shared::errors::{
    ApplicationError, DomainError, InfrastructureError, PresentationError,
};
use lofi_turtle::stamp::Timestamp;

fn song(title: &str, artist: &str, album: &str, path: &str, duration: u64) -> Song {
    Song::new(path.to_string(), title.to_string(), artist.to_string(), album.to_string(), duration)
}

fn library() -> Vec<Song> {
    vec![
        song("Blue Monday", "New Order", "Substance", "/m/new_order/blue.mp3", 448),
        song("Monday Morning", "Fleetwood Mac", "Fleetwood Mac", "/m/fm/monday.flac", 168),
        song("Temptation", "New Order", "Substance", "/m/new_order/temptation.mp3", 419),
    ]
}

fn track(path: &str, title: &str) -> Track {
    Track::new(
        FilePath::new(path).unwrap(),
        title.to_string(),
        "Artist".to_string(),
        String::new(),
        Duration::from_seconds(61),
    )
    .unwrap()
}

fn plain_cli() -> Cli {
    Cli {
        music_dir: None,
        database: "music_library.db".to_string(),
        verbose: false,
        no_scan: false,
        show_art: false,
        no_art: false,
        shuffle: false,
        repeat: None,
        cli_mode: false,
        layout_config: "layout.toml".to_string(),
        dump_layout: None,
        command: None,
    }
}

#[test]
fn legacy_song_knows_its_digest_and_names() {
    let s = song("Title", "Artist", "Album", "/a/b.mp3", 125);
    assert_eq!(s.id, "b5bde0a57a544216ded4521c718da74c");
    assert_eq!(s.duration_formatted(), "02:05");
    assert_eq!(s.display_name(), "Title - Artist");
    assert_eq!(song("Title", "", "Album", "/a/b.mp3", 3600).display_name(), "Title");
    assert_eq!(song("Title", "", "Album", "/a/b.mp3", 3600).duration_formatted(), "60:00");
    assert_eq!(s.clone(), s);
}

#[test]
fn legacy_playlist_and_builder() {
    let now = Timestamp { seconds: 10, nanoseconds: 0 };
    let made = Mixtape::with_identity("id".to_string(), now, "n".to_string(), None);
    assert_eq!(made.display_name(), "n (0 songs)");
    assert_eq!(made.song_count(), 0);
    let fresh = Mixtape::new("Mix".to_string(), Some("d".to_string()));
    assert_eq!(fresh.name, "Mix");
    assert_eq!(fresh.description, Some("d".to_string()));
    assert_eq!(fresh.created_at, fresh.updated_at);
    assert!(fresh.created_at.seconds > 1_600_000_000);
    assert_eq!(fresh.id.len(), 36);

    assert_eq!(
        PlaylistBuilder::new().build().err(),
        Some("Playlist name is required".to_string())
    );
    assert_eq!(
        PlaylistBuilder::new().name(" \t").build().err(),
        Some("Playlist name cannot be empty".to_string())
    );
    let built = PlaylistBuilder::new()
        .name(" Mix ")
        .description("")
        .build_with_identity("x".to_string(), now)
        .unwrap();
    assert_eq!(built.name, " Mix ");
    assert_eq!(built.description, Some(String::new()));
    assert_eq!(built.id, "x");
    assert_eq!(built.created_at, now);
    assert!(PlaylistBuilder::default().name("ok").build().is_ok());
}

#[test]
fn texts_are_searched_as_written() {
    assert!(lofi_turtle::commands::text_holds("Blue Monday", "e Mon"));
    assert!(!lofi_turtle::commands::text_holds("Blue Monday", "e mon"));
    assert!(lofi_turtle::commands::text_holds("", ""));
    assert!(!lofi_turtle::commands::text_holds("", "a"));
    assert_eq!(Timestamp::shown(Some("now".to_string())), "now");
    assert_eq!(Timestamp::shown(None), "");
}

#[test]
fn timestamps_are_written_as_rfc3339() {
    assert_eq!(
        Timestamp { seconds: 1431648000, nanoseconds: 0 }.to_rfc3339(),
        "2015-05-15T00:00:00+00:00"
    );
    assert_eq!(
        Timestamp { seconds: 0, nanoseconds: 500_000_000 }.to_rfc3339(),
        "1970-01-01T00:00:00.500+00:00"
    );
    assert_eq!(Timestamp { seconds: i64::MAX, nanoseconds: 0 }.to_rfc3339(), "");
}

#[test]
fn errors_are_shown_with_heading_and_advice() {
    let error = LofiTurtleError::DirectoryNotFound("gone".to_string());
    assert_eq!(error.message(), "Music directory not found: gone");
    assert_eq!(error.tip(), Some("Use --music-dir to specify a different directory"));
    assert_eq!(
        error.display_lines(),
        vec![
            "❌ Directory Error: gone",
            "💡 Tip: Use --music-dir to specify a different directory"
        ]
    );
    let error = LofiTurtleError::ChannelError("closed".to_string());
    assert_eq!(error.tip(), None);
    assert_eq!(error.display_lines(), vec!["❌ Error: Channel communication error: closed"]);
    assert_eq!(LofiTurtleError::Database("d".to_string()).message(), "Database error: d");
    assert_eq!(
        LofiTurtleError::AudioPlayback("a".to_string()).display_lines()[0],
        "❌ Audio Error: a"
    );
    assert_eq!(LofiTurtleError::FileSystem("f".to_string()).message(), "File system error: f");
    assert_eq!(LofiTurtleError::MusicLibrary("m".to_string()).message(), "Music library error: m");
    assert_eq!(
        LofiTurtleError::Configuration("c".to_string()).display_lines()[1],
        "💡 Tip: Use --help to see available options"
    );
    assert_eq!(
        LofiTurtleError::Terminal("t".to_string()).message(),
        "Terminal interface error: t"
    );
    assert_eq!(
        LofiTurtleError::UnsupportedFormat("u".to_string()).message(),
        "Audio file format not supported: u"
    );
    assert_eq!(LofiTurtleError::InvalidCommand("i".to_string()).message(), "Invalid command: i");

    assert_eq!(DomainError::InvalidSongTitle("x".to_string()).message(), "Invalid song title: x");
    assert_eq!(DomainError::InvalidFilePath("x".to_string()).message(), "Invalid file path: x");
    assert_eq!(DomainError::InvalidDuration("x".to_string()).message(), "Invalid duration: x");
    assert_eq!(
        DomainError::InvalidPlaylistName("x".to_string()).message(),
        "Invalid playlist name: x"
    );
    assert_eq!(DomainError::SongNotFound("x".to_string()).message(), "Song not found: x");
    assert_eq!(
        DomainError::BusinessRuleViolation("x".to_string()).message(),
        "Business rule violation: x"
    );
    let inner = ApplicationError::Domain(DomainError::SongNotFound("x".to_string()));
    assert_eq!(inner.message(), "Domain error: Song not found: x");
    assert_eq!(ApplicationError::Repository("r".to_string()).message(), "Repository error: r");
    assert_eq!(
        ApplicationError::ValidationFailed("v".to_string()).message(),
        "Validation failed: v"
    );
    assert_eq!(ApplicationError::UseCaseFailed("u".to_string()).message(), "Use case failed: u");
    assert_eq!(
        PresentationError::Application(inner).message(),
        "Application error: Domain error: Song not found: x"
    );
    assert_eq!(PresentationError::General("g".to_string()).message(), "Presentation error: g");
    assert_eq!(
        InfrastructureError::General("g".to_string()).message(),
        "Infrastructure error: g"
    );
}

#[test]
fn the_music_directory_comes_from_option_subcommand_or_system() {
    let mut cli = plain_cli();
    assert_eq!(cli.get_music_dir(TargetOs::Other), "/home/music");
    assert_eq!(cli.get_music_dir(TargetOs::MacOs), "/Users/Shared/Music");
    assert_eq!(Cli::default_music_dir(TargetOs::Windows), "C:\\Users\\Public\\Music");
    cli.command = Some(Commands::Play { music_dir: Some("/from/play".to_string()) });
    assert_eq!(cli.get_music_dir(TargetOs::Other), "/from/play");
    cli.music_dir = Some("/from/option".to_string());
    assert_eq!(cli.get_music_dir(TargetOs::Other), "/from/option");
    cli.music_dir = None;
    cli.command = Some(Commands::Scan { music_dir: "/scan".to_string(), force: true });
    assert_eq!(cli.get_music_dir(TargetOs::Other), "/home/music");

    assert_eq!(cli.validate_music_dir(TargetOs::Other, true, true), Ok("/home/music".to_string()));
    assert_eq!(
        cli.validate_music_dir(TargetOs::Other, false, false),
        Err(LofiTurtleError::DirectoryNotFound(
            "Music directory '/home/music' does not exist".to_string()
        ))
    );
    assert_eq!(
        cli.validate_music_dir(TargetOs::Other, true, false),
        Err(LofiTurtleError::Configuration("'/home/music' is not a directory".to_string()))
    );
    assert_eq!(cli.repeat_mode(), RepeatMode::Off);
    cli.repeat = Some(RepeatModeArg::Playlist);
    assert_eq!(cli.repeat_mode(), RepeatMode::Playlist);
    assert_eq!(RepeatModeArg::Single.to_repeat_mode(), RepeatMode::Single);
    assert_eq!(RepeatModeArg::Off.to_repeat_mode(), RepeatMode::Off);
    assert!(cli.shows_art());
    cli.no_art = true;
    assert!(!cli.shows_art());
}

#[test]
fn the_configuration_follows_the_command_line() {
    let mut cli = plain_cli();
    cli.music_dir = Some("/music".to_string());
    cli.database = "db.sqlite".to_string();
    cli.verbose = true;
    cli.shuffle = true;
    cli.no_art = true;
    cli.repeat = Some(RepeatModeArg::Single);
    let config = Config::from_cli(&cli, TargetOs::Other, true, true).unwrap();
    assert_eq!(
        config,
        Config {
            music_dir: "/music".to_string(),
            database_path: "db.sqlite".to_string(),
            verbose: true,
            no_scan: false,
            tick_rate_ms: 250,
            show_art: false,
            shuffle: true,
            repeat_mode: RepeatMode::Single,
            album_art_config: AlbumArtConfig {
                width: 40,
                height: 20,
                show_art: false,
                use_color: false
            },
            cli_mode: false,
        }
    );
    assert!(Config::from_cli(&cli, TargetOs::Other, false, false).is_err());
    assert_eq!(
        Config::builder().tick_rate_ms(0).build(TargetOs::Other, true, true),
        Err(LofiTurtleError::Configuration("Tick rate must be greater than 0".to_string()))
    );
    assert_eq!(
        ConfigBuilder::new().build(TargetOs::MacOs, true, true),
        Ok(Config::default_for(TargetOs::MacOs))
    );
    let default = Config::default_for(TargetOs::Other);
    assert_eq!(default.music_dir, "/home/music");
    assert_eq!(default.database_path, "music_library.db");
    assert_eq!(default.tick_rate_ms, 250);
    assert!(default.show_art);
    assert_eq!(default.album_art_config, AlbumArtConfig::default());
    assert_eq!(
        ConfigBuilder::new().music_dir("x".to_string()).build(TargetOs::Other, true, false),
        Err(LofiTurtleError::Configuration("'x' is not a directory".to_string()))
    );
}

#[test]
fn list_command_filters_by_artist_and_album() {
    let songs = library();
    let all = ListCommand::new(None, None);
    assert_eq!(all.select(&songs).len(), 3);
    let by_artist = ListCommand::new(Some("NEW ord".to_string()), None);
    let found = by_artist.select(&songs);
    assert_eq!(found.len(), 2);
    assert_eq!(found[0].title, "Blue Monday");
    assert_eq!(found[1].title, "Temptation");
    assert!(by_artist.lists(&songs[0]));
    assert!(!by_artist.lists(&songs[1]));
    let both = ListCommand::new(Some("mac".to_string()), Some("substance".to_string()));
    assert!(both.select(&songs).is_empty());
    assert_eq!(all.heading(0), "No songs found matching the criteria.");
    assert_eq!(all.heading(12), "Found 12 songs:");
    assert_eq!(ruler(), "-".repeat(80));
    assert_eq!(listing_line(&songs[0]), "Blue Monday - New Order [Substance] (07:28)");
    assert!(text_mentions("Blue Monday", "e mon"));
    assert!(!text_mentions("Blue Monday", "E MON"));
    assert!(text_mentions("anything", ""));
}

#[test]
fn search_command_looks_at_title_artist_and_album() {
    let songs = library();
    let command = SearchCommand::new("MONDAY".to_string());
    let found = command.select(&songs);
    assert_eq!(found.len(), 2);
    assert_eq!(SearchCommand::new("fleetwood".to_string()).select(&songs).len(), 1);
    assert_eq!(SearchCommand::new("substance".to_string()).select(&songs).len(), 2);
    assert!(SearchCommand::new("zeppelin".to_string()).select(&songs).is_empty());
    assert!(SearchCommand::select_with(&songs, "MONDAY").is_empty());
    assert!(SearchCommand::song_answers(&songs[2], "tempt"));
    assert_eq!(command.heading(0), "No songs found matching 'MONDAY'");
    assert_eq!(command.heading(2), "Found 2 songs matching 'MONDAY':");
}

#[test]
fn playlist_command_finds_one_song_or_says_why_not() {
    let songs = library();
    assert_eq!(PlaylistCommand::find_songs(&songs, "temptation"), vec![2]);
    assert_eq!(PlaylistCommand::find_songs(&songs, "Monday"), vec![0, 1]);
    assert_eq!(PlaylistCommand::find_songs(&songs, "/m/new_order"), vec![0, 2]);
    assert_eq!(PlaylistCommand::find_songs(&songs, "/M/NEW_ORDER"), Vec::<usize>::new());
    assert!(PlaylistCommand::song_matches(&songs[1], ".flac", ".flac"));
    assert_eq!(PlaylistCommand::choose_song(&vec![]), SongChoice::NoMatch);
    assert_eq!(PlaylistCommand::choose_song(&vec![4]), SongChoice::Unique(4));
    assert_eq!(
        PlaylistCommand::choose_song(&vec![4, 5]),
        SongChoice::Ambiguous { shown: 2, more: 0 }
    );
    assert_eq!(
        PlaylistCommand::choose_song(&vec![1, 2, 3, 4, 5]),
        SongChoice::Ambiguous { shown: 5, more: 0 }
    );
    assert_eq!(
        PlaylistCommand::choose_song(&vec![1, 2, 3, 4, 5, 6, 7]),
        SongChoice::Ambiguous { shown: 5, more: 2 }
    );
    assert!(PlaylistCommand::confirms("y\n"));
    assert!(PlaylistCommand::confirms("  YES "));
    assert!(!PlaylistCommand::confirms("yeah"));
    assert!(!PlaylistCommand::confirms(""));
    assert!(PlaylistCommand::says_yes("yes"));
    assert!(!PlaylistCommand::says_yes("Y"));
    assert_eq!(PlaylistCommand::playing_time(&songs), 1035);
    assert_eq!(PlaylistCommand::playing_time_line(&songs), "⏱️  Total duration: 17:15");
    assert_eq!(PlaylistCommand::playing_time(&[].to_vec()), 0);
    let long = vec![song("a", "", "", "p", u64::MAX), song("b", "", "", "q", 5)];
    assert_eq!(PlaylistCommand::playing_time(&long), u64::MAX);
    assert_eq!(
        PlaylistCommand::already_exists("Mix"),
        LofiTurtleError::Configuration("Playlist 'Mix' already exists".to_string())
    );
    assert_eq!(
        PlaylistCommand::not_found("Mix"),
        LofiTurtleError::Configuration("Playlist 'Mix' not found".to_string())
    );
    assert_eq!(PlaylistCommand::playable("Mix", 1), Ok(()));
    assert_eq!(
        PlaylistCommand::playable("Mix", 0),
        Err(LofiTurtleError::Configuration("Playlist 'Mix' is empty".to_string()))
    );
}

#[test]
fn scan_tally_counts_each_song_once() {
    let command = ScanCommand::new(true);
    assert!(command.force_rescan);
    let tally = command.tally(&vec![Some(true), Some(false), None, Some(true), Some(true)]);
    assert_eq!(tally, ScanTally { added: 3, updated: 1, errors: 1 });
    assert_eq!(
        tally.summary(),
        vec![
            "Scan completed:",
            "  - Added: 3 new songs",
            "  - Updated: 1 existing songs",
            "  - Errors: 1 songs failed to process"
        ]
    );
    assert_eq!(ScanTally::new().summary().len(), 3);
    let mut full = ScanTally { added: usize::MAX, updated: 0, errors: 0 };
    full.record(Some(true));
    assert_eq!(full.added, usize::MAX);
}

#[test]
fn commands_describe_themselves() {
    assert_eq!(PlayCommand::new().description(), "Start the interactive music player interface");
    assert_eq!(ShuffleCommand::new(Some(ShuffleMode::On)).message(), "🔀 Shuffle mode enabled");
    assert_eq!(ShuffleCommand::new(Some(ShuffleMode::Off)).message(), "➡️  Shuffle mode disabled");
    assert_eq!(ShuffleCommand::new(Some(ShuffleMode::Toggle)).message(), "🔀 Toggling shuffle mode");
    assert_eq!(ShuffleCommand::new(None).message(), "🔀 Toggling shuffle mode");
    assert_eq!(RepeatCommand::new(RepeatModeArg::Off).message(), "⏭ Repeat mode set to: off");
    assert_eq!(
        RepeatCommand::new(RepeatModeArg::Single).message(),
        "🔂 Repeat mode set to: single song"
    );
    assert_eq!(
        RepeatCommand::new(RepeatModeArg::Playlist).message(),
        "🔁 Repeat mode set to: playlist"
    );
    let made = CommandFactory::create_command(&Commands::List {
        artist: Some("a".to_string()),
        album: None,
    });
    assert_eq!(made.description(), "List all songs in the database with optional filtering");
    assert!(matches!(made, AnyCommand::List(c) if c.artist_filter == Some("a".to_string())));
    let made = CommandFactory::create_command(&Commands::Scan {
        music_dir: "/m".to_string(),
        force: true,
    });
    assert!(matches!(&made, AnyCommand::Scan(c) if c.force_rescan));
    assert_eq!(made.description(), "Scan music library and update database");
    let action =
        PlaylistAction::Add { playlist: "p".to_string(), songs: vec!["s".to_string()] };
    let made = CommandFactory::create_command(&Commands::Playlist { action: action.clone() });
    assert!(matches!(&made, AnyCommand::Playlist(c) if c.action == action));
    assert_eq!(made.description(), "Manage music playlists");
    assert_eq!(
        CommandFactory::create_command(&Commands::Play { music_dir: None }).description(),
        "Start the interactive music player interface"
    );
    assert_eq!(
        CommandFactory::create_command(&Commands::Search { query: "q".to_string() }).description(),
        "Search for songs by title, artist, or album"
    );
    assert_eq!(
        CommandFactory::create_command(&Commands::Shuffle { mode: None }).description(),
        "Control shuffle playback mode"
    );
    assert_eq!(
        CommandFactory::create_command(&Commands::Repeat { mode: RepeatModeArg::Single })
            .description(),
        "Control repeat playback mode"
    );
}

#[test]
fn the_scanner_knows_audio_files_by_extension() {
    let scanner = MusicScanner::new();
    for extension in ["mp3", "FLAC", "Aac", "m4a", "ogg", "WAV"] {
        assert!(scanner.is_audio_file(Some(extension)));
    }
    assert!(!scanner.is_audio_file(Some("txt")));
    assert!(!scanner.is_audio_file(Some("")));
    assert!(!scanner.is_audio_file(None));
    assert!(!scanner.reads_extension("MP3"));
    assert_eq!(scanner.extract_title_from_filename(Some("song")), "song");
    assert_eq!(scanner.extract_title_from_filename(None), "Unknown Title");
}

#[test]
fn adding_a_song_stores_it_unless_it_is_known() {
    let request = AddSongRequest {
        file_path: FilePath::new("/test/song.mp3").unwrap(),
        title: " Test Song ".to_string(),
        artist: "Test Artist".to_string(),
        album: "Test Album".to_string(),
        duration: Duration::from_seconds(180),
    };
    let id = SongId::from_path(&request.file_path);
    match AddSongUseCase::decide(request.clone(), false).unwrap() {
        AddSongDecision::Store(stored, response) => {
            assert!(response.was_created);
            assert_eq!(response.song_id, id);
            assert_eq!(stored.title(), "Test Song");
            assert_eq!(stored.id(), &id);
        }
        AddSongDecision::Known(_) => panic!("a new song is to be stored"),
    }
    match AddSongUseCase::decide(request.clone(), true).unwrap() {
        AddSongDecision::Known(response) => {
            assert!(!response.was_created);
            assert_eq!(response.song_id, id);
        }
        AddSongDecision::Store(..) => panic!("a known song is not stored again"),
    }
    let untitled = AddSongRequest { title: "  ".to_string(), ..request.clone() };
    assert_eq!(
        AddSongUseCase::decide(untitled.clone(), false).err(),
        Some(ApplicationError::Domain(DomainError::InvalidSongTitle(
            "Title cannot be empty".to_string()
        )))
    );
    assert!(AddSongUseCase::decide(untitled, true).is_ok());
}

#[test]
fn song_use_cases_answer_from_what_the_library_holds() {
    assert_eq!(
        SearchSongsUseCase::plan(&SearchSongsRequest { query: " \n".to_string() }),
        SearchPlan::FindAll
    );
    assert_eq!(
        SearchSongsUseCase::plan(&SearchSongsRequest { query: "Test".to_string() }),
        SearchPlan::Search
    );
    let found = track("/test/song.mp3", "Test Song");
    assert_eq!(SearchSongsUseCase::respond(vec![found.clone()]).songs, vec![found.clone()]);
    let id = SongId::from_string("abc".to_string());
    let request = GetSongRequest { song_id: id.clone() };
    assert_eq!(GetSongUseCase::respond(&request, Some(found.clone())).unwrap().song, found);
    assert_eq!(
        GetSongUseCase::respond(&request, None).err(),
        Some(ApplicationError::UseCaseFailed("Song not found: abc".to_string()))
    );
    let request = RemoveSongRequest { song_id: id.clone() };
    assert_eq!(RemoveSongUseCase::respond(request.clone(), Some(found)).unwrap().song_id, id);
    assert_eq!(
        RemoveSongUseCase::respond(request, None).err(),
        Some(ApplicationError::UseCaseFailed("Song not found: abc".to_string()))
    );
}

#[test]
fn playlist_use_cases_answer_from_what_the_repositories_hold() {
    let now = Timestamp { seconds: 5, nanoseconds: 0 };
    let later = Timestamp { seconds: 6, nanoseconds: 0 };
    let pid = PlaylistId::from_string("p".to_string());
    let request = CreatePlaylistRequest { name: " Mix ".to_string(), description: None };
    let (playlist, response) =
        CreatePlaylistUseCase::decide_at(request.clone(), false, pid.clone(), now).unwrap();
    assert_eq!(response.playlist_id, pid);
    assert_eq!(playlist.name(), "Mix");
    assert_eq!(
        CreatePlaylistUseCase::decide_at(request.clone(), true, pid.clone(), now).err(),
        Some(ApplicationError::ValidationFailed("Playlist ' Mix ' already exists".to_string()))
    );
    assert_eq!(
        CreatePlaylistUseCase::decide(
            CreatePlaylistRequest { name: String::new(), description: None },
            false
        )
        .err(),
        Some(ApplicationError::Domain(DomainError::InvalidPlaylistName(
            "Name cannot be empty".to_string()
        )))
    );
    let (fresh, response) = CreatePlaylistUseCase::decide(request, false).unwrap();
    assert_eq!(fresh.id(), &response.playlist_id);

    let sid = SongId::from_string("s".to_string());
    let song = track("/a.mp3", "A");
    let request = AddSongToPlaylistRequest { playlist_id: pid.clone(), song_id: sid.clone() };
    let (changed, position, response) = AddSongToPlaylistUseCase::decide_at(
        request.clone(),
        Some(playlist.clone()),
        Some(song.clone()),
        later,
    )
    .unwrap();
    assert_eq!(position, 0);
    assert_eq!(response.song_id, sid);
    assert_eq!(changed.song_ids().to_vec(), vec![sid.clone()]);
    assert_eq!(changed.updated_at(), later);
    assert_eq!(
        AddSongToPlaylistUseCase::decide_at(request.clone(), None, Some(song.clone()), later)
            .err(),
        Some(ApplicationError::UseCaseFailed("Playlist not found: p".to_string()))
    );
    assert_eq!(
        AddSongToPlaylistUseCase::decide_at(request.clone(), Some(playlist.clone()), None, later)
            .err(),
        Some(ApplicationError::UseCaseFailed("Song not found: s".to_string()))
    );
    assert_eq!(
        AddSongToPlaylistUseCase::decide_at(
            request,
            Some(changed.clone()),
            Some(song.clone()),
            later
        )
        .err(),
        Some(ApplicationError::Domain(DomainError::BusinessRuleViolation(
            "Song already exists in playlist".to_string()
        )))
    );

    let request = RemoveSongFromPlaylistRequest { playlist_id: pid.clone(), song_id: sid.clone() };
    let (emptied, _) =
        RemoveSongFromPlaylistUseCase::decide_at(request.clone(), Some(changed.clone()), now)
            .unwrap();
    assert!(emptied.is_empty());
    assert_eq!(
        RemoveSongFromPlaylistUseCase::decide_at(request.clone(), Some(playlist.clone()), now)
            .err(),
        Some(ApplicationError::Domain(DomainError::SongNotFound("s".to_string())))
    );
    assert_eq!(
        RemoveSongFromPlaylistUseCase::decide_at(request, None, now).err(),
        Some(ApplicationError::UseCaseFailed("Playlist not found: p".to_string()))
    );

    let request = GetPlaylistWithSongsRequest { playlist_id: pid.clone() };
    assert_eq!(
        GetPlaylistWithSongsUseCase::found(&request, None).err(),
        Some(ApplicationError::UseCaseFailed("Playlist not found: p".to_string()))
    );
    let found = GetPlaylistWithSongsUseCase::found(&request, Some(changed.clone())).unwrap();
    let response = GetPlaylistWithSongsUseCase::respond(found, vec![song.clone()]);
    assert_eq!(response.playlist, changed);
    assert_eq!(response.songs, vec![song]);

    let request = DeletePlaylistRequest { playlist_id: pid.clone() };
    assert_eq!(
        DeletePlaylistUseCase::respond(request.clone(), Some(changed)).unwrap().playlist_id,
        pid
    );
    assert_eq!(
        DeletePlaylistUseCase::respond(request, None).err(),
        Some(ApplicationError::UseCaseFailed("Playlist not found: p".to_string()))
    );
}

#[test]
fn a_batch_counts_added_known_and_failed_songs() {
    let mut result = BatchAddResult::new();
    let path = FilePath::new("/a.mp3").unwrap();
    let id = SongId::from_path(&path);
    result.record(path.clone(), Ok(AddSongResponse { song_id: id.clone(), was_created: true }));
    result.record(path.clone(), Ok(AddSongResponse { song_id: id, was_created: false }));
    result.record(path.clone(), Err(ApplicationError::Repository("disk full".to_string())));
    assert_eq!(result.added_count, 1);
    assert_eq!(result.updated_count, 1);
    assert_eq!(result.errors.len(), 1);
    assert_eq!(result.errors[0].file_path, path);
    assert_eq!(result.errors[0].error, "Repository error: disk full");
    let data = SongData {
        file_path: path.clone(),
        title: "t".to_string(),
        artist: "a".to_string(),
        album: "b".to_string(),
        duration: Duration::from_seconds(3),
    };
    let request = data.into_request();
    assert_eq!(request.file_path, path);
    assert_eq!(request.title, "t");
    assert_eq!(request.duration.total_seconds(), 3);
}

#[test]
fn entities_become_plain_data() {
    let dto = SongDto::from_song(track("/a/b.mp3", " T "));
    assert_eq!(
        dto,
        SongDto {
            id: "b5bde0a57a544216ded4521c718da74c".to_string(),
            file_path: "/a/b.mp3".to_string(),
            title: "T".to_string(),
            artist: "Artist".to_string(),
            album: "Unknown Album".to_string(),
            duration_seconds: 61,
        }
    );
    let playlist = Playlist::from_existing(
        PlaylistId::from_string("p".to_string()),
        "Mix".to_string(),
        Some("for the road".to_string()),
        Vec::new(),
        Timestamp { seconds: 1431648000, nanoseconds: 0 },
        Timestamp { seconds: 1431648001, nanoseconds: 0 },
    )
    .unwrap();
    assert_eq!(
        PlaylistDto::from_playlist(playlist),
        PlaylistDto {
            id: "p".to_string(),
            name: "Mix".to_string(),
            description: Some("for the road".to_string()),
            created_at: "2015-05-15T00:00:00+00:00".to_string(),
            updated_at: "2015-05-15T00:00:01+00:00".to_string(),
        }
    );
}

#[test]
fn the_placeholder_is_a_note_in_a_frame() {
    let renderer = AlbumArtRenderer::new(AlbumArtConfig {
        width: 9,
        height: 9,
        show_art: true,
        use_color: false,
    });
    let expected = "\
│││││││││\n\
│   ♪   │\n\
│   ♪   │\n\
│ ♪♪♪♪♪ │\n\
│ ♪♪♪♪♪ │\n\
│ ♪♪♪♪♪ │\n\
│       │\n\
│       │\n\
│││││││││\n";
    assert_eq!(renderer.generate_placeholder(), expected);
    let small =
        AlbumArtRenderer::new(AlbumArtConfig { width: 2, height: 1, show_art: true, use_color: false });
    assert_eq!(small.generate_placeholder(), "♪♪\n");
    let flat =
        AlbumArtRenderer::new(AlbumArtConfig { width: 0, height: 2, show_art: true, use_color: false });
    assert_eq!(flat.generate_placeholder(), "\n\n");
    let hidden = AlbumArtRenderer::new(AlbumArtConfig::builder().build());
    assert_eq!(hidden.generate_placeholder(), "");
    assert_eq!(
        AlbumArtConfig::builder().show_art(true).build(),
        AlbumArtConfig { width: 40, height: 20, show_art: true, use_color: false }
    );
    let default = AlbumArtRenderer::default().generate_placeholder();
    assert_eq!(default.lines().count(), 20);
    assert!(default.lines().all(|line| line.chars().count() == 40));
}

#[test]
fn rendered_art_is_remembered_per_file_and_size() {
    let mut renderer = AlbumArtRenderer::default();
    assert_eq!(renderer.lookup("/a.mp3"), None);
    renderer.store("/a.mp3", "art".to_string());
    assert_eq!(renderer.lookup("/a.mp3"), Some("art".to_string()));
    assert_eq!(renderer.lookup("/b.mp3"), None);
    renderer.update_dimensions(10, 5);
    assert_eq!(renderer.config().width, 10);
    assert_eq!(renderer.config().height, 5);
    assert_eq!(renderer.lookup("/a.mp3"), None);
    renderer.store("/a.mp3", "small".to_string());
    renderer.update_dimensions(40, 20);
    assert_eq!(renderer.lookup("/a.mp3"), Some("art".to_string()));
    renderer.store("/a.mp3", "new".to_string());
    assert_eq!(renderer.lookup("/a.mp3"), Some("new".to_string()));
}

#[test]
fn a_text_is_found_wherever_it_stands() {
    assert!(contains_text("Blue Monday", "Blue"));
    assert!(contains_text("Blue Monday", "day"));
    assert!(contains_text("Blue Monday", "Blue Monday"));
    assert!(contains_text("Blue Monday", ""));
    assert!(!contains_text("Blue Monday", "Blue Monday!"));
    assert!(!contains_text("Blue Monday", "Mondays"));
    assert!(!contains_text("aab", "abb"));
    assert!(contains_text("aaab", "aab"));
    assert!(contains_text("Sigur Rós – Ágætis byrjun", "Rós – Á"));
    assert!(!contains_text("Sigur Rós", "Ros"));
}
