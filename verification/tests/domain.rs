use lofi_turtle::domain::entities::playlist::{Playlist, PlaylistBuilder};
use lofi_turtle::domain::entities::Song;
use lofi_turtle::domain::value_objects::{Duration, FilePath, PlaylistId, SongId};
use lofi_turtle::shared::errors::DomainError;
use lofi_turtle::stamp::Timestamp;

#[test]
fn test_file_path_validation() {
    assert!(FilePath::new("").is_err());
    assert!(FilePath::new("invalid").is_err());
    assert!(FilePath::new("/path/to/song.mp3").is_ok());
}

#[test]
fn test_duration_formatting() {
    let duration = Duration::from_seconds(125);
    assert_eq!(duration.format_mm_ss(), "02:05");
    assert_eq!(duration.minutes(), 2);
    assert_eq!(duration.seconds(), 5);
}

#[test]
fn test_song_creation_with_valid_data() {
    let file_path = FilePath::new("/music/song.mp3").unwrap();
    let duration = Duration::from_seconds(180);

    let song = Song::new(
        file_path,
        "Test Song".to_string(),
        "Test Artist".to_string(),
        "Test Album".to_string(),
        duration,
    );

    assert!(song.is_ok());
    let song = song.unwrap();
    assert_eq!(song.title(), "Test Song");
    assert_eq!(song.artist(), "Test Artist");
    assert_eq!(song.display_name(), "Test Song - Test Artist");
}

#[test]
fn test_song_creation_with_empty_title_fails() {
    let file_path = FilePath::new("/music/song.mp3").unwrap();
    let duration = Duration::from_seconds(180);

    let result = Song::new(
        file_path,
        "".to_string(),
        "Test Artist".to_string(),
        "Test Album".to_string(),
        duration,
    );

    assert!(result.is_err());
}

#[test]
fn test_unknown_artist_fallback() {
    let file_path = FilePath::new("/music/song.mp3").unwrap();
    let duration = Duration::from_seconds(180);

    let song = Song::new(
        file_path,
        "Test Song".to_string(),
        "".to_string(),
        "Test Album".to_string(),
        duration,
    )
    .unwrap();

    assert_eq!(song.artist(), "Unknown Artist");
    assert_eq!(song.display_name(), "Test Song");
}

#[test]
fn test_playlist_creation() {
    let playlist = Playlist::new("My Playlist".to_string(), None);
    assert!(playlist.is_ok());

    let playlist = playlist.unwrap();
    assert_eq!(playlist.name(), "My Playlist");
    assert!(playlist.is_empty());
    assert_eq!(playlist.song_count(), 0);
}

#[test]
fn test_playlist_creation_with_empty_name_fails() {
    let result = Playlist::new("".to_string(), None);
    assert!(result.is_err());
}

#[test]
fn test_add_song_to_playlist() {
    let mut playlist = Playlist::new("Test".to_string(), None).unwrap();
    let file_path = FilePath::new("/test.mp3").unwrap();
    let song_id = SongId::from_path(&file_path);

    let result = playlist.add_song(song_id.clone());
    assert!(result.is_ok());
    assert!(playlist.contains_song(&song_id));
    assert_eq!(playlist.song_count(), 1);
}

#[test]
fn test_add_duplicate_song_fails() {
    let mut playlist = Playlist::new("Test".to_string(), None).unwrap();
    let file_path = FilePath::new("/test.mp3").unwrap();
    let song_id = SongId::from_path(&file_path);

    playlist.add_song(song_id.clone()).unwrap();
    let result = playlist.add_song(song_id);
    assert!(result.is_err());
}

#[test]
fn test_playlist_builder() {
    let file_path = FilePath::new("/test.mp3").unwrap();
    let song_id = SongId::from_path(&file_path);

    let playlist = PlaylistBuilder::new()
        .name("Built Playlist")
        .description("Test description")
        .add_song(song_id.clone())
        .build();

    assert!(playlist.is_ok());
    let playlist = playlist.unwrap();
    assert_eq!(playlist.name(), "Built Playlist");
    assert!(playlist.contains_song(&song_id));
}

#[test]
fn song_id_is_md5_of_path() {
    let file_path = FilePath::new("/test.mp3").unwrap();
    let song_id = SongId::from_path(&file_path);
    assert_eq!(song_id.as_str(), "ca91df2e0ee34bf41271edab65065b28");
    assert_eq!(song_id.as_str().len(), 32);
    assert_ne!(song_id.as_str(), "/test.mp3");
}

#[test]
fn file_path_errors_name_their_reason() {
    assert_eq!(
        FilePath::new("   "),
        Err(DomainError::InvalidFilePath("Path cannot be empty".to_string()))
    );
    assert_eq!(
        FilePath::new("no_extension"),
        Err(DomainError::InvalidFilePath("Path must have an extension".to_string()))
    );
    assert_eq!(FilePath::new(" a.b ").unwrap().as_str(), " a.b ");
}

#[test]
fn file_path_parts() {
    let path = FilePath::new("/music/album/song.name.mp3").unwrap();
    assert_eq!(path.extension(), Some("mp3"));
    assert_eq!(path.filename_stem(), Some("song.name"));
}

#[test]
fn duration_from_minutes_and_seconds() {
    assert_eq!(Duration::from_minutes_seconds(2, 5).unwrap().total_seconds(), 125);
    assert_eq!(
        Duration::from_minutes_seconds(2, 60),
        Err(DomainError::InvalidDuration("Seconds must be less than 60".to_string()))
    );
}

#[test]
fn duration_long_format() {
    assert_eq!(Duration::from_seconds(59).format_h_mm_ss(), "00:59");
    assert_eq!(Duration::from_seconds(3599).format_h_mm_ss(), "59:59");
    assert_eq!(Duration::from_seconds(3600).format_h_mm_ss(), "1:00:00");
    assert_eq!(Duration::from_seconds(3725).format_h_mm_ss(), "1:02:05");
    assert_eq!(Duration::from_seconds(360000).format_h_mm_ss(), "100:00:00");
    assert_eq!(Duration::from_seconds(6000).format_mm_ss(), "100:00");
    assert_eq!(Duration::from_seconds(0).format_mm_ss(), "00:00");
}

#[test]
fn song_metadata_is_trimmed() {
    let file_path = FilePath::new("/music/song.mp3").unwrap();
    let mut song = Song::new(
        file_path,
        "  Title \t".to_string(),
        " Artist ".to_string(),
        "\u{3000}".to_string(),
        Duration::from_seconds(1),
    )
    .unwrap();
    assert_eq!(song.title(), "Title");
    assert_eq!(song.artist(), "Artist");
    assert_eq!(song.album(), "Unknown Album");
    assert_eq!(song.duration().total_seconds(), 1);
    assert_eq!(song.file_path().as_str(), "/music/song.mp3");
    assert_eq!(song.id().as_str(), SongId::from_path(song.file_path()).as_str());

    let id_before = song.id().clone();
    assert_eq!(
        song.update_metadata(
            " \n".to_string(),
            "x".to_string(),
            "y".to_string(),
            Duration::from_seconds(2)
        ),
        Err(DomainError::InvalidSongTitle("Title cannot be empty".to_string()))
    );
    assert_eq!(song.title(), "Title");
    assert!(song
        .update_metadata(
            " New ".to_string(),
            "".to_string(),
            " Album ".to_string(),
            Duration::from_seconds(2)
        )
        .is_ok());
    assert_eq!(song.title(), "New");
    assert_eq!(song.artist(), "Unknown Artist");
    assert_eq!(song.album(), "Album");
    assert_eq!(song.display_name(), "New");
    assert_eq!(song.duration().total_seconds(), 2);
    assert_eq!(song.id(), &id_before);
}

#[test]
fn playlist_rules() {
    let now = Timestamp { seconds: 1_700_000_000, nanoseconds: 5 };
    let later = Timestamp { seconds: 1_700_000_100, nanoseconds: 0 };
    let id = PlaylistId::from_string("p1".to_string());
    let mut playlist =
        Playlist::new_at(id, now, "  Road trip ".to_string(), Some("  ".to_string())).unwrap();
    assert_eq!(playlist.id().as_str(), "p1");
    assert_eq!(playlist.name(), "Road trip");
    assert_eq!(playlist.description(), None);
    assert_eq!(playlist.created_at(), now);
    assert_eq!(playlist.updated_at(), now);
    assert_eq!(playlist.display_info(), "Road trip (0 songs)");

    let a = SongId::from_string("a".to_string());
    let b = SongId::from_string("b".to_string());
    let c = SongId::from_string("c".to_string());
    assert!(playlist.add_song_at(a.clone(), later).is_ok());
    assert_eq!(playlist.updated_at(), later);
    assert_eq!(playlist.created_at(), now);
    assert_eq!(playlist.display_info(), "Road trip (1 song)");
    assert_eq!(
        playlist.add_song_at(a.clone(), now),
        Err(DomainError::BusinessRuleViolation("Song already exists in playlist".to_string()))
    );
    assert_eq!(playlist.updated_at(), later);
    playlist.add_song(b.clone()).unwrap();
    playlist.add_song(c.clone()).unwrap();
    assert_eq!(playlist.song_ids().to_vec(), vec![a.clone(), b.clone(), c.clone()]);

    playlist.move_song(0, 2).unwrap();
    assert_eq!(playlist.song_ids().to_vec(), vec![b.clone(), c.clone(), a.clone()]);
    playlist.move_song(2, 0).unwrap();
    assert_eq!(playlist.song_ids().to_vec(), vec![a.clone(), b.clone(), c.clone()]);
    assert_eq!(
        playlist.move_song(0, 3),
        Err(DomainError::BusinessRuleViolation("Invalid song position".to_string()))
    );
    assert_eq!(
        playlist.move_song(3, 0),
        Err(DomainError::BusinessRuleViolation("Invalid song position".to_string()))
    );

    assert_eq!(
        playlist.remove_song(&SongId::from_string("zz".to_string())),
        Err(DomainError::SongNotFound("zz".to_string()))
    );
    playlist.remove_song(&b).unwrap();
    assert_eq!(playlist.song_ids().to_vec(), vec![a.clone(), c.clone()]);
    assert!(!playlist.contains_song(&b));

    assert_eq!(
        playlist.update_metadata("x".repeat(101), None),
        Err(DomainError::InvalidPlaylistName("Name cannot exceed 100 characters".to_string()))
    );
    assert_eq!(
        playlist.update_metadata(" ".to_string(), None),
        Err(DomainError::InvalidPlaylistName("Name cannot be empty".to_string()))
    );
    playlist.update_metadata(" x ".to_string(), Some(" about ".to_string())).unwrap();
    assert_eq!(playlist.name(), "x");
    assert_eq!(playlist.description(), Some("about"));
    assert!(Playlist::new("y".repeat(100), None).is_ok());

    playlist.clear();
    assert!(playlist.is_empty());
}

#[test]
fn playlist_from_storage_and_builder() {
    let t = Timestamp { seconds: 1, nanoseconds: 2 };
    let u = Timestamp { seconds: 3, nanoseconds: 4 };
    let a = SongId::from_string("a".to_string());
    let stored = Playlist::from_existing(
        PlaylistId::from_string("id".to_string()),
        " n ".to_string(),
        Some(" d ".to_string()),
        vec![a.clone(), a.clone()],
        t,
        u,
    )
    .unwrap();
    assert_eq!(stored.name(), "n");
    assert_eq!(stored.description(), Some("d"));
    assert_eq!(stored.song_count(), 2);
    assert_eq!(stored.created_at(), t);
    assert_eq!(stored.updated_at(), u);
    assert!(Playlist::from_existing(
        PlaylistId::from_string("id".to_string()),
        "".to_string(),
        None,
        Vec::new(),
        t,
        u
    )
    .is_err());

    assert_eq!(
        PlaylistBuilder::new().build().err(),
        Some(DomainError::InvalidPlaylistName("Name is required".to_string()))
    );
    let b = SongId::from_string("b".to_string());
    let built = PlaylistBuilder::new()
        .name("n")
        .add_song(a.clone())
        .add_songs(vec![b.clone(), a.clone(), b.clone()])
        .build_at(PlaylistId::from_string("q".to_string()), t)
        .unwrap();
    assert_eq!(built.song_ids().to_vec(), vec![a, b]);
    assert_eq!(built.id().as_str(), "q");
    assert_eq!(built.created_at(), t);
    let fresh = PlaylistId::new();
    assert_eq!(fresh.as_str().len(), 36);
    assert_ne!(fresh.as_str(), PlaylistId::new().as_str());
}

#[test]
fn bare_file_names_split_at_their_last_dot() {
    let plain = FilePath::new("song.mp3").unwrap();
    assert_eq!(plain.extension(), Some("mp3"));
    assert_eq!(plain.filename_stem(), Some("song"));

    let two_dots = FilePath::new("archive.tar.gz").unwrap();
    assert_eq!(two_dots.extension(), Some("gz"));
    assert_eq!(two_dots.filename_stem(), Some("archive.tar"));

    let ends_in_dot = FilePath::new("a.b.").unwrap();
    assert_eq!(ends_in_dot.extension(), Some(""));
    assert_eq!(ends_in_dot.filename_stem(), Some("a.b"));

    let doubled = FilePath::new("..foo").unwrap();
    assert_eq!(doubled.extension(), Some("foo"));
    assert_eq!(doubled.filename_stem(), Some("."));
}

#[test]
fn a_leading_dot_alone_makes_no_extension() {
    let hidden = FilePath::new(".hidden").unwrap();
    assert_eq!(hidden.extension(), None);
    assert_eq!(hidden.filename_stem(), Some(".hidden"));
}

#[test]
fn the_dot_names_have_neither_extension_nor_stem() {
    let parent = FilePath::new("..").unwrap();
    assert_eq!(parent.extension(), None);
    assert_eq!(parent.filename_stem(), None);
    let here = FilePath::new(".").unwrap();
    assert_eq!(here.extension(), None);
    assert_eq!(here.filename_stem(), None);
}

#[test]
fn random_playlist_identifiers_are_written_alike() {
    let first = PlaylistId::new();
    let second = PlaylistId::new();
    assert_ne!(first.as_str(), second.as_str());
    for id in [first, second] {
        let text: Vec<char> = id.as_str().chars().collect();
        assert_eq!(text.len(), 36);
        for (place, c) in text.iter().enumerate() {
            match place {
                8 | 13 | 18 | 23 => assert_eq!(*c, '-'),
                14 => assert_eq!(*c, '4'),
                19 => assert!(matches!(*c, '8' | '9' | 'a' | 'b')),
                _ => assert!(matches!(*c, '0'..='9' | 'a'..='f')),
            }
        }
    }
}

#[test]
fn paths_with_directories_split_at_the_last_dot_of_their_file_name() {
    let song = FilePath::new("/path/to/song.mp3").unwrap();
    assert_eq!(song.extension(), Some("mp3"));
    assert_eq!(song.filename_stem(), Some("song"));

    let dotted_directory = FilePath::new("music.d/track").unwrap();
    assert_eq!(dotted_directory.extension(), None);
    assert_eq!(dotted_directory.filename_stem(), Some("track"));

    let hidden = FilePath::new("music/.hidden").unwrap();
    assert_eq!(hidden.extension(), None);
    assert_eq!(hidden.filename_stem(), Some(".hidden"));

    let relative = FilePath::new("a/b/c.tar.gz").unwrap();
    assert_eq!(relative.extension(), Some("gz"));
    assert_eq!(relative.filename_stem(), Some("c.tar"));
}

#[test]
fn duration_refuses_sixty_seconds_whatever_the_minutes() {
    assert_eq!(
        Duration::from_minutes_seconds(u64::MAX, 60),
        Err(DomainError::InvalidDuration("Seconds must be less than 60".to_string()))
    );
    assert_eq!(
        Duration::from_minutes_seconds(u64::MAX, u64::MAX),
        Err(DomainError::InvalidDuration("Seconds must be less than 60".to_string()))
    );
    assert_eq!(Duration::from_minutes_seconds(0, 59).unwrap().total_seconds(), 59);
}

#[test]
fn new_playlists_carry_a_random_identifier() {
    let playlist = Playlist::new("Evening".to_string(), None).unwrap();
    let id = playlist.id().as_str().to_string();
    assert_eq!(id.len(), 36);
    assert_eq!(id.chars().nth(14), Some('4'));
    assert_eq!(id.matches('-').count(), 4);
    let other = Playlist::new("Morning".to_string(), None).unwrap();
    assert_ne!(other.id().as_str(), id);
}
