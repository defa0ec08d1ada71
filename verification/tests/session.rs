use lofi_turtle::audio::{
    AudioPlayer, AudioThread, GaplessPlayer, PlaybackStatus, PlayerCommand, PlayerEvent,
    PlayerState, SinkAction, SinkOrder,
};
use lofi_turtle::error::LofiTurtleError;
use lofi_turtle::models::{RepeatMode, Song};
use lofi_turtle::player::playback_engine::RepeatMode as EngineRepeatMode;
use lofi_turtle::player::{PlaybackEngine, Span};

fn create_test_song() -> Song {
    Song::new(
        "/test/path.mp3".to_string(),
        "Test Song".to_string(),
        "Test Artist".to_string(),
        "Test Album".to_string(),
        180,
    )
}

fn songs(count: usize) -> Vec<Song> {
    (0..count)
        .map(|i| {
            Song::new(format!("/m/{i}.mp3"), format!("T{i}"), "A".to_string(), "B".to_string(), 10)
        })
        .collect()
}

/// Drains the queue as the control thread does, every load succeeding with
/// the given duration.
fn drain(player: &mut AudioPlayer, duration: u64) -> Vec<SinkAction> {
    let mut actions = Vec::new();
    while let Some(action) = player.next_action(0) {
        if let SinkAction::Load(path) = &action {
            player.finish_load(path.clone(), Some(duration));
        }
        actions.push(action);
    }
    actions
}

#[test]
fn test_playback_engine_creation() {
    let engine = PlaybackEngine::new();
    assert_eq!(engine.get_state(), PlayerState::Stopped);
    assert!(!engine.is_shuffle());
    assert_eq!(engine.get_repeat_mode(), EngineRepeatMode::Off);
}

#[test]
fn test_play_pause_resume() {
    let mut engine = PlaybackEngine::new();
    let song = create_test_song();

    // Play song
    engine.play(song).unwrap();
    assert_eq!(engine.get_state(), PlayerState::Playing);

    // Pause
    engine.pause().unwrap();
    assert_eq!(engine.get_state(), PlayerState::Paused);

    // Resume
    engine.resume().unwrap();
    assert_eq!(engine.get_state(), PlayerState::Playing);

    // Stop
    engine.stop().unwrap();
    assert_eq!(engine.get_state(), PlayerState::Stopped);
}

#[test]
fn engine_tracks_song_position_and_modes() {
    let mut engine = PlaybackEngine::default();
    assert_eq!(engine.get_current_song(), None);
    assert_eq!(engine.get_position(), Span::from_secs(0));
    assert_eq!(engine.get_duration(), None);
    assert!(!engine.is_ended());
    engine.toggle_playback().unwrap();
    assert_eq!(engine.get_state(), PlayerState::Stopped);

    engine.play(create_test_song()).unwrap();
    engine.set_duration(Span::from_secs(100));
    engine.update_position(Span::from_secs(50));
    assert!(!engine.is_ended());
    engine.toggle_playback().unwrap();
    assert_eq!(engine.get_state(), PlayerState::Paused);
    assert_eq!(engine.get_position(), Span::from_secs(50));
    engine.toggle_playback().unwrap();
    assert_eq!(engine.get_state(), PlayerState::Playing);
    engine.seek(Span::from_secs(100)).unwrap();
    assert!(engine.is_ended());
    engine.seek(Span::from_secs(250)).unwrap();
    assert_eq!(engine.get_position(), Span::from_secs(250));
    engine.stop().unwrap();
    assert_eq!(engine.get_position(), Span::from_secs(0));
    assert_eq!(engine.get_current_song(), Some(&create_test_song()));
    engine.update_position(Span::from_secs(7));
    engine.toggle_playback().unwrap();
    assert_eq!(engine.get_state(), PlayerState::Playing);
    assert_eq!(engine.get_position(), Span::from_secs(0));

    engine.set_shuffle(true);
    assert!(engine.is_shuffle());
    engine.set_repeat_mode(EngineRepeatMode::Playlist);
    assert_eq!(engine.get_repeat_mode(), EngineRepeatMode::Playlist);
}

#[test]
fn commands_are_handled_in_the_order_they_were_sent() {
    let mut player = AudioPlayer::new();
    player.send_command(PlayerCommand::Play("A".to_string())).unwrap();
    player.send_command(PlayerCommand::Stop).unwrap();
    player.send_command(PlayerCommand::Play("B".to_string())).unwrap();
    assert_eq!(player.get_status(), PlaybackStatus::default());

    let actions = drain(&mut player, 42);
    assert_eq!(
        actions,
        vec![
            SinkAction::Load("A".to_string()),
            SinkAction::Stop,
            SinkAction::Load("B".to_string())
        ]
    );
    let status = player.get_status();
    assert_eq!(status.state, PlayerState::Playing);
    assert_eq!(status.current_song, Some("B".to_string()));
    assert_eq!(status.total_duration, 42);
    assert_eq!(status.current_position, 0);
    assert!(player.pending.is_empty());
}

#[test]
fn queued_commands_come_before_the_end_of_a_song() {
    let mut player = AudioPlayer::new();
    player.send_command(PlayerCommand::Play("A".to_string())).unwrap();
    drain(&mut player, 10);
    player.send_command(PlayerCommand::Play("B".to_string())).unwrap();
    // The sink has run empty, but a command is waiting: the check is put off.
    assert!(!player.finish_tick(true, 10));
    assert_eq!(player.get_status().current_song, Some("A".to_string()));
    drain(&mut player, 20);
    assert!(player.finish_tick(false, 3));
    let status = player.get_status();
    assert_eq!(status.current_song, Some("B".to_string()));
    assert_eq!(status.state, PlayerState::Playing);
    assert_eq!(status.current_position, 3);
    assert!(player.finish_tick(true, 20));
    let status = player.get_status();
    assert_eq!(status.state, PlayerState::Stopped);
    assert_eq!(status.current_song, None);
    assert_eq!(status.current_position, 0);
    assert_eq!(status.total_duration, 20);
}

#[test]
fn quit_closes_the_channel() {
    let mut player = AudioPlayer::new();
    player.send_command(PlayerCommand::Quit).unwrap();
    player.send_command(PlayerCommand::Play("A".to_string())).unwrap();
    assert_eq!(player.next_action(0), Some(SinkAction::Quit));
    assert!(!player.running);
    assert_eq!(player.next_action(0), None);
    assert_eq!(player.pending.len(), 1);
    assert_eq!(
        player.send_command(PlayerCommand::Pause),
        Err(LofiTurtleError::ChannelError(
            "Failed to send command to audio thread: sending on a closed channel".to_string()
        ))
    );
    assert_eq!(player.pending.len(), 1);
    assert!(player.finish_tick(false, 0));
}

#[test]
fn the_audio_thread_keeps_time_across_pauses() {
    let mut thread = AudioThread::new();
    assert_eq!(thread.handle_command(PlayerCommand::Pause, 5), SinkAction::Nothing);
    assert_eq!(thread.handle_command(PlayerCommand::Resume, 5), SinkAction::Nothing);
    assert_eq!(thread.handle_command(PlayerCommand::Stop, 5), SinkAction::Nothing);
    assert_eq!(thread, AudioThread::new());

    assert_eq!(
        thread.handle_command(PlayerCommand::Play("s".to_string()), 0),
        SinkAction::Load("s".to_string())
    );
    thread.finish_load("s".to_string(), Some(100));
    assert!(thread.has_sink && thread.timer_running);
    thread.tick(false, 30);
    assert_eq!(thread.status.current_position, 30);
    assert_eq!(thread.handle_command(PlayerCommand::Pause, 31), SinkAction::Pause);
    assert_eq!(thread.status.state, PlayerState::Paused);
    assert_eq!(thread.paused_position, 31);
    assert!(!thread.timer_running);
    thread.tick(false, 50);
    assert_eq!(thread.status.current_position, 30);
    assert_eq!(thread.handle_command(PlayerCommand::Pause, 99), SinkAction::Pause);
    assert_eq!(thread.paused_position, 31);
    assert_eq!(thread.handle_command(PlayerCommand::Resume, 0), SinkAction::Resume);
    assert_eq!(thread.status.state, PlayerState::Playing);
    thread.tick(false, 9);
    assert_eq!(thread.status.current_position, 40);
    thread.tick(false, 500);
    assert_eq!(thread.status.current_position, 100);
    thread.tick(false, u64::MAX);
    assert_eq!(thread.status.current_position, 100);

    assert_eq!(thread.handle_command(PlayerCommand::SetVolume, 0), SinkAction::ApplyVolume);
    assert_eq!(thread.handle_command(PlayerCommand::Seek(3), 0), SinkAction::Nothing);
    assert_eq!(thread.handle_command(PlayerCommand::SetShuffle(true), 0), SinkAction::Nothing);
    assert_eq!(
        thread.handle_command(PlayerCommand::SetRepeat(RepeatMode::Single), 0),
        SinkAction::Nothing
    );
    assert_eq!(thread.status.current_song, Some("s".to_string()));

    assert_eq!(thread.handle_command(PlayerCommand::Stop, 0), SinkAction::Stop);
    assert_eq!(thread.status.state, PlayerState::Stopped);
    assert_eq!(thread.status.current_song, None);
    assert_eq!(thread.status.total_duration, 100);
    assert!(!thread.has_sink);
}

#[test]
fn a_song_that_cannot_be_loaded_stops_the_player() {
    let mut thread = AudioThread::new();
    thread.handle_command(PlayerCommand::Play("good".to_string()), 0);
    thread.finish_load("good".to_string(), Some(7));
    thread.handle_command(PlayerCommand::Play("bad".to_string()), 2);
    assert!(!thread.has_sink);
    assert_eq!(thread.status.state, PlayerState::Playing);
    thread.finish_load("bad".to_string(), None);
    assert_eq!(thread.status.state, PlayerState::Stopped);
    assert_eq!(thread.status.current_song, Some("good".to_string()));
    assert!(!thread.has_sink);
    thread.tick(true, 9);
    assert_eq!(thread.status.current_song, Some("good".to_string()));
}

#[test]
fn gapless_player_handles_events_in_order() {
    let mut player = GaplessPlayer::new();
    player.load_playlist(songs(3)).unwrap();
    player.pause().unwrap();
    player.play().unwrap();
    player.set_volume().unwrap();
    player.cycle_repeat().unwrap();
    player.stop().unwrap();
    assert_eq!(player.events.len(), 6);
    assert!(player.get_playlist().is_empty());

    assert_eq!(player.next_order(), Some(SinkOrder::Load(0)));
    assert_eq!(player.get_playlist(), songs(3));
    assert_eq!(player.get_current_song(), None);
    player.song_started(0);
    assert_eq!(player.get_current_song(), Some(songs(3)[0].clone()));
    assert!(player.get_playback_state().is_playing);

    assert_eq!(player.next_order(), Some(SinkOrder::Pause));
    let status = player.get_current_status(true);
    assert!(!status.is_playing && status.is_paused);
    assert_eq!(status.duration, 10);
    assert_eq!(status.position, 0);
    assert_eq!(player.next_order(), Some(SinkOrder::Play));
    assert!(player.get_current_status(false).is_playing);
    assert!(!player.get_current_status(true).is_playing);
    assert_eq!(player.next_order(), Some(SinkOrder::ApplyVolume));
    assert_eq!(player.next_order(), Some(SinkOrder::Nothing));
    assert_eq!(player.get_playback_state().repeat_mode, RepeatMode::Single);
    assert_eq!(player.next_order(), Some(SinkOrder::Stop));
    assert_eq!(player.get_current_song(), None);
    assert!(!player.get_playback_state().is_playing);
    assert_eq!(player.get_current_status(false).duration, 0);
    assert_eq!(player.next_order(), None);
}

#[test]
fn the_position_is_committed_once_the_song_has_started() {
    let mut player = GaplessPlayer::new();
    assert_eq!(player.handle_event(PlayerEvent::LoadPlaylist(songs(3))), SinkOrder::Load(0));
    player.song_started(0);
    assert_eq!(player.handle_event(PlayerEvent::Next), SinkOrder::Load(1));
    assert_eq!(player.playback_manager.current_song_index, 0);
    assert_eq!(player.get_current_song(), Some(songs(3)[0].clone()));
    player.song_started(1);
    assert_eq!(player.playback_manager.current_song_index, 1);
    assert_eq!(player.get_current_song(), Some(songs(3)[1].clone()));
    assert_eq!(player.handle_event(PlayerEvent::Previous), SinkOrder::Load(0));
    assert_eq!(player.playback_manager.current_song_index, 1);
    player.song_started(9);
    assert_eq!(player.playback_manager.current_song_index, 1);
    player.song_started(2);
    assert_eq!(player.handle_event(PlayerEvent::Next), SinkOrder::Stop);
    assert_eq!(player.get_current_song(), None);
    assert!(!player.playback_manager.is_playing);
    assert_eq!(player.playback_manager.current_song_index, 2);
    assert_eq!(player.handle_event(PlayerEvent::Seek(4)), SinkOrder::Nothing);
}

#[test]
fn failed_loads_move_on_and_give_up_in_the_end() {
    let mut player = GaplessPlayer::new();
    player.handle_event(PlayerEvent::LoadPlaylist(songs(3)));
    player.handle_event(PlayerEvent::CycleRepeat);
    player.handle_event(PlayerEvent::CycleRepeat);
    assert_eq!(player.playback_manager.repeat_mode, RepeatMode::Playlist);
    assert_eq!(player.song_failed(0), SinkOrder::Load(1));
    assert_eq!(player.failed_loads, 1);
    assert_eq!(player.playback_manager.current_song_index, 0);
    assert_eq!(player.song_failed(1), SinkOrder::Load(2));
    assert_eq!(player.song_failed(2), SinkOrder::Stop);
    assert_eq!(player.failed_loads, 0);
    assert!(!player.playback_manager.is_playing);

    assert_eq!(player.song_failed(2), SinkOrder::Load(0));
    player.song_started(0);
    assert_eq!(player.failed_loads, 0);
    assert_eq!(player.song_failed(1), SinkOrder::Load(2));
    assert_eq!(player.playback_manager.current_song_index, 0);

    let mut player = GaplessPlayer::new();
    player.handle_event(PlayerEvent::LoadPlaylist(songs(3)));
    assert_eq!(player.song_failed(2), SinkOrder::Stop);
    let mut player = GaplessPlayer::new();
    assert_eq!(player.song_failed(0), SinkOrder::Stop);
}

#[test]
fn the_end_of_a_song_moves_on_only_while_playing() {
    let mut player = GaplessPlayer::new();
    player.handle_event(PlayerEvent::LoadPlaylist(songs(2)));
    assert_eq!(player.sink_finished(), SinkOrder::Nothing);
    player.song_started(0);
    assert_eq!(player.sink_finished(), SinkOrder::Load(1));
    player.song_started(1);
    assert_eq!(player.sink_finished(), SinkOrder::Stop);
    assert_eq!(player.sink_finished(), SinkOrder::Nothing);
    let mut empty = GaplessPlayer::new();
    assert_eq!(empty.handle_event(PlayerEvent::LoadPlaylist(Vec::new())), SinkOrder::Nothing);
    assert_eq!(empty.handle_event(PlayerEvent::Next), SinkOrder::Stop);
    assert_eq!(empty.handle_event(PlayerEvent::Previous), SinkOrder::Nothing);
}

#[test]
fn shuffle_is_toggled_for_the_loaded_playlist() {
    let mut player = GaplessPlayer::new();
    player.handle_event(PlayerEvent::LoadPlaylist(songs(4)));
    player.song_started(2);
    assert_eq!(player.handle_event(PlayerEvent::ToggleShuffle), SinkOrder::Nothing);
    assert!(player.playback_manager.shuffle);
    let mut queue: Vec<usize> = player.playback_manager.shuffle_queue.iter().copied().collect();
    queue.sort();
    assert_eq!(queue, vec![0, 1, 3]);
    let order = player.handle_event(PlayerEvent::Next);
    assert!(matches!(order, SinkOrder::Load(p) if p != 2 && p < 4));
    player.handle_event(PlayerEvent::ToggleShuffle);
    assert!(!player.playback_manager.shuffle);
    assert!(player.playback_manager.shuffle_queue.is_empty());
}

#[test]
fn a_player_that_was_shut_down_takes_no_events() {
    let mut player = GaplessPlayer::new();
    player.next().unwrap();
    player.previous().unwrap();
    player.toggle_shuffle().unwrap();
    player.shut_down();
    assert_eq!(
        player.send_event(PlayerEvent::Play),
        Err(LofiTurtleError::AudioPlayback(
            "Failed to send player event: channel closed".to_string()
        ))
    );
    assert!(player.stop().is_err());
    assert_eq!(player.events.len(), 3);
    assert_eq!(player.next_order(), None);
    assert_eq!(player.events.len(), 3);
}

#[test]
fn engine_ends_a_song_to_the_nanosecond() {
    let mut engine = PlaybackEngine::new();
    engine.play(create_test_song()).unwrap();
    engine.set_duration(Span { seconds: 1, nanoseconds: 900_000_000 });
    engine.update_position(Span { seconds: 1, nanoseconds: 500_000_000 });
    assert!(!engine.is_ended());
    engine.update_position(Span { seconds: 1, nanoseconds: 899_999_999 });
    assert!(!engine.is_ended());
    engine.update_position(Span { seconds: 1, nanoseconds: 900_000_000 });
    assert!(engine.is_ended());
    engine.update_position(Span { seconds: 2, nanoseconds: 0 });
    assert!(engine.is_ended());
    assert_eq!(engine.get_duration(), Some(Span { seconds: 1, nanoseconds: 900_000_000 }));
    let beyond = Span { seconds: u64::MAX - 1, nanoseconds: u32::MAX };
    assert!(!Span::from_secs(u64::MAX).reaches(&beyond));
    assert!(beyond.reaches(&Span::from_secs(u64::MAX)));
}
