//! The playlist player: events queue up in order, the control thread takes
//! them one by one, asks the sequencer where playback goes, and names what
//! is to be done with the audio sink. A position becomes the current one
//! only once its song has started.

use crate::error::LofiTurtleError;
use crate::models::playback::{PlaybackState, RepeatMode};
use crate::models::song::Song;
use std::collections::VecDeque;
use vstd::prelude::*;

verus! {

/// An event for the control thread. The level of `SetVolume` is a
/// fractional number and travels beside the event.
#[derive(Debug, Clone, PartialEq)]
pub enum PlayerEvent {
    Play,
    Pause,
    Stop,
    Next,
    Previous,
    /// Seek to a position in seconds.
    Seek(u64),
    SetVolume,
    LoadPlaylist(Vec<Song>),
    ToggleShuffle,
    CycleRepeat,
}

/// What the owner of the audio sink does in answer to an event.
#[derive(Debug, Clone, Copy, PartialEq, Eq, Structural)]
pub enum SinkOrder {
    Nothing,
    Play,
    Pause,
    Stop,
    /// Stop what plays, load the song at this playlist position and start
    /// it, then report whether it started. A position outside the playlist
    /// counts as a song that could not be loaded.
    Load(usize),
    /// Apply the level that came with the event.
    ApplyVolume,
}

/// What the user interface sees of the player.
#[derive(Debug, Clone, PartialEq)]
pub struct PlayerStatus {
    pub current_song: Option<Song>,
    /// Position in seconds.
    pub position: u64,
    /// Duration of the current song in seconds.
    pub duration: u64,
    pub is_playing: bool,
    pub is_paused: bool,
    pub playback_state: PlaybackState,
}

/// The playlist player.
#[derive(Debug, Clone, PartialEq)]
pub struct GaplessPlayer {
    /// Events that were sent and not yet handled, oldest first.
    pub events: VecDeque<PlayerEvent>,
    pub current_song: Option<Song>,
    pub playlist: Vec<Song>,
    pub playback_manager: PlaybackState,
    /// Songs in a row that could not be loaded.
    pub failed_loads: usize,
    /// Whether the control thread still takes events.
    pub is_running: bool,
}

fn copy_of_song(song: &Option<Song>) -> (copy: Option<Song>)
    ensures
        copy == *song,
{
    match song {
        Some(s) => Some(s.clone()),
        None => None,
    }
}

impl GaplessPlayer {
    /// The number of songs in the playlist.
    pub open spec fn size(self) -> usize {
        self.playlist@.len() as usize
    }

    /// The player with nothing playing and no current song.
    pub open spec fn halted(self) -> Self {
        GaplessPlayer {
            playback_manager: self.playback_manager.halted(),
            current_song: None,
            ..self
        }
    }

    /// `self` is `before` with another playback manager and nothing else
    /// changed.
    pub open spec fn differs_in_manager_only(self, before: Self) -> bool {
        self == (GaplessPlayer { playback_manager: self.playback_manager, ..before })
    }

    /// `self` and `order` are `before` and the order given after the
    /// sequencer was asked for the next position: either that position is to
    /// be loaded, or the sequencer has none and playback stops.
    pub open spec fn moved_on_from(self, before: Self, order: SinkOrder) -> bool {
        match order {
            SinkOrder::Load(position) => {
                &&& self.differs_in_manager_only(before)
                &&& self.playback_manager.advanced_from(
                    before.playback_manager,
                    before.size(),
                    Some(position),
                )
            },
            SinkOrder::Stop => {
                &&& before.playback_manager.advanced_from(
                    before.playback_manager,
                    before.size(),
                    None,
                )
                &&& self == before.halted()
            },
            _ => false,
        }
    }

    /// `self` and `order` are `before` and the order given once `event` was
    /// handled.
    pub open spec fn handled_from(self, before: Self, event: PlayerEvent, order: SinkOrder) -> bool {
        match event {
            PlayerEvent::Play => {
                &&& order == SinkOrder::Play
                &&& self == (GaplessPlayer {
                    playback_manager: PlaybackState {
                        is_playing: true,
                        is_paused: false,
                        ..before.playback_manager
                    },
                    ..before
                })
            },
            PlayerEvent::Pause => {
                &&& order == SinkOrder::Pause
                &&& self == (GaplessPlayer {
                    playback_manager: PlaybackState {
                        is_playing: false,
                        is_paused: true,
                        ..before.playback_manager
                    },
                    ..before
                })
            },
            PlayerEvent::Stop => order == SinkOrder::Stop && self == before.halted(),
            PlayerEvent::Next => self.moved_on_from(before, order),
            PlayerEvent::Previous => {
                &&& self == before
                &&& order == match before.playback_manager.previous_position(before.size()) {
                    Some(position) => SinkOrder::Load(position),
                    None => SinkOrder::Nothing,
                }
            },
            PlayerEvent::Seek(_) => order == SinkOrder::Nothing && self == before,
            PlayerEvent::SetVolume => order == SinkOrder::ApplyVolume && self == before,
            PlayerEvent::LoadPlaylist(songs) => {
                &&& self == (GaplessPlayer { playlist: songs, ..before })
                &&& order == if songs@.len() > 0 {
                    SinkOrder::Load(0)
                } else {
                    SinkOrder::Nothing
                }
            },
            PlayerEvent::ToggleShuffle => {
                &&& order == SinkOrder::Nothing
                &&& self.differs_in_manager_only(before)
                &&& self.playback_manager.shuffle == !before.playback_manager.shuffle
                &&& self.playback_manager.shuffle ==> self.playback_manager.shuffle_enabled_from(
                    PlaybackState { shuffle: true, ..before.playback_manager },
                    before.size(),
                )
                &&& !self.playback_manager.shuffle ==> {
                    &&& self.playback_manager.same_controls(
                        PlaybackState { shuffle: false, ..before.playback_manager },
                    )
                    &&& self.playback_manager.shuffle_queue@.len() == 0
                    &&& self.playback_manager.original_order@.len() == 0
                }
            },
            PlayerEvent::CycleRepeat => {
                &&& order == SinkOrder::Nothing
                &&& self == (GaplessPlayer {
                    playback_manager: PlaybackState {
                        repeat_mode: match before.playback_manager.repeat_mode {
                            RepeatMode::Off => RepeatMode::Single,
                            RepeatMode::Single => RepeatMode::Playlist,
                            RepeatMode::Playlist => RepeatMode::Off,
                        },
                        ..before.playback_manager
                    },
                    ..before
                })
            },
        }
    }

    /// The player once the song at `position` has started: that position
    /// and song are the current ones, playback runs, and no failed load is
    /// on record. A position outside the playlist changes nothing.
    pub open spec fn after_start(self, position: usize) -> Self {
        if position < self.playlist@.len() {
            GaplessPlayer {
                current_song: Some(self.playlist@[position as int]),
                playback_manager: PlaybackState {
                    current_song_index: position,
                    is_playing: true,
                    is_paused: false,
                    ..self.playback_manager
                },
                failed_loads: 0,
                ..self
            }
        } else {
            self
        }
    }

    /// `self` and `order` are `before` and the order given after the song at
    /// `position` could not be loaded. The current position stays what it
    /// was. Once as many loads in a row have failed as the playlist has
    /// songs, playback stops; before that, the sequencer is asked for the
    /// position after the one that failed.
    pub open spec fn gave_up_or_moved_past(self, before: Self, position: usize, order: SinkOrder) -> bool {
        if before.failed_loads + 1 >= before.playlist@.len() {
            order == SinkOrder::Stop && self == (GaplessPlayer {
                failed_loads: 0,
                ..before.halted()
            })
        } else {
            let asked = GaplessPlayer {
                playback_manager: PlaybackState {
                    current_song_index: position,
                    ..before.playback_manager
                },
                failed_loads: (before.failed_loads + 1) as usize,
                ..before
            };
            let answered = GaplessPlayer {
                playback_manager: PlaybackState {
                    current_song_index: position,
                    ..self.playback_manager
                },
                ..self
            };
            &&& self.playback_manager.current_song_index
                == before.playback_manager.current_song_index
            &&& answered.moved_on_from(asked, order)
        }
    }

    /// A player with no playlist, no pending events and a thread that waits
    /// for its first event.
    pub fn new() -> (player: Self)
        ensures
            player.events@.len() == 0,
            player.current_song is None,
            player.playlist@.len() == 0,
            player.playback_manager.is_initial(),
            player.failed_loads == 0,
            player.is_running,
    {
        GaplessPlayer {
            events: VecDeque::new(),
            current_song: None,
            playlist: Vec::new(),
            playback_manager: PlaybackState::new(),
            failed_loads: 0,
            is_running: true,
        }
    }

    /// Puts `event` at the end of the queue. Fails, and queues nothing,
    /// once the control thread has ended.
    pub fn send_event(&mut self, event: PlayerEvent) -> (sent: Result<(), LofiTurtleError>)
        ensures
            old(self).is_running ==> sent is Ok && final(self).events@ == old(self).events@.push(
                event,
            ),
            !old(self).is_running ==> final(self).events@ == old(self).events@ && (
            sent matches Err(LofiTurtleError::AudioPlayback(reason)) && reason@
                == "Failed to send player event: channel closed"@),
            final(self).current_song == old(self).current_song,
            final(self).playlist == old(self).playlist,
            final(self).playback_manager == old(self).playback_manager,
            final(self).failed_loads == old(self).failed_loads,
            final(self).is_running == old(self).is_running,
    {
        if self.is_running {
            self.events.push_back(event);
            Ok(())
        } else {
            Err(
                LofiTurtleError::AudioPlayback(
                    "Failed to send player event: channel closed".to_string(),
                ),
            )
        }
    }

    /// Ends the control thread: events sent from now on are refused.
    pub fn shut_down(&mut self)
        ensures
            *final(self) == (GaplessPlayer { is_running: false, ..*old(self) }),
    {
        self.is_running = false;
    }

    fn halt(&mut self)
        ensures
            *final(self) == old(self).halted(),
    {
        self.playback_manager.stop();
        self.current_song = None;
    }

    fn move_on(&mut self) -> (order: SinkOrder)
        ensures
            final(self).moved_on_from(*old(self), order),
    {
        let size = self.playlist.len();
        match self.playback_manager.next_song_index(size) {
            Some(position) => SinkOrder::Load(position),
            None => {
                self.halt();
                SinkOrder::Stop
            },
        }
    }

    /// Handles one event and says what is to be done with the sink.
    pub fn handle_event(&mut self, event: PlayerEvent) -> (order: SinkOrder)
        ensures
            final(self).handled_from(*old(self), event, order),
    {
        match event {
            PlayerEvent::Play => {
                self.playback_manager.play();
                SinkOrder::Play
            },
            PlayerEvent::Pause => {
                self.playback_manager.pause();
                SinkOrder::Pause
            },
            PlayerEvent::Stop => {
                self.halt();
                SinkOrder::Stop
            },
            PlayerEvent::Next => self.move_on(),
            PlayerEvent::Previous => {
                let size = self.playlist.len();
                match self.playback_manager.previous_song_index(size) {
                    Some(position) => SinkOrder::Load(position),
                    None => SinkOrder::Nothing,
                }
            },
            PlayerEvent::Seek(_) => SinkOrder::Nothing,
            PlayerEvent::SetVolume => SinkOrder::ApplyVolume,
            PlayerEvent::LoadPlaylist(songs) => {
                let order = if songs.len() > 0 {
                    SinkOrder::Load(0)
                } else {
                    SinkOrder::Nothing
                };
                self.playlist = songs;
                order
            },
            PlayerEvent::ToggleShuffle => {
                let size = self.playlist.len();
                self.playback_manager.toggle_shuffle(size);
                SinkOrder::Nothing
            },
            PlayerEvent::CycleRepeat => {
                self.playback_manager.cycle_repeat_mode();
                SinkOrder::Nothing
            },
        }
    }

    /// Takes the oldest pending event, if there is one and the thread still
    /// runs, and says what is to be done with the sink.
    pub fn next_order(&mut self) -> (order: Option<SinkOrder>)
        ensures
            !old(self).is_running || old(self).events@.len() == 0 ==> {
                &&& order is None
                &&& final(self).events@ == old(self).events@
                &&& *final(self) == (GaplessPlayer { events: final(self).events, ..*old(self) })
            },
            old(self).is_running && old(self).events@.len() > 0 ==> {
                &&& order is Some
                &&& final(self).events@ == old(self).events@.skip(1)
                &&& final(self).handled_from(
                    GaplessPlayer { events: final(self).events, ..*old(self) },
                    old(self).events@[0],
                    order->0,
                )
            },
    {
        if !self.is_running {
            return None;
        }
        match self.events.pop_front() {
            None => None,
            Some(event) => Some(self.handle_event(event)),
        }
    }

    /// Records that the song at `position` has started.
    pub fn song_started(&mut self, position: usize)
        ensures
            *final(self) == old(self).after_start(position),
    {
        if position < self.playlist.len() {
            self.current_song = Some(self.playlist[position].clone());
            self.playback_manager.current_song_index = position;
            self.playback_manager.play();
            self.failed_loads = 0;
        }
    }

    /// Records that the song at `position` could not be loaded and says
    /// what to try instead.
    pub fn song_failed(&mut self, position: usize) -> (order: SinkOrder)
        ensures
            final(self).gave_up_or_moved_past(*old(self), position, order),
    {
        if self.failed_loads >= self.playlist.len() || self.failed_loads + 1
            >= self.playlist.len() {
            self.halt();
            self.failed_loads = 0;
            SinkOrder::Stop
        } else {
            self.failed_loads = self.failed_loads + 1;
            let current = self.playback_manager.current_song_index;
            self.playback_manager.current_song_index = position;
            let order = self.move_on();
            self.playback_manager.current_song_index = current;
            order
        }
    }

    /// The sink has played its song to the end: while playback runs, this
    /// is handled like `Next`; otherwise nothing happens.
    pub fn sink_finished(&mut self) -> (order: SinkOrder)
        ensures
            old(self).playback_manager.is_playing ==> final(self).moved_on_from(
                *old(self),
                order,
            ),
            !old(self).playback_manager.is_playing ==> order == SinkOrder::Nothing && *final(self)
                == *old(self),
    {
        if self.playback_manager.is_playing {
            self.move_on()
        } else {
            SinkOrder::Nothing
        }
    }

    /// What the user interface is shown, where `sink_paused` says whether
    /// the sink itself is paused.
    pub fn get_current_status(&self, sink_paused: bool) -> (status: PlayerStatus)
        ensures
            status.current_song == self.current_song,
            status.position == 0,
            status.duration == match self.current_song {
                Some(song) => song.duration,
                None => 0,
            },
            status.is_playing == (self.playback_manager.is_playing && !sink_paused),
            status.is_paused == self.playback_manager.is_paused,
            status.playback_state.same_controls(self.playback_manager),
            status.playback_state.shuffle_queue@ == self.playback_manager.shuffle_queue@,
            status.playback_state.original_order@ == self.playback_manager.original_order@,
    {
        PlayerStatus {
            current_song: copy_of_song(&self.current_song),
            position: 0,
            duration: match &self.current_song {
                Some(song) => song.duration,
                None => 0,
            },
            is_playing: self.playback_manager.is_playing && !sink_paused,
            is_paused: self.playback_manager.is_paused,
            playback_state: self.playback_manager.clone(),
        }
    }

    /// A copy of the sequencer's state.
    pub fn get_playback_state(&self) -> (state: PlaybackState)
        ensures
            state.same_controls(self.playback_manager),
            state.shuffle_queue@ == self.playback_manager.shuffle_queue@,
            state.original_order@ == self.playback_manager.original_order@,
    {
        self.playback_manager.clone()
    }

    /// The current song.
    pub fn get_current_song(&self) -> (song: Option<Song>)
        ensures
            song == self.current_song,
    {
        copy_of_song(&self.current_song)
    }

    /// The songs of the playlist, in order.
    pub fn get_playlist(&self) -> (songs: Vec<Song>)
        ensures
            songs@ == self.playlist@,
    {
        let mut songs: Vec<Song> = Vec::new();
        let mut i: usize = 0;
        while i < self.playlist.len()
            invariant
                i <= self.playlist.len(),
                songs@ == self.playlist@.take(i as int),
            decreases self.playlist.len() - i,
        {
            songs.push(self.playlist[i].clone());
            i += 1;
            assert(songs@ =~= self.playlist@.take(i as int));
        }
        assert(self.playlist@.take(self.playlist.len() as int) =~= self.playlist@);
        songs
    }

    /// Queues a playlist to be loaded and started.
    pub fn load_playlist(&mut self, songs: Vec<Song>) -> (sent: Result<(), LofiTurtleError>)
        ensures
            old(self).is_running ==> sent is Ok && final(self).events@ == old(self).events@.push(
                PlayerEvent::LoadPlaylist(songs),
            ),
            !old(self).is_running ==> sent is Err && final(self).events@ == old(self).events@,
    {
        self.send_event(PlayerEvent::LoadPlaylist(songs))
    }

    /// Queues `Play`.
    pub fn play(&mut self) -> (sent: Result<(), LofiTurtleError>)
        ensures
            old(self).is_running ==> sent is Ok && final(self).events@ == old(self).events@.push(
                PlayerEvent::Play,
            ),
            !old(self).is_running ==> sent is Err && final(self).events@ == old(self).events@,
    {
        self.send_event(PlayerEvent::Play)
    }

    /// Queues `Pause`.
    pub fn pause(&mut self) -> (sent: Result<(), LofiTurtleError>)
        ensures
            old(self).is_running ==> sent is Ok && final(self).events@ == old(self).events@.push(
                PlayerEvent::Pause,
            ),
            !old(self).is_running ==> sent is Err && final(self).events@ == old(self).events@,
    {
        self.send_event(PlayerEvent::Pause)
    }

    /// Queues `Stop`.
    pub fn stop(&mut self) -> (sent: Result<(), LofiTurtleError>)
        ensures
            old(self).is_running ==> sent is Ok && final(self).events@ == old(self).events@.push(
                PlayerEvent::Stop,
            ),
            !old(self).is_running ==> sent is Err && final(self).events@ == old(self).events@,
    {
        self.send_event(PlayerEvent::Stop)
    }

    /// Queues `Next`.
    pub fn next(&mut self) -> (sent: Result<(), LofiTurtleError>)
        ensures
            old(self).is_running ==> sent is Ok && final(self).events@ == old(self).events@.push(
                PlayerEvent::Next,
            ),
            !old(self).is_running ==> sent is Err && final(self).events@ == old(self).events@,
    {
        self.send_event(PlayerEvent::Next)
    }

    /// Queues `Previous`.
    pub fn previous(&mut self) -> (sent: Result<(), LofiTurtleError>)
        ensures
            old(self).is_running ==> sent is Ok && final(self).events@ == old(self).events@.push(
                PlayerEvent::Previous,
            ),
            !old(self).is_running ==> sent is Err && final(self).events@ == old(self).events@,
    {
        self.send_event(PlayerEvent::Previous)
    }

    /// Queues `SetVolume`.
    pub fn set_volume(&mut self) -> (sent: Result<(), LofiTurtleError>)
        ensures
            old(self).is_running ==> sent is Ok && final(self).events@ == old(self).events@.push(
                PlayerEvent::SetVolume,
            ),
            !old(self).is_running ==> sent is Err && final(self).events@ == old(self).events@,
    {
        self.send_event(PlayerEvent::SetVolume)
    }

    /// Queues `ToggleShuffle`.
    pub fn toggle_shuffle(&mut self) -> (sent: Result<(), LofiTurtleError>)
        ensures
            old(self).is_running ==> sent is Ok && final(self).events@ == old(self).events@.push(
                PlayerEvent::ToggleShuffle,
            ),
            !old(self).is_running ==> sent is Err && final(self).events@ == old(self).events@,
    {
        self.send_event(PlayerEvent::ToggleShuffle)
    }

    /// Queues `CycleRepeat`.
    pub fn cycle_repeat(&mut self) -> (sent: Result<(), LofiTurtleError>)
        ensures
            old(self).is_running ==> sent is Ok && final(self).events@ == old(self).events@.push(
                PlayerEvent::CycleRepeat,
            ),
            !old(self).is_running ==> sent is Err && final(self).events@ == old(self).events@,
    {
        self.send_event(PlayerEvent::CycleRepeat)
    }
}

} // verus!
