//! The single-song player: commands queue up in order, the control thread
//! takes them one by one, and each answer names what is to be done with the
//! audio sink.

use crate::error::LofiTurtleError;
use crate::models::playback::RepeatMode;
use std::collections::VecDeque;
use vstd::prelude::*;

verus! {

/// A command for the control thread. The level of `SetVolume` is a
/// fractional number and travels beside the command.
#[derive(Debug, Clone, PartialEq)]
pub enum PlayerCommand {
    /// Play the song at the given path.
    Play(String),
    Pause,
    Resume,
    Stop,
    /// Seek to a position in seconds.
    Seek(u64),
    SetVolume,
    SetShuffle(bool),
    SetRepeat(RepeatMode),
    Quit,
}

#[derive(Debug, Clone, Copy, PartialEq, Eq, Structural)]
pub enum PlayerState {
    Stopped,
    Playing,
    Paused,
}

/// What the user interface sees of the player.
#[derive(Debug, PartialEq)]
pub struct PlaybackStatus {
    pub state: PlayerState,
    /// Current position in seconds.
    pub current_position: u64,
    /// Total duration in seconds.
    pub total_duration: u64,
    /// Path of the current song.
    pub current_song: Option<String>,
}

impl Default for PlaybackStatus {
    fn default() -> (status: Self)
        ensures
            status == PlaybackStatus::idle(),
    {
        PlaybackStatus {
            state: PlayerState::Stopped,
            current_position: 0,
            total_duration: 0,
            current_song: None,
        }
    }
}

impl PlaybackStatus {
    /// The status of a player that has not played anything yet.
    pub open spec fn idle() -> PlaybackStatus {
        PlaybackStatus {
            state: PlayerState::Stopped,
            current_position: 0,
            total_duration: 0,
            current_song: None,
        }
    }
}

/// What the owner of the audio sink does in answer to a command.
#[derive(Debug, Clone, PartialEq)]
pub enum SinkAction {
    Nothing,
    /// Drop the sink in use, then load the song at the path into a new one
    /// and report how that went.
    Load(String),
    Pause,
    Resume,
    /// Stop and drop the sink in use.
    Stop,
    /// Apply the level that came with the command.
    ApplyVolume,
    /// End the control thread.
    Quit,
}

/// `a + b`, or the largest value where that does not fit.
pub open spec fn capped_sum(a: u64, b: u64) -> u64 {
    if a + b > u64::MAX {
        u64::MAX
    } else {
        (a + b) as u64
    }
}

/// The smaller of `a` and `b`.
pub open spec fn smaller(a: u64, b: u64) -> u64 {
    if a <= b {
        a
    } else {
        b
    }
}

/// The control thread's own state: the published status, whether a sink
/// holds a song, whether the play timer runs, and the seconds played before
/// the last pause.
#[derive(Debug, Clone, PartialEq)]
pub struct AudioThread {
    pub status: PlaybackStatus,
    pub has_sink: bool,
    pub timer_running: bool,
    pub paused_position: u64,
}

impl AudioThread {
    /// The thread before its first command.
    pub open spec fn initial() -> AudioThread {
        AudioThread {
            status: PlaybackStatus::idle(),
            has_sink: false,
            timer_running: false,
            paused_position: 0,
        }
    }

    /// The state in which nothing plays and no song is current.
    pub open spec fn stopped(self) -> AudioThread {
        AudioThread {
            status: PlaybackStatus {
                state: PlayerState::Stopped,
                current_position: 0,
                current_song: None,
                ..self.status
            },
            has_sink: false,
            timer_running: false,
            paused_position: 0,
        }
    }

    /// The state after `command`, where `elapsed` seconds have passed since
    /// the play timer was last started.
    pub open spec fn after_command(self, command: PlayerCommand, elapsed: u64) -> AudioThread {
        match command {
            PlayerCommand::Play(_) => AudioThread { has_sink: false, ..self },
            PlayerCommand::Pause => if self.has_sink {
                AudioThread {
                    status: PlaybackStatus { state: PlayerState::Paused, ..self.status },
                    timer_running: false,
                    paused_position: if self.timer_running {
                        capped_sum(self.paused_position, elapsed)
                    } else {
                        self.paused_position
                    },
                    ..self
                }
            } else {
                self
            },
            PlayerCommand::Resume => if self.has_sink {
                AudioThread {
                    status: PlaybackStatus { state: PlayerState::Playing, ..self.status },
                    timer_running: true,
                    ..self
                }
            } else {
                self
            },
            PlayerCommand::Stop => self.stopped(),
            _ => self,
        }
    }

    /// What is to be done with the sink in answer to `command`.
    pub open spec fn action_for(self, command: PlayerCommand) -> SinkAction {
        match command {
            PlayerCommand::Play(path) => SinkAction::Load(path),
            PlayerCommand::Pause => if self.has_sink {
                SinkAction::Pause
            } else {
                SinkAction::Nothing
            },
            PlayerCommand::Resume => if self.has_sink {
                SinkAction::Resume
            } else {
                SinkAction::Nothing
            },
            PlayerCommand::Stop => if self.has_sink {
                SinkAction::Stop
            } else {
                SinkAction::Nothing
            },
            PlayerCommand::SetVolume => SinkAction::ApplyVolume,
            PlayerCommand::Quit => SinkAction::Quit,
            _ => SinkAction::Nothing,
        }
    }

    /// The state after the song at `path` was loaded, with its duration in
    /// seconds, or could not be loaded.
    pub open spec fn after_load(self, path: String, loaded: Option<u64>) -> AudioThread {
        match loaded {
            Some(duration) => AudioThread {
                status: PlaybackStatus {
                    state: PlayerState::Playing,
                    current_position: 0,
                    total_duration: duration,
                    current_song: Some(path),
                },
                has_sink: true,
                timer_running: true,
                paused_position: 0,
            },
            None => AudioThread {
                status: PlaybackStatus { state: PlayerState::Stopped, ..self.status },
                ..self
            },
        }
    }

    /// The state after the end-of-tick check, where the sink reports
    /// whether it has run empty and `elapsed` seconds have passed since the
    /// play timer was last started.
    pub open spec fn after_tick(self, sink_empty: bool, elapsed: u64) -> AudioThread {
        if !self.has_sink {
            self
        } else if sink_empty {
            self.stopped()
        } else if self.timer_running {
            AudioThread {
                status: PlaybackStatus {
                    current_position: smaller(
                        capped_sum(self.paused_position, elapsed),
                        self.status.total_duration,
                    ),
                    ..self.status
                },
                ..self
            }
        } else {
            self
        }
    }

    /// The thread before its first command.
    pub fn new() -> (thread: Self)
        ensures
            thread == AudioThread::initial(),
    {
        AudioThread {
            status: PlaybackStatus::default(),
            has_sink: false,
            timer_running: false,
            paused_position: 0,
        }
    }

    fn stop(&mut self)
        ensures
            *final(self) == old(self).stopped(),
    {
        self.has_sink = false;
        self.timer_running = false;
        self.paused_position = 0;
        self.status.state = PlayerState::Stopped;
        self.status.current_position = 0;
        self.status.current_song = None;
    }

    /// Takes one command and says what is to be done with the sink.
    pub fn handle_command(&mut self, command: PlayerCommand, elapsed: u64) -> (action: SinkAction)
        ensures
            *final(self) == old(self).after_command(command, elapsed),
            action == old(self).action_for(command),
    {
        match command {
            PlayerCommand::Play(path) => {
                self.has_sink = false;
                SinkAction::Load(path)
            },
            PlayerCommand::Pause => {
                if self.has_sink {
                    if self.timer_running {
                        self.paused_position = self.paused_position.saturating_add(elapsed);
                    }
                    self.timer_running = false;
                    self.status.state = PlayerState::Paused;
                    SinkAction::Pause
                } else {
                    SinkAction::Nothing
                }
            },
            PlayerCommand::Resume => {
                if self.has_sink {
                    self.timer_running = true;
                    self.status.state = PlayerState::Playing;
                    SinkAction::Resume
                } else {
                    SinkAction::Nothing
                }
            },
            PlayerCommand::Stop => {
                let action = if self.has_sink {
                    SinkAction::Stop
                } else {
                    SinkAction::Nothing
                };
                self.stop();
                action
            },
            PlayerCommand::SetVolume => SinkAction::ApplyVolume,
            PlayerCommand::Quit => SinkAction::Quit,
            PlayerCommand::Seek(_) => SinkAction::Nothing,
            PlayerCommand::SetShuffle(_) => SinkAction::Nothing,
            PlayerCommand::SetRepeat(_) => SinkAction::Nothing,
        }
    }

    /// Records how loading the song at `path` went: `Some` with the song's
    /// duration in seconds once it plays, `None` where it could not be
    /// loaded.
    pub fn finish_load(&mut self, path: String, loaded: Option<u64>)
        ensures
            *final(self) == old(self).after_load(path, loaded),
    {
        match loaded {
            Some(duration) => {
                self.has_sink = true;
                self.timer_running = true;
                self.paused_position = 0;
                self.status.state = PlayerState::Playing;
                self.status.current_song = Some(path);
                self.status.total_duration = duration;
                self.status.current_position = 0;
            },
            None => {
                self.status.state = PlayerState::Stopped;
            },
        }
    }

    /// The end-of-tick check: a sink that has run empty ends the song, a
    /// running timer moves the position on, never past the song's duration.
    pub fn tick(&mut self, sink_empty: bool, elapsed: u64)
        ensures
            *final(self) == old(self).after_tick(sink_empty, elapsed),
    {
        if self.has_sink {
            if sink_empty {
                self.stop();
            } else if self.timer_running {
                let position = self.paused_position.saturating_add(elapsed);
                self.status.current_position = if position <= self.status.total_duration {
                    position
                } else {
                    self.status.total_duration
                };
            }
        }
    }
}

/// The player as the user interface holds it: commands go into a queue in
/// the order they are sent, and the control thread takes them out of it in
/// that order.
#[derive(Debug, Clone, PartialEq)]
pub struct AudioPlayer {
    pub pending: VecDeque<PlayerCommand>,
    pub thread: AudioThread,
    /// Whether the control thread still takes commands.
    pub running: bool,
}

impl AudioPlayer {
    /// A player with an empty queue and a control thread that waits for its
    /// first command.
    pub fn new() -> (player: Self)
        ensures
            player.pending@.len() == 0,
            player.thread == AudioThread::initial(),
            player.running,
    {
        AudioPlayer { pending: VecDeque::new(), thread: AudioThread::new(), running: true }
    }

    /// Puts `command` at the end of the queue. Fails, and queues nothing,
    /// once the control thread has ended.
    pub fn send_command(&mut self, command: PlayerCommand) -> (sent: Result<(), LofiTurtleError>)
        ensures
            final(self).thread == old(self).thread,
            final(self).running == old(self).running,
            old(self).running ==> sent is Ok && final(self).pending@ == old(self).pending@.push(
                command,
            ),
            !old(self).running ==> final(self).pending@ == old(self).pending@ && (
            sent matches Err(LofiTurtleError::ChannelError(reason)) && reason@
                == "Failed to send command to audio thread: sending on a closed channel"@),
    {
        if self.running {
            self.pending.push_back(command);
            Ok(())
        } else {
            Err(
                LofiTurtleError::ChannelError(
                    "Failed to send command to audio thread: sending on a closed channel".to_string(),
                ),
            )
        }
    }

    /// The status as the control thread last published it.
    pub fn get_status(&self) -> (status: PlaybackStatus)
        ensures
            status == self.thread.status,
    {
        self.thread.status.clone()
    }

    /// Takes the oldest queued command, if there is one and the thread
    /// still runs, and says what is to be done with the sink. `Quit` ends
    /// the thread, and that is meant: the command is there to do so. What
    /// is queued behind it is never handled, and later commands are refused.
    pub fn next_action(&mut self, elapsed: u64) -> (action: Option<SinkAction>)
        ensures
            !old(self).running || old(self).pending@.len() == 0 ==> {
                &&& action is None
                &&& final(self).thread == old(self).thread
                &&& final(self).pending@ == old(self).pending@
                &&& final(self).running == old(self).running
            },
            old(self).running && old(self).pending@.len() > 0 ==> {
                let command = old(self).pending@[0];
                &&& action == Some(old(self).thread.action_for(command))
                &&& final(self).thread == old(self).thread.after_command(command, elapsed)
                &&& final(self).pending@ == old(self).pending@.skip(1)
                &&& final(self).running == !(command is Quit)
            },
    {
        if !self.running {
            return None;
        }
        match self.pending.pop_front() {
            None => None,
            Some(command) => {
                if let PlayerCommand::Quit = command {
                    self.running = false;
                }
                Some(self.thread.handle_command(command, elapsed))
            },
        }
    }

    /// Records how loading the song at `path` went.
    pub fn finish_load(&mut self, path: String, loaded: Option<u64>)
        ensures
            final(self).thread == old(self).thread.after_load(path, loaded),
            final(self).pending == old(self).pending,
            final(self).running == old(self).running,
    {
        self.thread.finish_load(path, loaded);
    }

    /// The end-of-tick check. Commands come first: while any is queued for
    /// a running thread, the check does nothing.
    pub fn finish_tick(&mut self, sink_empty: bool, elapsed: u64) -> (checked: bool)
        ensures
            checked == !(old(self).running && old(self).pending@.len() > 0),
            final(self).pending == old(self).pending,
            final(self).running == old(self).running,
            final(self).thread == if checked {
                old(self).thread.after_tick(sink_empty, elapsed)
            } else {
                old(self).thread
            },
    {
        if self.running && self.pending.len() > 0 {
            false
        } else {
            self.thread.tick(sink_empty, elapsed);
            true
        }
    }
}

impl Clone for PlaybackStatus {
    fn clone(&self) -> (copy: Self)
        ensures
            copy == *self,
    {
        PlaybackStatus {
            state: self.state,
            current_position: self.current_position,
            total_duration: self.total_duration,
            current_song: match &self.current_song {
                Some(path) => Some(path.clone()),
                None => None,
            },
        }
    }
}

/// Commands take effect in the order they were sent: whatever the thread
/// did before, and however the first song fared, once `Play(a)`, `Stop` and
/// `Play(b)` were handled in this order and the song at `b` was loaded, the
/// song at `b` is the current one and plays.
pub proof fn lemma_last_play_wins(
    start: AudioThread,
    a: String,
    first_load: Option<u64>,
    b: String,
    duration: u64,
    elapsed: u64,
)
    ensures
        ({
            let after_a = start.after_command(PlayerCommand::Play(a), elapsed).after_load(
                a,
                first_load,
            );
            let after_stop = after_a.after_command(PlayerCommand::Stop, elapsed);
            let after_b = after_stop.after_command(PlayerCommand::Play(b), elapsed).after_load(
                b,
                Some(duration),
            );
            &&& after_b.status.state == PlayerState::Playing
            &&& after_b.status.current_song == Some(b)
            &&& after_b.status.total_duration == duration
            &&& after_b.status.current_position == 0
        }),
{
}

} // verus!
