//! The core playback engine: the state machine of stopped, playing and
//! paused, with the current song and the position in it.

use crate::audio::player::PlayerState;
use crate::error::LofiTurtleError;
use crate::models::song::Song;
use vstd::prelude::*;

verus! {

/// Repeat mode options.
#[derive(Debug, Clone, Copy, PartialEq, Eq, Structural)]
pub enum RepeatMode {
    Off,
    Single,
    Playlist,
}

/// A length of time as the standard library's `Duration` holds it: whole
/// seconds and the nanoseconds beyond them.
#[derive(Debug, Clone, Copy, PartialEq, Eq, Structural)]
pub struct Span {
    pub seconds: u64,
    pub nanoseconds: u32,
}

impl Span {
    /// The length in nanoseconds.
    pub open spec fn nanos(self) -> nat {
        (self.seconds * 1_000_000_000 + self.nanoseconds) as nat
    }

    /// No time at all.
    pub open spec fn zero() -> Span {
        Span { seconds: 0, nanoseconds: 0 }
    }

    /// The length of `seconds` whole seconds.
    pub fn from_secs(seconds: u64) -> (span: Self)
        ensures
            span == (Span { seconds, nanoseconds: 0 }),
    {
        Span { seconds, nanoseconds: 0 }
    }

    /// Whether this length is at least as long as `other`.
    pub fn reaches(&self, other: &Span) -> (reached: bool)
        ensures
            reached == (self.nanos() >= other.nanos()),
    {
        let mine: u128 = (self.seconds as u128) * 1_000_000_000 + (self.nanoseconds as u128);
        let theirs: u128 = (other.seconds as u128) * 1_000_000_000 + (other.nanoseconds as u128);
        mine >= theirs
    }
}

/// The playback engine.
#[derive(Debug, Clone, PartialEq)]
pub struct PlaybackEngine {
    pub state: PlayerState,
    pub current_song: Option<Song>,
    pub position: Span,
    pub duration: Option<Span>,
    pub shuffle: bool,
    pub repeat_mode: RepeatMode,
}

impl PlaybackEngine {
    /// The engine before anything was played.
    pub open spec fn initial() -> PlaybackEngine {
        PlaybackEngine {
            state: PlayerState::Stopped,
            current_song: None,
            position: Span::zero(),
            duration: None,
            shuffle: false,
            repeat_mode: RepeatMode::Off,
        }
    }

    /// The engine after play or pause was toggled: a playing engine pauses,
    /// a paused one resumes, a stopped one starts its current song over if it
    /// has one.
    pub open spec fn toggled(self) -> PlaybackEngine {
        match self.state {
            PlayerState::Playing => PlaybackEngine { state: PlayerState::Paused, ..self },
            PlayerState::Paused => PlaybackEngine { state: PlayerState::Playing, ..self },
            PlayerState::Stopped => if self.current_song is Some {
                PlaybackEngine { state: PlayerState::Playing, position: Span::zero(), ..self }
            } else {
                self
            },
        }
    }

    /// A new playback engine.
    pub fn new() -> (engine: Self)
        ensures
            engine == PlaybackEngine::initial(),
    {
        PlaybackEngine {
            state: PlayerState::Stopped,
            current_song: None,
            position: Span::from_secs(0),
            duration: None,
            shuffle: false,
            repeat_mode: RepeatMode::Off,
        }
    }

    /// Starts playing a song from its beginning.
    pub fn play(&mut self, song: Song) -> (result: Result<(), LofiTurtleError>)
        ensures
            result is Ok,
            *final(self) == (PlaybackEngine {
                state: PlayerState::Playing,
                current_song: Some(song),
                position: Span::zero(),
                ..*old(self)
            }),
    {
        self.current_song = Some(song);
        self.position = Span::from_secs(0);
        self.state = PlayerState::Playing;
        Ok(())
    }

    /// Pauses playback.
    pub fn pause(&mut self) -> (result: Result<(), LofiTurtleError>)
        ensures
            result is Ok,
            *final(self) == (PlaybackEngine { state: PlayerState::Paused, ..*old(self) }),
    {
        self.state = PlayerState::Paused;
        Ok(())
    }

    /// Resumes playback.
    pub fn resume(&mut self) -> (result: Result<(), LofiTurtleError>)
        ensures
            result is Ok,
            *final(self) == (PlaybackEngine { state: PlayerState::Playing, ..*old(self) }),
    {
        self.state = PlayerState::Playing;
        Ok(())
    }

    /// Stops playback and goes back to the start of the song.
    pub fn stop(&mut self) -> (result: Result<(), LofiTurtleError>)
        ensures
            result is Ok,
            *final(self) == (PlaybackEngine {
                state: PlayerState::Stopped,
                position: Span::zero(),
                ..*old(self)
            }),
    {
        self.state = PlayerState::Stopped;
        self.position = Span::from_secs(0);
        Ok(())
    }

    /// Toggles between playing and paused; a stopped engine starts its
    /// current song over.
    pub fn toggle_playback(&mut self) -> (result: Result<(), LofiTurtleError>)
        ensures
            result is Ok,
            *final(self) == old(self).toggled(),
    {
        match self.state {
            PlayerState::Playing => self.pause(),
            PlayerState::Paused => self.resume(),
            PlayerState::Stopped => {
                if self.current_song.is_some() {
                    self.position = Span::from_secs(0);
                    self.state = PlayerState::Playing;
                }
                Ok(())
            },
        }
    }

    /// Moves to a position in the song.
    pub fn seek(&mut self, position: Span) -> (result: Result<(), LofiTurtleError>)
        ensures
            result is Ok,
            *final(self) == (PlaybackEngine { position, ..*old(self) }),
    {
        self.position = position;
        Ok(())
    }

    /// The playback state.
    pub fn get_state(&self) -> (state: PlayerState)
        ensures
            state == self.state,
    {
        self.state
    }

    /// The current song.
    pub fn get_current_song(&self) -> (song: Option<&Song>)
        ensures
            match song {
                Some(s) => self.current_song == Some(*s),
                None => self.current_song is None,
            },
    {
        self.current_song.as_ref()
    }

    /// The position in the song.
    pub fn get_position(&self) -> (position: Span)
        ensures
            position == self.position,
    {
        self.position
    }

    /// The length of the song, once it is known.
    pub fn get_duration(&self) -> (duration: Option<Span>)
        ensures
            duration == self.duration,
    {
        self.duration
    }

    /// Whether shuffle is on.
    pub fn is_shuffle(&self) -> (shuffle: bool)
        ensures
            shuffle == self.shuffle,
    {
        self.shuffle
    }

    /// Switches shuffle on or off.
    pub fn set_shuffle(&mut self, shuffle: bool)
        ensures
            *final(self) == (PlaybackEngine { shuffle, ..*old(self) }),
    {
        self.shuffle = shuffle;
    }

    /// The repeat mode.
    pub fn get_repeat_mode(&self) -> (mode: RepeatMode)
        ensures
            mode == self.repeat_mode,
    {
        self.repeat_mode
    }

    /// Sets the repeat mode.
    pub fn set_repeat_mode(&mut self, mode: RepeatMode)
        ensures
            *final(self) == (PlaybackEngine { repeat_mode: mode, ..*old(self) }),
    {
        self.repeat_mode = mode;
    }

    /// Records the position that the audio backend reports.
    pub fn update_position(&mut self, position: Span)
        ensures
            *final(self) == (PlaybackEngine { position, ..*old(self) }),
    {
        self.position = position;
    }

    /// Records the length of the song that was loaded.
    pub fn set_duration(&mut self, duration: Span)
        ensures
            *final(self) == (PlaybackEngine { duration: Some(duration), ..*old(self) }),
    {
        self.duration = Some(duration);
    }

    /// Whether the song has been played to its end.
    pub fn is_ended(&self) -> (ended: bool)
        ensures
            ended == match self.duration {
                Some(duration) => self.position.nanos() >= duration.nanos(),
                None => false,
            },
    {
        match self.duration {
            Some(duration) => self.position.reaches(&duration),
            None => false,
        }
    }
}

impl Default for PlaybackEngine {
    fn default() -> (engine: Self)
        ensures
            engine == PlaybackEngine::initial(),
    {
        Self::new()
    }
}

} // verus!
