//! The music library service: what it keeps count of when songs are added
//! in a batch.

use crate::application::use_cases::song_management::{AddSongRequest, AddSongResponse};
use crate::domain::value_objects::{Duration, FilePath};
use crate::shared::errors::ApplicationError;
use vstd::prelude::*;

verus! {

/// The data of a song that is to be added.
#[derive(Debug, Clone)]
pub struct SongData {
    pub file_path: FilePath,
    pub title: String,
    pub artist: String,
    pub album: String,
    pub duration: Duration,
}

impl SongData {
    /// The request that adds the song.
    pub fn into_request(self) -> (request: AddSongRequest)
        ensures
            request.file_path == self.file_path,
            request.title == self.title,
            request.artist == self.artist,
            request.album == self.album,
            request.duration == self.duration,
    {
        AddSongRequest {
            file_path: self.file_path,
            title: self.title,
            artist: self.artist,
            album: self.album,
            duration: self.duration,
        }
    }
}

/// A song of a batch that could not be added, and why.
#[derive(Debug)]
pub struct BatchError {
    pub file_path: FilePath,
    pub error: String,
}

/// How a batch of songs fared.
#[derive(Debug)]
pub struct BatchAddResult {
    pub added_count: usize,
    pub updated_count: usize,
    pub errors: Vec<BatchError>,
}

impl BatchAddResult {
    /// The result before the first song: nothing added, nothing known, no
    /// failure.
    pub fn new() -> (result: Self)
        ensures
            result.added_count == 0,
            result.updated_count == 0,
            result.errors@.len() == 0,
    {
        BatchAddResult { added_count: 0, updated_count: 0, errors: Vec::new() }
    }

    /// Counts the song at `file_path`: as added where it was created, as
    /// known where it was there already, and as a failure, with the text of
    /// its error, where it could not be added.
    pub fn record(&mut self, file_path: FilePath, outcome: Result<AddSongResponse, ApplicationError>)
        requires
            old(self).added_count < usize::MAX,
            old(self).updated_count < usize::MAX,
        ensures
            match outcome {
                Ok(response) => {
                    &&& final(self).added_count == old(self).added_count + if response.was_created {
                        1int
                    } else {
                        0int
                    }
                    &&& final(self).updated_count == old(self).updated_count
                        + if response.was_created {
                        0int
                    } else {
                        1int
                    }
                    &&& final(self).errors@ == old(self).errors@
                },
                Err(error) => {
                    &&& final(self).added_count == old(self).added_count
                    &&& final(self).updated_count == old(self).updated_count
                    &&& final(self).errors@.len() == old(self).errors@.len() + 1
                    &&& final(self).errors@.drop_last() == old(self).errors@
                    &&& final(self).errors@.last().file_path == file_path
                    &&& final(self).errors@.last().error@ == error.text()
                },
            },
    {
        match outcome {
            Ok(response) => {
                if response.was_created {
                    self.added_count = self.added_count + 1;
                } else {
                    self.updated_count = self.updated_count + 1;
                }
            },
            Err(error) => {
                self.errors.push(BatchError { file_path, error: error.message() });
                assert(self.errors@.drop_last() =~= old(self).errors@);
            },
        }
    }
}

} // verus!
