//! Application services.

pub mod music_library_service;

pub use music_library_service::{BatchAddResult, BatchError, SongData};
