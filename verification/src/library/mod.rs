//! The music library on disk: which files count as music.

pub mod scanner;

pub use scanner::MusicScanner;
