//! The application layer: what each use case decides, given what the
//! repositories hold. Asking the repositories and storing what was decided
//! is the caller's part.

pub mod dto;
pub mod services;
pub mod use_cases;
