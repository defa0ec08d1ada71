//! What every layer shares: the error types.

pub mod errors;
