//! The domain: entities, value objects and their rules.

pub mod entities;
pub mod value_objects;
