//! Configuration: of a run of the player, and of the layout with its
//! defaults.

pub mod app_config;
pub mod defaults;
pub mod layout_config;

pub use app_config::{Config, ConfigBuilder};
pub use layout_config::LayoutConfig;
