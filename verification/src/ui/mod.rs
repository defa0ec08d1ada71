//! The user interface's model: layout, themes, application state and the
//! texts of the widgets.

pub mod app;
pub mod layout;
pub mod theme;
pub mod widgets;

pub use app::{ActivePanel, AppState, InputMode, ViewMode};
pub use theme::{ThemeManager, Themes};
