//! The rules behind a launcher's "Enhancements" preferences page: which
//! configuration field each control edits, and what each control shows for a
//! given configuration.

pub mod choices;
pub mod config;
pub mod event;
pub mod laws;
pub mod page;
pub mod template;
pub mod widgets;

pub use choices::Choices;
pub use config::Config;
pub use event::{Effect, Event};
pub use page::{App, Reaction};
pub use widgets::AppWidgets;
