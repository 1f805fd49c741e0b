//! What a user interface needs to know of a session: its state, its events,
//! and the history of connections.

pub mod event_app;
pub mod events;
pub mod gui;
pub mod history;
pub mod models;

pub use event_app::EventBasedApp;
pub use models::{AppState, ConnectionEntry};
