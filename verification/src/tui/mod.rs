//! The state of the dashboard, and how keys change it.
//!
//! Reading keys, drawing and storing are the caller's: it hands each key to
//! the state and stores the snapshot when told to.

pub mod app;
pub mod events;

pub use app::{App, InputMode, Key, Screen};
pub use events::EventHandler;
