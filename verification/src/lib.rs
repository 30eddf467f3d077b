//! Tensile: a structural tension tracker.
//!
//! Visions (long-term goals), the actions taken toward them and the
//! assessments of current reality are held in an in-memory [`Database`].
//! The engine derives from it a tension score, a pattern of progress and the
//! legal moves of a vision's life cycle.

pub mod cli;
pub mod cloud;
pub mod engine;
pub mod error;
pub mod models;
pub mod persistence;
pub mod text;
pub mod tui;

pub use error::{TensileError, TensileResult};
pub use models::Database;
