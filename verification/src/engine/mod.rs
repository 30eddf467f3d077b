//! The engine: the life-cycle rules, the pattern of progress and the
//! tension score.

pub mod pattern;
pub mod ranking;
pub mod ratio;
pub mod state_machine;
pub mod tension;

pub use pattern::{Pattern, PatternAnalyzer, PatternMetrics};
pub use ratio::Ratio;
pub use state_machine::StateMachine;
pub use tension::{TensionCalculator, VisionTension};
