//! Core logic of a Pomodoro-style work/break timer: the phase state
//! machine with its session counter, the cumulative usage statistics
//! with their periodic resets, and the settings record that both
//! consume. Persistence and the user interface live outside; commands
//! return the events they would emit instead of sending them.

pub mod dates;
pub mod phase;
pub mod settings;
pub mod stats;
pub mod store;
pub mod timer;
