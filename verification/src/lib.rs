//! Timed removal of files and directories: a recurring task scheduler with
//! calendar-aware repeat policies, and the decision logic that surrounds it.

pub mod beeper;
pub mod cli;
pub mod config;
pub mod date;
pub mod date_text;
pub mod deletion;
pub mod error;
pub mod guarantees;
pub mod mask;
pub mod progress;
pub mod scheduler;
pub mod strategy;
pub mod task;
pub mod tasker;
pub mod text;
pub mod usb;
