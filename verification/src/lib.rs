//! Scheduling core of a status bar: commands are run periodically, the first
//! line of each command's latest output is cached, and the cached lines are
//! joined into one status string.

pub mod config;
pub mod laws;
pub mod schedule;
pub mod scheduler;
pub mod status;
pub mod text;
