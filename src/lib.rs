//! Workday countdown: when the working day began, when it ends, and how much
//! of it is left.
pub mod config;
pub mod layout;
pub mod local_time;
pub mod report;
pub mod schedule;
pub mod session;
pub mod text;
pub mod workday;
