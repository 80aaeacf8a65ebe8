//! Systrix: a verified core for an interactive system-monitor dashboard.
//!
//! The crate holds the pure, verified logic of the dashboard: snapshot
//! value types and their derived percentages, the filtered process view,
//! the dashboard controller state machine, action dispatch with its
//! safety guard, and the text formatting utilities. Reading the OS and
//! drawing the terminal are left to the surrounding application.

pub mod actions;
pub mod cli;
pub mod event;
pub mod export;
pub mod monitor;
pub mod plugins;
pub mod remote;
pub mod search;
pub mod ui;
pub mod utils;
pub mod view;
