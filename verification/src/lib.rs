//! Loggr: the core of a terminal time tracker.
//!
//! A user keeps a list of named projects, opens one of them and clocks in and
//! out of it. This crate holds the timesheet model and the session state
//! machine that reacts to keys; drawing, key capture and disk access belong to
//! the program around it.

pub mod app;
pub mod cursor;
pub mod error;
pub mod files;
pub mod json;
pub mod keys;
pub mod laws;
pub mod text;
pub mod timesheet;
pub mod ui;
