//! An in-memory store for a personal planner: todos, notes, goals, a
//! pomodoro timer, a history of pomodoro sessions and a daily journal.
//!
//! Every operation is a verified method of [`store::AppData`]; reading and
//! writing the store's file is left to the caller.

pub mod error;
pub mod journal;
pub mod pomodoro;
pub mod records;
pub mod store;
pub mod time;
