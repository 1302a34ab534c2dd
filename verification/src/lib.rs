//! Core of a desktop status monitor: the poll-interval store, the status
//! fetch pipeline, the tray event handler and the three commands that the
//! presentation layer invokes.

pub mod commands;
pub mod fetch;
pub mod interval;
pub mod text;
pub mod tray;
