//! Verified state, navigation and formatting logic of the clard proxy
//! manager: the `tui` tree holds the terminal client, the top-level
//! modules the older single-page client and its mihomo API helpers.

pub mod app;
pub mod calendar;
pub mod canvas;
pub mod commands;
pub mod format;
pub mod groups;
pub mod ipc;
pub mod parse;
pub mod sort;
pub mod text;
pub mod tui;
