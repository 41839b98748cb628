//! Per-page state of the terminal client.

pub mod actions;
pub mod connections;
pub mod history;
pub mod home;
pub mod i18n;
pub mod logs;
pub mod modal;
pub mod page;
pub mod profiles;
pub mod rules;
pub mod proxy;
pub mod settings;
pub mod state;
pub mod sysinfo;
