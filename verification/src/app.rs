//! State of the single-page client: the start menu and the pages it
//! opens.

pub mod checker;
pub mod connections;
pub mod nettest;
pub mod preview;
pub mod proxy;
pub mod rules;
pub mod state;
pub mod window;
