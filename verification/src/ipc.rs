//! Talking to the mihomo controller: the reply models and the
//! addresses requests go to.

pub mod backend;
pub mod models;
pub mod websocket;
