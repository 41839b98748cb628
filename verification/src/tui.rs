//! The terminal client: page state machines, list navigation and the
//! pure formatting helpers used by its renderer.

pub mod app;
pub mod canvas;
pub mod client;
pub mod keys;
pub mod commands;
pub mod flows;
pub mod models;
pub mod nav;
pub mod requests;
pub mod rpc;
pub mod transactions;
