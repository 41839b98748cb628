//! The `traffic` subcommand: one line per rate sample of the stream.

use vstd::prelude::*;
use crate::ipc::websocket::WebSocketMessage;
pub use crate::tui::models::Traffic;

verus! {

/// Follows the traffic stream.
#[derive(Debug, Clone, Copy, PartialEq, Eq, Structural)]
pub struct TrafficCmd;

/// What a stream message makes the subcommand print.
#[derive(Debug, Clone, Copy, PartialEq, Eq, Structural)]
pub enum TrafficReport {
    /// A `down:… kbps, up:… kbps` line.
    Rates { down: u64, up: u64 },
    /// The notice that the stream closed.
    Closed,
    /// Nothing.
    Silent,
}

impl TrafficCmd {
    /// A rate sample prints its rates, a close prints a notice, anything
    /// else prints nothing.
    pub fn report(msg: &WebSocketMessage<Traffic>) -> (r: TrafficReport)
        ensures
            r == match msg {
                WebSocketMessage::Text(t) => TrafficReport::Rates { down: t.down, up: t.up },
                WebSocketMessage::Close(_) => TrafficReport::Closed,
                _ => TrafficReport::Silent,
            },
    {
        match msg {
            WebSocketMessage::Text(t) => TrafficReport::Rates { down: t.down, up: t.up },
            WebSocketMessage::Close(_) => TrafficReport::Closed,
            _ => TrafficReport::Silent,
        }
    }
}

} // verus!
