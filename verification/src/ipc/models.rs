//! Replies of the mihomo controller that the single-page client reads.

use vstd::prelude::*;
pub use crate::tui::models::{Connection, Connections, DelayHistory, Extra, Groups, Proxy, ProxyType, Rule, Traffic};

verus! {

/// The controller's version.
#[derive(Debug, Clone, PartialEq, Eq)]
pub struct BackendVersion {
    pub meta: bool,
    pub version: String,
}

/// The error body of a refused request.
#[derive(Debug, Clone, PartialEq, Eq)]
pub struct ResponseError {
    pub message: String,
}

} // verus!
