//! The `proxies` listing subcommand.

use vstd::prelude::*;

verus! {

/// Prints every proxy the controller knows.
#[derive(Debug, Clone, Copy, PartialEq, Eq, Structural)]
pub struct ProxiesCmd;

} // verus!
