//! The `version` subcommand.

use vstd::prelude::*;
pub use crate::ipc::models::BackendVersion;

verus! {

/// Prints the controller's version.
#[derive(Debug, Clone, Copy, PartialEq, Eq, Structural)]
pub struct BackendVersionCmd;

} // verus!
