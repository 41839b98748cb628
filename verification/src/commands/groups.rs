//! The `groups` and `proxies` subcommands' arguments.

use vstd::prelude::*;

verus! {

/// Lists the proxy groups.
#[derive(Debug, Clone, Copy, PartialEq, Eq, Structural)]
pub struct GroupsCmd;

/// What the `proxies` subcommand does.
#[derive(Debug, Clone, PartialEq, Eq)]
pub enum ProxiesAction {
    /// Lists every proxy.
    List,
    /// Selects `value` in the group `name`.
    Assign { name: String, value: Option<String> },
}

} // verus!
