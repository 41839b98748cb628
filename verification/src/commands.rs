//! Command line of the single-page client: what the arguments select
//! (parsed in the binary) and where its configuration lives.

use vstd::prelude::*;

pub mod groups;
pub mod metaversion;
pub mod proxyise;
pub mod traffic;

verus! {

/// Where the configuration file lives, `~` standing for the home
/// directory.
pub const CONFIG_FILE: &'static str = "~/.config/clard-rs/clard-rs.toml";

/// The subcommands.
#[derive(Debug, Clone, PartialEq, Eq)]
pub enum ClardRsCmd {
    /// Runs the test subcommand.
    Test(TestCmd),
}

/// Arguments of the test subcommand.
#[derive(Debug, Clone, PartialEq, Eq)]
pub struct TestCmd {
    pub name: Option<String>,
}

/// The parsed command line.
#[derive(Debug, Clone, PartialEq, Eq)]
pub struct Cli {
    pub cmd: Option<ClardRsCmd>,
    /// Verbose logging.
    pub verbose: bool,
    /// Start the terminal interface.
    pub tui: bool,
}

impl Cli {
    /// The subcommand to run, or `None` to start the terminal client:
    /// `--tui` wins over a subcommand.
    pub fn subcommand(self) -> (r: Option<ClardRsCmd>)
        ensures
            r == (if self.tui { None } else { self.cmd }),
    {
        if self.tui {
            None
        } else {
            self.cmd
        }
    }
}

} // verus!
