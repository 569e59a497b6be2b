//! The commands that the tool takes, as values.

use vstd::prelude::*;

verus! {

/// The path of the configuration where none is given.
pub const DEFAULT_CONFIG_PATH: &'static str = ".gitsherpa.toml";

/// How many commits are looked at where no limit is given.
pub const DEFAULT_COMMIT_LIMIT: usize = 20;

/// How a report is written out.
#[derive(Debug, Clone, Copy, PartialEq, Eq, Structural)]
pub enum OutputFormat {
    Text,
    Json,
}

/// What to do about the hooks.
#[derive(Debug, Clone, Copy, PartialEq, Eq, Structural)]
pub enum HooksAction {
    /// Install the two hooks; with `force`, over files that exist.
    Install { force: bool },
    /// Remove the hooks that this tool installed.
    Uninstall,
}

/// One command with what was given to it.
#[derive(Debug, Clone)]
pub enum Commands {
    /// Write the default configuration.
    Init { config: String },
    /// Hold the repository against the policy.
    Check { config: String, format: OutputFormat, commit_limit: usize },
    /// Say how to mend what a check finds; with `apply`, set a missing
    /// upstream.
    Fix { config: String, commit_limit: usize, apply: bool },
    /// Manage the hooks.
    Hooks { action: HooksAction },
}

/// A command line, parsed.
#[derive(Debug, Clone)]
pub struct Cli {
    pub command: Commands,
}

} // verus!
