//! The command-line surface, as plain data. Argument parsing itself is an
//! external collaborator; it hands the library these values.

use vstd::prelude::*;

verus! {

/// A parsed invocation.
#[derive(Debug, Clone)]
pub struct Cli {
    /// Verbosity: count of `-v` flags.
    pub verbose: u8,
    /// The subcommand.
    pub command: Commands,
}

/// The subcommands the agent supports.
#[derive(Debug, Clone)]
pub enum Commands {
    /// Initialize the `.autosnap` bare store in the current repository.
    Init,
    /// Launch the watcher, foreground by default.
    Start { daemon: bool },
    /// Stop the background watcher via its PID file.
    Stop,
    /// Exit 0 if running, 1 otherwise.
    Status,
    /// Take one snapshot and exit, with an optional custom message.
    Once { message: Option<String> },
    /// Collapse history older than the retention window into a baseline.
    Compact { days: Option<u32> },
    /// Garbage-collect the auxiliary store, optionally pruning by age.
    Gc { days: Option<u32>, prune: bool },
    /// Stop the watcher if running and remove the auxiliary store.
    Uninstall,
    /// Open a snapshot in a subshell for exploration.
    Shell { commit: Option<String>, interactive: bool },
    /// Restore files from a snapshot into the working tree.
    Restore {
        commit: Option<String>,
        interactive: bool,
        force: bool,
        dry_run: bool,
        full: bool,
        paths: Vec<String>,
    },
    /// Show a diff between snapshots or against the working tree.
    Diff {
        commit1: Option<String>,
        commit2: Option<String>,
        interactive: bool,
        stat: bool,
        name_only: bool,
        name_status: bool,
        paths: Vec<String>,
    },
    /// View the agent's log files.
    Logs { follow: bool, lines: usize },
}

} // verus!
