use std::time::Duration;
use vstd::prelude::*;

verus! {

/// Options of the daemon; it takes none.
#[derive(Debug, Clone, PartialEq, Eq)]
pub struct DaemonArgs {}

/// The command line.
#[derive(Debug, Clone, PartialEq, Eq)]
pub struct Cli {
    pub command: CliCommand,
}

/// What `start` is given: the components of one duration.
#[derive(Debug, Clone, PartialEq, Eq)]
pub struct StartArgs {
    pub durations: Vec<Duration>,
}

/// The subcommands.
#[derive(Debug, Clone, PartialEq, Eq)]
pub enum CliCommand {
    /// Start a new timer for the given duration.
    Start(StartArgs),
    /// List active timers.
    Ls,
    /// Pause the timer with the given ID.
    Pause { timer_id: String },
    /// Resume the timer with the given ID.
    Resume { timer_id: String },
    /// Cancel the timer with the given ID.
    Cancel { timer_id: String },
    Version,
    /// Launch the daemon.
    Daemon(DaemonArgs),
}

} // verus!
