//! The command line of the data plane.

use std::path::PathBuf;

use vstd::prelude::*;

verus! {

/// Data plane for the Datadog Agent.
pub struct Cli {
    /// Path to the configuration file.
    pub config_file: Option<PathBuf>,
    /// Subcommand to run.
    pub action: Action,
}

/// The subcommands.
pub enum Action {
    /// Runs the data plane.
    Run(RunCommand),
    /// Debugging helpers.
    Debug,
    /// Configuration helpers.
    Config,
    /// DogStatsD helpers.
    Dogstatsd,
    /// Prints the version.
    Version,
}

/// Runs the data plane.
#[derive(Debug)]
pub struct RunCommand {
    /// Path to the PID file.
    pub pid_file: Option<PathBuf>,
}

} // verus!
