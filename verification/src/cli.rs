//! The command-line surface's data model: parsed global options and
//! subcommands, and their mapping to a runner configuration.

use vstd::prelude::*;

use crate::runner::RunnerConfig;

verus! {

/// Parsed command-line options for the benchmark tool.
#[derive(Debug, Clone)]
pub struct Cli {
    /// Tasks directory.
    pub tasks_dir: String,
    /// Results directory.
    pub results_dir: String,
    /// Workspace directory for task execution.
    pub workspace_dir: String,
    /// The selected subcommand.
    pub command: Commands,
}

/// The tool's subcommands.
#[derive(Debug, Clone)]
pub enum Commands {
    /// List available benchmark tasks.
    List {
        /// Show detailed information.
        verbose: bool,
    },
    /// Run benchmark tasks.
    Run {
        /// Specific task ID to run.
        task: Option<String>,
        /// Run all tasks in the suite.
        suite: Option<String>,
        /// Agent to use for execution.
        agent: String,
    },
}

impl Cli {
    /// Create a runner configuration from the parsed options.
    pub fn to_runner_config(&self) -> (r: RunnerConfig)
        ensures
            r.tasks_dir == self.tasks_dir,
            r.results_dir == self.results_dir,
            r.workspace_dir == self.workspace_dir,
            r.max_iterations == 1,
    {
        RunnerConfig {
            tasks_dir: self.tasks_dir.clone(),
            results_dir: self.results_dir.clone(),
            workspace_dir: self.workspace_dir.clone(),
            max_iterations: 1,
        }
    }
}

} // verus!
