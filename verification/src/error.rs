//! Error kinds shared across the benchmark pipeline, with the exact
//! message each one renders to.

use vstd::prelude::*;

use crate::text::{dec_str, u64_to_dec};

verus! {

/// The error taxonomy of the benchmark pipeline. Variants carry the
/// detail message (or, for `Timeout`, the configured bound in seconds).
#[derive(Debug)]
pub enum BenchError {
    TaskNotFound(String),
    InvalidTaskFormat(String),
    TaskLoadError(String),
    AgentError(String),
    VerificationError(String),
    Timeout(u64),
    GitError(String),
    IoError(String),
    YamlError(String),
    JsonError(String),
}

impl BenchError {
    /// The human-readable message for this error.
    pub open spec fn spec_message(&self) -> Seq<char> {
        match self {
            BenchError::TaskNotFound(s) => "Task not found: "@ + s@,
            BenchError::InvalidTaskFormat(s) => "Invalid task format: "@ + s@,
            BenchError::TaskLoadError(s) => "Task loading failed: "@ + s@,
            BenchError::AgentError(s) => "Agent execution failed: "@ + s@,
            BenchError::VerificationError(s) => "Verification failed: "@ + s@,
            BenchError::Timeout(n) => "Timeout after "@ + dec_str(*n as nat) + " seconds"@,
            BenchError::GitError(s) => "Git operation failed: "@ + s@,
            BenchError::IoError(s) => "IO error: "@ + s@,
            BenchError::YamlError(s) => "YAML parsing error: "@ + s@,
            BenchError::JsonError(s) => "JSON error: "@ + s@,
        }
    }

    /// Render the error as its message string.
    pub fn message(&self) -> (r: String)
        ensures
            r@ == self.spec_message(),
    {
        match self {
            BenchError::TaskNotFound(s) => {
                let mut m = "Task not found: ".to_owned();
                m.append(s.as_str());
                m
            },
            BenchError::InvalidTaskFormat(s) => {
                let mut m = "Invalid task format: ".to_owned();
                m.append(s.as_str());
                m
            },
            BenchError::TaskLoadError(s) => {
                let mut m = "Task loading failed: ".to_owned();
                m.append(s.as_str());
                m
            },
            BenchError::AgentError(s) => {
                let mut m = "Agent execution failed: ".to_owned();
                m.append(s.as_str());
                m
            },
            BenchError::VerificationError(s) => {
                let mut m = "Verification failed: ".to_owned();
                m.append(s.as_str());
                m
            },
            BenchError::Timeout(n) => {
                let mut m = "Timeout after ".to_owned();
                let secs = u64_to_dec(*n);
                m.append(secs.as_str());
                m.append(" seconds");
                m
            },
            BenchError::GitError(s) => {
                let mut m = "Git operation failed: ".to_owned();
                m.append(s.as_str());
                m
            },
            BenchError::IoError(s) => {
                let mut m = "IO error: ".to_owned();
                m.append(s.as_str());
                m
            },
            BenchError::YamlError(s) => {
                let mut m = "YAML parsing error: ".to_owned();
                m.append(s.as_str());
                m
            },
            BenchError::JsonError(s) => {
                let mut m = "JSON error: ".to_owned();
                m.append(s.as_str());
                m
            },
        }
    }
}

} // verus!
