//! The task runner: provisioning decisions, commit-reference
//! classification, and the per-task orchestration rule that turns stage
//! outcomes into exactly one benchmark result.

use vstd::prelude::*;

use crate::agents::AgentResult;
use crate::error::BenchError;
use crate::evaluator::{BenchmarkResult, VerificationResult};
use crate::task::Task;
use crate::text::{int_dec, i32_to_dec, str_eq};

verus! {

/// Configuration for the task runner.
#[derive(Debug, Clone)]
pub struct RunnerConfig {
    /// Directory containing tasks.
    pub tasks_dir: String,
    /// Directory for storing results.
    pub results_dir: String,
    /// Directory for workspaces.
    pub workspace_dir: String,
    /// Maximum iterations per task.
    pub max_iterations: u32,
}

impl Default for RunnerConfig {
    fn default() -> (r: Self)
        ensures
            r.tasks_dir@ == "tasks"@,
            r.results_dir@ == "results"@,
            r.workspace_dir@ == "/tmp/agent-bench"@,
            r.max_iterations == 1,
    {
        RunnerConfig {
            tasks_dir: "tasks".to_owned(),
            results_dir: "results".to_owned(),
            workspace_dir: "/tmp/agent-bench".to_owned(),
            max_iterations: 1,
        }
    }
}

/// How a task's workspace is materialized: an empty directory, or a
/// clone of the task's repository.
#[derive(Debug, Clone, Copy, PartialEq, Eq, Structural)]
pub enum ProvisionPlan {
    EmptyDir,
    CloneRepo,
}

/// A repository reference that asks for no repository at all.
pub open spec fn repo_is_none(repo: Seq<char>) -> bool {
    repo == "none"@ || repo.len() == 0
}

/// How a commit reference is resolved after a clone.
#[derive(Debug, Clone, Copy, PartialEq, Eq, Structural)]
pub enum RefKind {
    /// A default-branch alias: the fresh clone is used as-is.
    DefaultBranch,
    /// Shaped like a commit hash: check out that commit and detach HEAD
    /// at it.
    CommitHash,
    /// Anything else: resolve as a remote, then local, branch name.
    BranchName,
}

pub open spec fn is_hex_char(c: char) -> bool {
    ('0' <= c && c <= '9') || ('a' <= c && c <= 'f') || ('A' <= c && c <= 'F')
}

/// Shaped like a (possibly abbreviated) commit hash: one to forty hex
/// characters.
pub open spec fn oid_like(s: Seq<char>) -> bool {
    1 <= s.len() <= 40 && forall|i: int| 0 <= i < s.len() ==> is_hex_char(s[i])
}

/// The well-known aliases for a fresh clone's default branch.
pub open spec fn default_branch_alias(s: Seq<char>) -> bool {
    s == "main"@ || s == "master"@ || s == "HEAD"@
}

/// Relies on `git2::Oid::from_str`, which succeeds exactly on a
/// non-empty string of at most forty hex characters (libgit2's
/// `git_oid__fromstrn`).
#[verifier::external_body]
fn oid_parses(s: &str) -> (r: bool)
    ensures
        r == oid_like(s@),
{
    git2::Oid::from_str(s).is_ok()
}

/// The four ways one task execution can unfold, as plain values: which
/// stages ran, and what they produced.
#[derive(Debug)]
pub enum StageOutcome {
    /// Workspace provisioning failed; nothing else ran.
    ProvisionFailed(BenchError),
    /// The agent could not run (spawn failure or timeout); verification
    /// never ran.
    AgentFailed(BenchError),
    /// The agent ran, but verification failed to run at all.
    VerificationNotRun(AgentResult, BenchError),
    /// Both the agent and verification ran to completion.
    Verified(AgentResult, VerificationResult),
}

/// The `{:?}`-style rendering of an optional exit code.
pub open spec fn spec_exit_code_str(c: Option<i32>) -> Seq<char> {
    match c {
        Some(n) => "Some("@ + int_dec(n as int) + ")"@,
        None => "None"@,
    }
}

/// The verification transcript attached to results: exit code and both
/// captured streams.
pub open spec fn spec_transcript(v: VerificationResult) -> Seq<char> {
    "Exit code: "@ + spec_exit_code_str(v.exit_code) + "\n\nSTDOUT:\n"@ + v.stdout@
        + "\n\nSTDERR:\n"@ + v.stderr@
}

/// Render an optional exit code as `Some(n)` or `None`.
pub fn format_exit_code(c: &Option<i32>) -> (r: String)
    ensures
        r@ == spec_exit_code_str(*c),
{
    match c {
        Some(n) => {
            let mut s = "Some(".to_owned();
            let digits = i32_to_dec(*n);
            s.append(digits.as_str());
            s.append(")");
            s
        },
        None => "None".to_owned(),
    }
}

/// Render the verification transcript attached to results.
pub fn verification_transcript(v: &VerificationResult) -> (r: String)
    ensures
        r@ == spec_transcript(*v),
{
    let mut s = "Exit code: ".to_owned();
    let code = format_exit_code(&v.exit_code);
    s.append(code.as_str());
    s.append("\n\nSTDOUT:\n");
    s.append(v.stdout.as_str());
    s.append("\n\nSTDERR:\n");
    s.append(v.stderr.as_str());
    s
}

/// Task runner for executing benchmarks.
pub struct TaskRunner {
    pub config: RunnerConfig,
}

impl TaskRunner {
    /// Create a new task runner with the given configuration.
    pub fn new(config: RunnerConfig) -> (r: Self)
        ensures
            r.config == config,
    {
        TaskRunner { config }
    }

    /// Create a task runner with default configuration.
    pub fn with_defaults() -> (r: Self)
        ensures
            r.config.tasks_dir@ == "tasks"@,
            r.config.results_dir@ == "results"@,
            r.config.workspace_dir@ == "/tmp/agent-bench"@,
            r.config.max_iterations == 1,
    {
        TaskRunner::new(RunnerConfig::default())
    }

    /// The workspace directory designated for a task:
    /// `{workspace_dir}/{task id}`.
    pub fn workspace_path(&self, task: &Task) -> (r: String)
        ensures
            r@ == self.config.workspace_dir@ + "/"@ + task.id@,
    {
        let mut s = self.config.workspace_dir.clone();
        s.append("/");
        s.append(task.id.as_str());
        s
    }

    /// Decide how a task's workspace is materialized: tasks whose
    /// repository is the sentinel "none" (or empty) get an empty
    /// directory and no clone.
    pub fn provision_plan(task: &Task) -> (r: ProvisionPlan)
        ensures
            r == ProvisionPlan::EmptyDir <==> repo_is_none(task.source.repository@),
            r == ProvisionPlan::CloneRepo <==> !repo_is_none(task.source.repository@),
    {
        if str_eq(task.source.repository.as_str(), "none")
            || task.source.repository.as_str().is_empty() {
            ProvisionPlan::EmptyDir
        } else {
            ProvisionPlan::CloneRepo
        }
    }

    /// Classify a commit reference: default-branch aliases need no
    /// checkout beyond the clone; hash-shaped references are checked
    /// out as detached commits; everything else resolves as a branch.
    pub fn classify_reference(commit: &str) -> (r: RefKind)
        ensures
            r == RefKind::DefaultBranch <==> default_branch_alias(commit@),
            r == RefKind::CommitHash <==> (!default_branch_alias(commit@) && oid_like(commit@)),
            r == RefKind::BranchName <==> (!default_branch_alias(commit@) && !oid_like(commit@)),
    {
        if str_eq(commit, "main") || str_eq(commit, "master") || str_eq(commit, "HEAD") {
            RefKind::DefaultBranch
        } else if oid_parses(commit) {
            RefKind::CommitHash
        } else {
            RefKind::BranchName
        }
    }

    /// Turn one task execution's stage outcomes into its benchmark
    /// result. Every execution yields exactly one result; when
    /// verification ran, its passed flag alone decides success, and
    /// when an earlier stage failed, the result is a failure carrying
    /// that stage's error.
    pub fn conclude_task(
        task_id: String,
        agent_name: String,
        outcome: StageOutcome,
        duration_ms: u64,
    ) -> (r: BenchmarkResult)
        ensures
            r.task_id == task_id,
            r.agent == agent_name,
            r.duration_ms == duration_ms,
            outcome matches StageOutcome::ProvisionFailed(e) ==> {
                &&& !r.success
                &&& r.score == 0
                &&& r.iterations == 0
                &&& r.tokens_used is None
                &&& r.error matches Some(m) && m@ == e.spec_message()
                &&& r.agent_output is None
                &&& r.verification_output is None
            },
            outcome matches StageOutcome::AgentFailed(e) ==> {
                &&& !r.success
                &&& r.score == 0
                &&& r.iterations == 0
                &&& r.tokens_used is None
                &&& r.error matches Some(m) && m@ == "Agent execution failed: "@
                    + e.spec_message()
                &&& r.agent_output is None
                &&& r.verification_output is None
            },
            outcome matches StageOutcome::VerificationNotRun(a, e) ==> {
                &&& !r.success
                &&& r.score == 0
                &&& r.iterations == a.iterations
                &&& r.tokens_used == a.tokens_used
                &&& r.error matches Some(m) && m@ == "Verification failed: "@ + e.spec_message()
                &&& r.agent_output == Some(a.output)
                &&& r.verification_output is None
            },
            outcome matches StageOutcome::Verified(a, v) ==> {
                &&& r.success == v.passed
                &&& r.score == if v.passed {
                    100int
                } else {
                    0int
                }
                &&& r.iterations == a.iterations
                &&& r.tokens_used == a.tokens_used
                &&& (v.passed ==> r.error is None)
                &&& (!v.passed ==> (r.error matches Some(m) && m@
                    == "Verification tests failed"@))
                &&& r.agent_output == Some(a.output)
                &&& r.verification_output matches Some(t) && t@ == spec_transcript(v)
            },
    {
        match outcome {
            StageOutcome::ProvisionFailed(e) => BenchmarkResult::failure(
                task_id,
                agent_name,
                0,
                None,
                duration_ms,
                e.message(),
            ),
            StageOutcome::AgentFailed(e) => {
                let mut msg = "Agent execution failed: ".to_owned();
                let detail = e.message();
                msg.append(detail.as_str());
                BenchmarkResult::failure(task_id, agent_name, 0, None, duration_ms, msg)
            },
            StageOutcome::VerificationNotRun(a, e) => {
                let mut msg = "Verification failed: ".to_owned();
                let detail = e.message();
                msg.append(detail.as_str());
                BenchmarkResult::failure(
                    task_id,
                    agent_name,
                    a.iterations,
                    a.tokens_used,
                    duration_ms,
                    msg,
                ).with_agent_output(a.output)
            },
            StageOutcome::Verified(a, v) => {
                let transcript = verification_transcript(&v);
                let base = if v.passed {
                    BenchmarkResult::success(
                        task_id,
                        agent_name,
                        a.iterations,
                        a.tokens_used,
                        duration_ms,
                    )
                } else {
                    BenchmarkResult::failure(
                        task_id,
                        agent_name,
                        a.iterations,
                        a.tokens_used,
                        duration_ms,
                        "Verification tests failed".to_owned(),
                    )
                };
                base.with_agent_output(a.output).with_verification_output(transcript)
            },
        }
    }
}

} // verus!
