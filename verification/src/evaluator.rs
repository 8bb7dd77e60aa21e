//! Verification outcomes and the persisted result model: the verifier's
//! command handling, per-task benchmark results, and suite aggregation.

use vstd::prelude::*;

use crate::error::BenchError;
use crate::text::{is_digit_char, split_whitespace, split_ws};

verus! {

/// Verification result.
#[derive(Debug, Clone)]
pub struct VerificationResult {
    /// Whether verification passed.
    pub passed: bool,
    /// Exit code from the verification command.
    pub exit_code: Option<i32>,
    /// Standard output.
    pub stdout: String,
    /// Standard error.
    pub stderr: String,
    /// Duration of verification, in milliseconds.
    pub duration_ms: u64,
}

/// Verifier for running task verification commands.
pub struct Verifier;

impl Verifier {
    /// Tokenize a verification command into program and arguments; an
    /// empty command is a configuration error.
    pub fn plan_command(command: &str) -> (r: Result<(String, Vec<String>), BenchError>)
        ensures
            (r is Ok) <==> split_ws(command@).len() > 0,
            r matches Ok(pa) ==> pa.0@ == split_ws(command@)[0] && pa.1@.map_values(|t: String| t@)
                == split_ws(command@).drop_first(),
            r matches Err(e) ==> (e matches BenchError::VerificationError(m) && m@
                == "Empty verification command"@),
    {
        let mut toks = split_whitespace(command);
        if toks.len() == 0 {
            proof {
                assert(split_ws(command@).len() == toks@.map_values(|t: String| t@).len());
            }
            return Err(
                BenchError::VerificationError("Empty verification command".to_owned()),
            );
        }
        let prog = toks.remove(0);
        proof {
            let all = split_ws(command@);
            assert(prog@ == all[0]);
            assert(toks@.map_values(|t: String| t@) =~= all.drop_first());
        }
        Ok((prog, toks))
    }

    /// Judge a completed verification command: it passes exactly when
    /// the process exited with status zero.
    pub fn conclude(exit_code: Option<i32>, stdout: String, stderr: String, duration_ms: u64) -> (r:
        VerificationResult)
        ensures
            r.passed <==> exit_code == Some(0i32),
            r.exit_code == exit_code,
            r.stdout == stdout,
            r.stderr == stderr,
            r.duration_ms == duration_ms,
    {
        let passed = match exit_code {
            Some(c) => c == 0,
            None => false,
        };
        VerificationResult { passed, exit_code, stdout, stderr, duration_ms }
    }
}

/// Wall-clock stamp of a run, in the two renderings results use.
#[derive(Debug, Clone)]
pub struct Timestamp {
    /// RFC 3339 rendering, for serialized results.
    pub iso: String,
    /// Compact `YYYYMMDD_HHMMSS` rendering, for result file names.
    pub compact: String,
}

/// Relies on chrono's `Utc::now` to read the current wall-clock time,
/// and on `DateTime::to_rfc3339` and `DateTime::format` for the two
/// renderings. The value depends on the clock, so only the shape of
/// the compact rendering is stated: `%Y` emits at least four digits
/// (a sign precedes the year only beyond 9999, and `Utc::now` rejects
/// clocks before 1970), the other fields exactly two each, with the
/// one `_` between date and time.
#[verifier::external_body]
fn now_timestamp() -> (r: Timestamp)
    ensures
        r.compact@.len() >= 15,
        r.compact@[r.compact@.len() - 7] == '_',
        forall|i: int|
            r.compact@.len() - 14 <= i < r.compact@.len() && i != r.compact@.len() - 7
                ==> is_digit_char(#[trigger] r.compact@[i]),
{
    let now = chrono::Utc::now();
    Timestamp { iso: now.to_rfc3339(), compact: now.format("%Y%m%d_%H%M%S").to_string() }
}

/// Benchmark result for a single task run.
#[derive(Debug, Clone)]
pub struct BenchmarkResult {
    /// Task ID.
    pub task_id: String,
    /// Agent name.
    pub agent: String,
    /// Whether the task was completed successfully.
    pub success: bool,
    /// Score (0 or 100).
    pub score: u32,
    /// Number of iterations/attempts.
    pub iterations: u32,
    /// Token usage (if available).
    pub tokens_used: Option<u64>,
    /// Total duration in milliseconds.
    pub duration_ms: u64,
    /// Verification output.
    pub verification_output: Option<String>,
    /// Agent output.
    pub agent_output: Option<String>,
    /// Timestamp when the run started.
    pub timestamp: Timestamp,
    /// Error message if failed.
    pub error: Option<String>,
}

impl BenchmarkResult {
    /// Create a successful result: full score, no error, no attached
    /// output yet.
    pub fn success(
        task_id: String,
        agent: String,
        iterations: u32,
        tokens_used: Option<u64>,
        duration_ms: u64,
    ) -> (r: Self)
        ensures
            r.task_id == task_id,
            r.agent == agent,
            r.success,
            r.score == 100,
            r.iterations == iterations,
            r.tokens_used == tokens_used,
            r.duration_ms == duration_ms,
            r.verification_output is None,
            r.agent_output is None,
            r.error is None,
    {
        BenchmarkResult {
            task_id,
            agent,
            success: true,
            score: 100,
            iterations,
            tokens_used,
            duration_ms,
            verification_output: None,
            agent_output: None,
            timestamp: now_timestamp(),
            error: None,
        }
    }

    /// Create a failed result: zero score, with the given error
    /// message.
    pub fn failure(
        task_id: String,
        agent: String,
        iterations: u32,
        tokens_used: Option<u64>,
        duration_ms: u64,
        error: String,
    ) -> (r: Self)
        ensures
            r.task_id == task_id,
            r.agent == agent,
            !r.success,
            r.score == 0,
            r.iterations == iterations,
            r.tokens_used == tokens_used,
            r.duration_ms == duration_ms,
            r.verification_output is None,
            r.agent_output is None,
            r.error == Some(error),
    {
        BenchmarkResult {
            task_id,
            agent,
            success: false,
            score: 0,
            iterations,
            tokens_used,
            duration_ms,
            verification_output: None,
            agent_output: None,
            timestamp: now_timestamp(),
            error: Some(error),
        }
    }

    /// Add verification output to the result.
    pub fn with_verification_output(self, output: String) -> (r: Self)
        ensures
            r == (BenchmarkResult { verification_output: Some(output), ..self }),
    {
        BenchmarkResult { verification_output: Some(output), ..self }
    }

    /// Add agent output to the result.
    pub fn with_agent_output(self, output: String) -> (r: Self)
        ensures
            r == (BenchmarkResult { agent_output: Some(output), ..self }),
    {
        BenchmarkResult { agent_output: Some(output), ..self }
    }

    /// Deterministic, collision-resistant file name for this result:
    /// `{task_id}_{agent}_{timestamp}_{pass|fail}.json`.
    pub fn file_name(&self) -> (r: String)
        ensures
            r@ == self.task_id@ + "_"@ + self.agent@ + "_"@ + self.timestamp.compact@ + "_"@ + (
            if self.success {
                "pass"@
            } else {
                "fail"@
            }) + ".json"@,
    {
        let mut s = self.task_id.clone();
        s.append("_");
        s.append(self.agent.as_str());
        s.append("_");
        s.append(self.timestamp.compact.as_str());
        s.append("_");
        if self.success {
            s.append("pass");
        } else {
            s.append("fail");
        }
        s.append(".json");
        s
    }
}

/// How many of the results passed.
pub open spec fn count_passed(rs: Seq<BenchmarkResult>) -> int
    decreases rs.len(),
{
    if rs.len() == 0 {
        0
    } else {
        count_passed(rs.drop_last()) + if rs.last().success {
            1int
        } else {
            0int
        }
    }
}

pub proof fn lemma_count_passed_bound(rs: Seq<BenchmarkResult>)
    ensures
        0 <= count_passed(rs) <= rs.len(),
    decreases rs.len(),
{
    if rs.len() > 0 {
        lemma_count_passed_bound(rs.drop_last());
    }
}

/// Total duration of the results, in milliseconds.
pub open spec fn sum_duration_ms(rs: Seq<BenchmarkResult>) -> int
    decreases rs.len(),
{
    if rs.len() == 0 {
        0
    } else {
        sum_duration_ms(rs.drop_last()) + rs.last().duration_ms
    }
}

/// Suite results containing multiple benchmark results.
#[derive(Debug, Clone)]
pub struct SuiteResults {
    /// Agent name.
    pub agent: String,
    /// Individual task results.
    pub results: Vec<BenchmarkResult>,
    /// Total tasks.
    pub total_tasks: usize,
    /// Passed tasks.
    pub passed: usize,
    /// Failed tasks.
    pub failed: usize,
    /// Total duration in milliseconds (saturating).
    pub total_duration_ms: u64,
    /// Timestamp when suite started.
    pub timestamp: Timestamp,
}

impl SuiteResults {
    /// The counts are exactly those derived from the result list; in
    /// particular `passed + failed == total_tasks`.
    pub open spec fn wf(&self) -> bool {
        &&& self.total_tasks == self.results@.len()
        &&& self.passed == count_passed(self.results@)
        &&& self.failed == self.total_tasks - self.passed
        &&& self.total_duration_ms == if sum_duration_ms(self.results@) <= u64::MAX {
            sum_duration_ms(self.results@)
        } else {
            u64::MAX as int
        }
    }

    /// Create suite results from individual benchmark results.
    pub fn from_results(agent: String, results: Vec<BenchmarkResult>) -> (r: Self)
        ensures
            r.agent == agent,
            r.results == results,
            r.total_tasks == results@.len(),
            r.passed == count_passed(results@),
            r.failed == results@.len() - count_passed(results@),
            r.passed + r.failed == r.total_tasks,
            r.wf(),
    {
        let total_tasks: usize = results.len();
        let mut passed: usize = 0;
        let mut duration: u64 = 0;
        let n: usize = results.len();
        let mut i: usize = 0;
        while i < n
            invariant
                i <= n,
                n == results@.len(),
                passed == count_passed(results@.take(i as int)),
                passed <= i,
                duration == if sum_duration_ms(results@.take(i as int)) <= u64::MAX {
                    sum_duration_ms(results@.take(i as int))
                } else {
                    u64::MAX as int
                },
            decreases n - i,
        {
            proof {
                assert(results@.take(i as int + 1).drop_last() =~= results@.take(i as int));
                assert(results@.take(i as int + 1).last() == results@[i as int]);
            }
            if results[i].success {
                passed += 1;
            }
            let d: u64 = results[i].duration_ms;
            if u64::MAX - duration < d {
                duration = u64::MAX;
            } else {
                duration += d;
            }
            i += 1;
        }
        proof {
            assert(results@.take(n as int) =~= results@);
            lemma_count_passed_bound(results@);
        }
        let failed: usize = total_tasks - passed;
        SuiteResults {
            agent,
            results,
            total_tasks,
            passed,
            failed,
            total_duration_ms: duration,
            timestamp: now_timestamp(),
        }
    }

    /// Pass rate in basis points (hundredths of a percent), rounded
    /// down; 0 when there are no tasks.
    pub fn pass_rate_basis_points(&self) -> (r: u64)
        requires
            self.wf(),
        ensures
            r == if self.total_tasks == 0 {
                0int
            } else {
                (self.passed * 10000) / (self.total_tasks as int)
            },
    {
        if self.total_tasks == 0 {
            0
        } else {
            proof {
                lemma_count_passed_bound(self.results@);
                assert((self.passed * 10000) / (self.total_tasks as int) <= 10000) by (nonlinear_arith)
                    requires
                        0 < self.total_tasks,
                        0 <= self.passed <= self.total_tasks,
                ;
            }
            ((self.passed as u128 * 10000) / (self.total_tasks as u128)) as u64
        }
    }

    /// Deterministic file name for the suite record:
    /// `suite_{agent}_{timestamp}.json`.
    pub fn file_name(&self) -> (r: String)
        ensures
            r@ == "suite_"@ + self.agent@ + "_"@ + self.timestamp.compact@ + ".json"@,
    {
        let mut s = "suite_".to_owned();
        s.append(self.agent.as_str());
        s.append("_");
        s.append(self.timestamp.compact.as_str());
        s.append(".json");
        s
    }
}

/// The suite-level accounting law: in any well-formed suite record the
/// passed and failed counts partition the total.
pub proof fn lemma_suite_counts_partition(s: SuiteResults)
    requires
        s.wf(),
    ensures
        s.passed + s.failed == s.total_tasks,
        s.passed == count_passed(s.results@),
        s.total_tasks == s.results@.len(),
{
    lemma_count_passed_bound(s.results@);
}

} // verus!
