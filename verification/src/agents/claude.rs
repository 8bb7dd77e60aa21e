//! The subprocess-driven agent adapter: permission-flag mapping,
//! per-turn command construction, output merging, and the multi-turn
//! completion decision. Process invocation itself stays with the
//! caller; every decision about what to run and when to stop is made
//! (and verified) here.

use vstd::prelude::*;

use crate::agents::AgentResult;
use crate::task::{PermissionsConfig, Task};
use crate::text::{contains_seq, join_seqs, join_with, str_contains};

verus! {

/// Hard cap, in seconds, on a single-turn agent invocation.
pub const SINGLE_TURN_TIMEOUT_SECS: u64 = 300;

/// Delay, in seconds, between non-terminal turns of a multi-turn run.
pub const INTER_TURN_DELAY_SECS: u64 = 2;

/// Adapter for the external coding-agent CLI.
#[derive(Debug, Clone)]
pub struct ClaudeAgent {
    /// Maximum iterations for the agent.
    pub max_iterations: u32,
}

/// The capability names allowed by a permission profile, in the order
/// they are emitted.
pub open spec fn spec_allowed_tools(p: PermissionsConfig) -> Seq<Seq<char>> {
    (if p.read {
        seq!["Read"@, "Glob"@, "Grep"@]
    } else {
        Seq::<Seq<char>>::empty()
    }) + (if p.write {
        seq!["Write"@, "Edit"@]
    } else {
        Seq::<Seq<char>>::empty()
    }) + (if p.bash {
        seq!["Bash"@]
    } else {
        Seq::<Seq<char>>::empty()
    }) + (if p.web_fetch {
        seq!["WebFetch"@, "WebSearch"@]
    } else {
        Seq::<Seq<char>>::empty()
    })
}

/// The permission-mode arguments: an explicit mode is passed through
/// verbatim; otherwise any enabled mutating capability selects the
/// auto-approve mode.
pub open spec fn spec_mode_args(p: PermissionsConfig) -> Seq<Seq<char>> {
    match p.mode {
        Some(m) => seq!["--permission-mode"@, m@],
        None => if p.write || p.bash || p.web_fetch {
            seq!["--permission-mode"@, "dontAsk"@]
        } else {
            Seq::<Seq<char>>::empty()
        },
    }
}

/// The full permission-derived argument list: mode arguments, then the
/// comma-joined allow-list (emitted only when non-empty).
pub open spec fn spec_permission_args(p: PermissionsConfig) -> Seq<Seq<char>> {
    spec_mode_args(p) + if spec_allowed_tools(p).len() == 0 {
        Seq::<Seq<char>>::empty()
    } else {
        seq!["--allowedTools"@, join_seqs(spec_allowed_tools(p), ","@)]
    }
}

/// The permission flags as one display string, for logging.
pub open spec fn spec_permission_flags(p: PermissionsConfig) -> Seq<char> {
    let mode_part = match p.mode {
        Some(m) => "--permission-mode "@ + m@,
        None => if p.write || p.bash || p.web_fetch {
            "--permission-mode dontAsk"@
        } else {
            Seq::<char>::empty()
        },
    };
    let tools = spec_allowed_tools(p);
    let tools_part = if tools.len() == 0 {
        Seq::<char>::empty()
    } else {
        "--allowedTools '"@ + join_seqs(tools, ","@) + "'"@
    };
    if mode_part.len() == 0 {
        tools_part
    } else if tools_part.len() == 0 {
        mode_part
    } else {
        mode_part + " "@ + tools_part
    }
}

/// The prompt issued on a given turn: the task prompt first, then the
/// fixed continuation instruction.
pub open spec fn spec_turn_prompt(task_prompt: Seq<char>, turn: u32) -> Seq<char> {
    if turn == 0 {
        task_prompt
    } else {
        "Please continue with the task. Check if verification passes. If there are errors, fix them and retry."@
    }
}

/// The argument list for one turn: permission flags, a continuation
/// flag on later turns, then the prompt.
pub open spec fn spec_turn_args(task: Task, turn: u32) -> Seq<Seq<char>> {
    spec_permission_args(task.permissions) + (if turn == 0 {
        Seq::<Seq<char>>::empty()
    } else {
        seq!["--continue"@]
    }) + seq!["-p"@, spec_turn_prompt(task.prompt@, turn)]
}

/// Merged process output: stdout alone, or stdout with a labeled
/// stderr section.
pub open spec fn spec_merged_output(stdout: Seq<char>, stderr: Seq<char>) -> Seq<char> {
    if stderr.len() == 0 {
        stdout
    } else {
        stdout + "\n\nSTDERR:\n"@ + stderr
    }
}

/// What a finished or continuing multi-turn run looks like after one
/// turn's process has exited.
#[derive(Debug)]
pub enum TurnVerdict {
    /// The run is over; this is the adapter's result.
    Finished(AgentResult),
    /// Issue another turn.
    Continue,
}

impl ClaudeAgent {
    /// Create a new agent with a single-turn budget.
    pub fn new() -> (r: Self)
        ensures
            r.max_iterations == 1,
    {
        ClaudeAgent { max_iterations: 1 }
    }

    /// Create a new agent with a custom iteration budget.
    pub fn with_max_iterations(max_iterations: u32) -> (r: Self)
        ensures
            r.max_iterations == max_iterations,
    {
        ClaudeAgent { max_iterations }
    }

    /// The agent's name.
    pub fn name(&self) -> (r: &'static str)
        ensures
            r@ == "coder"@,
    {
        "coder"
    }

    /// The allow-list of capability names for a permission profile.
    pub fn allowed_tools(p: &PermissionsConfig) -> (r: Vec<String>)
        ensures
            r@.map_values(|t: String| t@) == spec_allowed_tools(*p),
    {
        let ghost g1 = if p.read {
            seq!["Read"@, "Glob"@, "Grep"@]
        } else {
            Seq::<Seq<char>>::empty()
        };
        let ghost g2 = if p.write {
            seq!["Write"@, "Edit"@]
        } else {
            Seq::<Seq<char>>::empty()
        };
        let ghost g3 = if p.bash {
            seq!["Bash"@]
        } else {
            Seq::<Seq<char>>::empty()
        };
        let ghost g4 = if p.web_fetch {
            seq!["WebFetch"@, "WebSearch"@]
        } else {
            Seq::<Seq<char>>::empty()
        };
        let mut tools: Vec<String> = Vec::new();
        if p.read {
            tools.push("Read".to_owned());
            tools.push("Glob".to_owned());
            tools.push("Grep".to_owned());
        }
        proof {
            assert(tools@.map_values(|t: String| t@) =~= g1);
        }
        if p.write {
            tools.push("Write".to_owned());
            tools.push("Edit".to_owned());
        }
        proof {
            assert(tools@.map_values(|t: String| t@) =~= g1 + g2);
        }
        if p.bash {
            tools.push("Bash".to_owned());
        }
        proof {
            assert(tools@.map_values(|t: String| t@) =~= g1 + g2 + g3);
        }
        if p.web_fetch {
            tools.push("WebFetch".to_owned());
            tools.push("WebSearch".to_owned());
        }
        proof {
            assert(tools@.map_values(|t: String| t@) =~= g1 + g2 + g3 + g4);
            assert(g1 + g2 + g3 + g4 =~= spec_allowed_tools(*p));
        }
        tools
    }

    /// The permission-derived CLI arguments for a task.
    pub fn permission_args(task: &Task) -> (r: Vec<String>)
        ensures
            r@.map_values(|t: String| t@) == spec_permission_args(task.permissions),
    {
        let mut args: Vec<String> = Vec::new();
        match &task.permissions.mode {
            Some(m) => {
                args.push("--permission-mode".to_owned());
                args.push(m.clone());
            },
            None => {
                if task.permissions.write || task.permissions.bash || task.permissions.web_fetch {
                    args.push("--permission-mode".to_owned());
                    args.push("dontAsk".to_owned());
                }
            },
        }
        proof {
            assert(args@.map_values(|t: String| t@) =~= spec_mode_args(task.permissions));
        }
        let tools = Self::allowed_tools(&task.permissions);
        let ghost mode_done = args@.map_values(|t: String| t@);
        if tools.len() > 0 {
            args.push("--allowedTools".to_owned());
            let joined = join_with(&tools, ",");
            args.push(joined);
            proof {
                assert(spec_allowed_tools(task.permissions).len() > 0);
                assert(args@.map_values(|t: String| t@) =~= mode_done + seq![
                    "--allowedTools"@,
                    join_seqs(spec_allowed_tools(task.permissions), ","@),
                ]);
            }
        } else {
            proof {
                assert(spec_allowed_tools(task.permissions).len() == 0);
                assert(args@.map_values(|t: String| t@) =~= mode_done
                    + Seq::<Seq<char>>::empty());
            }
        }
        args
    }

    /// The permission flags as one string, for logging.
    pub fn get_permission_flags(task: &Task) -> (r: String)
        ensures
            r@ == spec_permission_flags(task.permissions),
    {
        proof {
            reveal_strlit("--permission-mode ");
            reveal_strlit("--permission-mode dontAsk");
        }
        let ghost mode_part: Seq<char> = match &task.permissions.mode {
            Some(m) => "--permission-mode "@ + m@,
            None => if task.permissions.write || task.permissions.bash
                || task.permissions.web_fetch {
                "--permission-mode dontAsk"@
            } else {
                Seq::<char>::empty()
            },
        };
        let mut flags = String::new();
        match &task.permissions.mode {
            Some(m) => {
                flags.append("--permission-mode ");
                flags.append(m.as_str());
            },
            None => {
                if task.permissions.write || task.permissions.bash || task.permissions.web_fetch {
                    flags.append("--permission-mode dontAsk");
                }
            },
        }
        proof {
            assert(flags@ =~= mode_part);
        }
        let tools = Self::allowed_tools(&task.permissions);
        let ghost tools_view = spec_allowed_tools(task.permissions);
        if tools.len() > 0 {
            if !flags.as_str().is_empty() {
                flags.append(" ");
            }
            flags.append("--allowedTools '");
            let joined = join_with(&tools, ",");
            flags.append(joined.as_str());
            flags.append("'");
            proof {
                reveal_strlit("--allowedTools '");
                let tools_part = "--allowedTools '"@ + join_seqs(tools_view, ","@) + "'"@;
                assert(tools_part.len() > 0);
                if mode_part.len() == 0 {
                    assert(flags@ =~= tools_part);
                } else {
                    assert(flags@ =~= mode_part + " "@ + tools_part);
                }
                assert(flags@ == spec_permission_flags(task.permissions));
            }
        } else {
            proof {
                assert(tools_view.len() == 0);
                if mode_part.len() == 0 {
                    assert(flags@ =~= Seq::<char>::empty());
                }
                assert(flags@ == spec_permission_flags(task.permissions));
            }
        }
        flags
    }

    /// The prompt to issue on the given turn.
    pub fn turn_prompt(task: &Task, turn: u32) -> (r: String)
        ensures
            r@ == spec_turn_prompt(task.prompt@, turn),
    {
        if turn == 0 {
            task.prompt.clone()
        } else {
            "Please continue with the task. Check if verification passes. If there are errors, fix them and retry.".to_owned()
        }
    }

    /// The full CLI argument list for the given turn.
    pub fn turn_args(task: &Task, turn: u32) -> (r: Vec<String>)
        ensures
            r@.map_values(|t: String| t@) == spec_turn_args(*task, turn),
    {
        let mut args = Self::permission_args(task);
        let ghost perm = args@.map_values(|t: String| t@);
        if turn > 0 {
            args.push("--continue".to_owned());
        }
        args.push("-p".to_owned());
        args.push(Self::turn_prompt(task, turn));
        proof {
            if turn > 0 {
                assert(args@.map_values(|t: String| t@) =~= perm + seq!["--continue"@] + seq![
                    "-p"@,
                    spec_turn_prompt(task.prompt@, turn),
                ]);
            } else {
                assert(args@.map_values(|t: String| t@) =~= perm + Seq::<Seq<char>>::empty()
                    + seq!["-p"@, spec_turn_prompt(task.prompt@, turn)]);
            }
        }
        args
    }

    /// Merge a process's captured streams into the adapter's output:
    /// never stderr alone, never silently dropped.
    pub fn merge_output(stdout: String, stderr: &str) -> (r: String)
        ensures
            r@ == spec_merged_output(stdout@, stderr@),
    {
        if stderr.is_empty() {
            stdout
        } else {
            let mut s = stdout;
            s.append("\n\nSTDERR:\n");
            s.append(stderr);
            s
        }
    }

    /// Decide, after one turn's process has exited, whether the run is
    /// finished and with what result. `turn` counts from zero, and
    /// `output` is the turn's merged output.
    ///
    /// In single-turn mode the one invocation always finishes the run,
    /// successfully exactly when the process exited cleanly. In
    /// multi-turn mode the run finishes early (successfully) when a
    /// clean exit's output carries the completion sentinel, and
    /// finishes unsuccessfully when the iteration budget is exhausted.
    /// A finished run always reports between 1 and `max_iterations`
    /// iterations.
    pub fn turn_outcome(&self, turn: u32, exit_ok: bool, output: String) -> (r: TurnVerdict)
        requires
            turn < self.max_iterations,
        ensures
            self.max_iterations == 1 ==> (r matches TurnVerdict::Finished(a) && a.success
                == exit_ok && a.output == output && a.iterations == 1 && a.tokens_used is None),
            self.max_iterations > 1 && exit_ok && contains_seq(output@, "DONE"@) ==> (r matches
                TurnVerdict::Finished(a) && a.success && a.output == output && a.iterations == turn
                + 1 && a.tokens_used is None),
            self.max_iterations > 1 && !(exit_ok && contains_seq(output@, "DONE"@)) && turn + 1
                == self.max_iterations ==> (r matches TurnVerdict::Finished(a) && !a.success
                && a.output == output && a.iterations == self.max_iterations && a.tokens_used
                is None),
            self.max_iterations > 1 && !(exit_ok && contains_seq(output@, "DONE"@)) && turn + 1
                < self.max_iterations ==> r is Continue,
            r matches TurnVerdict::Finished(a) ==> 1 <= a.iterations <= self.max_iterations,
    {
        if self.max_iterations == 1 {
            return TurnVerdict::Finished(
                AgentResult { success: exit_ok, output, iterations: 1, tokens_used: None },
            );
        }
        let done = exit_ok && str_contains(output.as_str(), "DONE");
        if done {
            TurnVerdict::Finished(
                AgentResult { success: true, output, iterations: turn + 1, tokens_used: None },
            )
        } else if turn + 1 == self.max_iterations {
            TurnVerdict::Finished(
                AgentResult {
                    success: false,
                    output,
                    iterations: self.max_iterations,
                    tokens_used: None,
                },
            )
        } else {
            TurnVerdict::Continue
        }
    }
}

impl Default for ClaudeAgent {
    fn default() -> (r: Self)
        ensures
            r.max_iterations == 1,
    {
        ClaudeAgent::new()
    }
}

} // verus!
