use agent_bench::agents::claude::{ClaudeAgent, TurnVerdict};
use agent_bench::agents::AgentType;
use agent_bench::task::{
    Difficulty, PermissionsConfig, SourceConfig, Task, TaskCategory, TaskMetadata,
    VerificationConfig,
};

fn make_task(permissions: PermissionsConfig) -> Task {
    Task {
        id: "TEST-001".to_string(),
        title: "Test task".to_string(),
        category: TaskCategory::BugFix,
        difficulty: Difficulty::Easy,
        source: SourceConfig {
            repository: "https://github.com/example/repo".to_string(),
            commit: "abc123".to_string(),
        },
        prompt: "Fix the bug".to_string(),
        verification: VerificationConfig {
            verification_type: "pytest".to_string(),
            command: "pytest tests/".to_string(),
            timeout: 60,
        },
        permissions,
        metadata: TaskMetadata::default(),
    }
}

#[test]
fn test_claude_agent_creation() {
    let agent = ClaudeAgent::new();
    assert_eq!(agent.name(), "coder");
    assert_eq!(agent.max_iterations, 1);
}

#[test]
fn test_claude_agent_with_iterations() {
    let agent = ClaudeAgent::with_max_iterations(3);
    assert_eq!(agent.max_iterations, 3);
}

#[test]
fn test_agent_type_parses_known_name() {
    assert!(matches!(AgentType::from_name("coder"), Ok(AgentType::Claude)));
    assert!(matches!(AgentType::from_name("Coder"), Ok(AgentType::Claude)));
    assert!(matches!(AgentType::from_name("CODER"), Ok(AgentType::Claude)));
    assert_eq!(AgentType::Claude.as_str(), "coder");
}

#[test]
fn test_agent_type_rejects_unknown_name() {
    let err = AgentType::from_name("gpt-unknown").unwrap_err();
    assert_eq!(err, "Unknown agent type: gpt-unknown");
}

#[test]
fn test_permission_args_default_profile() {
    // Read-only default profile: no mode flag, read tools only.
    let task = make_task(PermissionsConfig::default());
    let args = ClaudeAgent::permission_args(&task);
    assert_eq!(args, vec!["--allowedTools".to_string(), "Read,Glob,Grep".to_string()]);
}

#[test]
fn test_permission_args_write_selects_auto_approve() {
    let mut perms = PermissionsConfig::default();
    perms.write = true;
    perms.bash = true;
    let task = make_task(perms);
    let args = ClaudeAgent::permission_args(&task);
    assert_eq!(
        args,
        vec![
            "--permission-mode".to_string(),
            "dontAsk".to_string(),
            "--allowedTools".to_string(),
            "Read,Glob,Grep,Write,Edit,Bash".to_string(),
        ]
    );
}

#[test]
fn test_permission_args_explicit_mode_passes_through() {
    let mut perms = PermissionsConfig::default();
    perms.mode = Some("plan".to_string());
    perms.read = false;
    let task = make_task(perms);
    let args = ClaudeAgent::permission_args(&task);
    assert_eq!(args, vec!["--permission-mode".to_string(), "plan".to_string()]);
}

#[test]
fn test_permission_flags_display_string() {
    let mut perms = PermissionsConfig::default();
    perms.web_fetch = true;
    let task = make_task(perms);
    let flags = ClaudeAgent::get_permission_flags(&task);
    assert_eq!(
        flags,
        "--permission-mode dontAsk --allowedTools 'Read,Glob,Grep,WebFetch,WebSearch'"
    );
}

#[test]
fn test_turn_args_first_and_later_turns() {
    let mut perms = PermissionsConfig::default();
    perms.read = false;
    let task = make_task(perms);
    let first = ClaudeAgent::turn_args(&task, 0);
    assert_eq!(first, vec!["-p".to_string(), "Fix the bug".to_string()]);
    let later = ClaudeAgent::turn_args(&task, 1);
    assert_eq!(
        later,
        vec![
            "--continue".to_string(),
            "-p".to_string(),
            "Please continue with the task. Check if verification passes. If there are errors, fix them and retry."
                .to_string(),
        ]
    );
}

#[test]
fn test_merge_output_keeps_stderr_labeled() {
    let merged = ClaudeAgent::merge_output("out".to_string(), "boom");
    assert_eq!(merged, "out\n\nSTDERR:\nboom");
    let clean = ClaudeAgent::merge_output("out".to_string(), "");
    assert_eq!(clean, "out");
}

#[test]
fn test_single_turn_finishes_on_exit_status() {
    let agent = ClaudeAgent::new();
    match agent.turn_outcome(0, true, "anything".to_string()) {
        TurnVerdict::Finished(a) => {
            assert!(a.success);
            assert_eq!(a.iterations, 1);
            assert_eq!(a.tokens_used, None);
        }
        TurnVerdict::Continue => panic!("single-turn run must finish"),
    }
    match agent.turn_outcome(0, false, "anything".to_string()) {
        TurnVerdict::Finished(a) => {
            assert!(!a.success);
            assert_eq!(a.iterations, 1);
        }
        TurnVerdict::Continue => panic!("single-turn run must finish"),
    }
}

#[test]
fn test_multi_turn_stops_on_sentinel() {
    let agent = ClaudeAgent::with_max_iterations(3);
    // No sentinel, clean exit: keep going.
    assert!(matches!(
        agent.turn_outcome(0, true, "still working".to_string()),
        TurnVerdict::Continue
    ));
    // Sentinel on a clean exit: finish early with the turns consumed.
    match agent.turn_outcome(1, true, "all DONE here".to_string()) {
        TurnVerdict::Finished(a) => {
            assert!(a.success);
            assert_eq!(a.iterations, 2);
        }
        TurnVerdict::Continue => panic!("sentinel must finish the run"),
    }
    // Sentinel in output of a failed exit does not finish early.
    assert!(matches!(
        agent.turn_outcome(1, false, "DONE".to_string()),
        TurnVerdict::Continue
    ));
}

#[test]
fn test_multi_turn_iterations_never_exceed_budget() {
    let agent = ClaudeAgent::with_max_iterations(3);
    // Budget exhausted without the sentinel: failure at exactly the cap.
    match agent.turn_outcome(2, true, "no sentinel".to_string()) {
        TurnVerdict::Finished(a) => {
            assert!(!a.success);
            assert_eq!(a.iterations, 3);
        }
        TurnVerdict::Continue => panic!("exhausted budget must finish the run"),
    }
}
