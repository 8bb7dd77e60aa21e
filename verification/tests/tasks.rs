use agent_bench::error::BenchError;
use agent_bench::task::{
    Difficulty, PermissionsConfig, SourceConfig, Task, TaskCategory, TaskLoader, TaskMetadata,
    VerificationConfig,
};

fn make_task(id: &str) -> Task {
    Task {
        id: id.to_string(),
        title: "Test task".to_string(),
        category: TaskCategory::BugFix,
        difficulty: Difficulty::Easy,
        source: SourceConfig {
            repository: "https://github.com/example/repo".to_string(),
            commit: "abc123".to_string(),
        },
        prompt: "Fix the bug".to_string(),
        verification: VerificationConfig {
            verification_type: "pytest".to_string(),
            command: "pytest tests/".to_string(),
            timeout: 60,
        },
        permissions: PermissionsConfig::default(),
        metadata: TaskMetadata::default(),
    }
}

#[test]
fn test_task_validation() {
    let task = Task {
        id: "TEST-001".to_string(),
        title: "Test task".to_string(),
        category: TaskCategory::BugFix,
        difficulty: Difficulty::Easy,
        source: SourceConfig {
            repository: "https://github.com/example/repo".to_string(),
            commit: "abc123".to_string(),
        },
        prompt: "Fix the bug".to_string(),
        verification: VerificationConfig {
            verification_type: "pytest".to_string(),
            command: "pytest tests/".to_string(),
            timeout: 60,
        },
        permissions: PermissionsConfig::default(),
        metadata: TaskMetadata::default(),
    };

    assert!(task.validate().is_ok());
}

#[test]
fn test_task_validation_empty_id() {
    let task = Task {
        id: "".to_string(),
        title: "Test task".to_string(),
        category: TaskCategory::BugFix,
        difficulty: Difficulty::Easy,
        source: SourceConfig {
            repository: "https://github.com/example/repo".to_string(),
            commit: "abc123".to_string(),
        },
        prompt: "Fix the bug".to_string(),
        verification: VerificationConfig {
            verification_type: "pytest".to_string(),
            command: "pytest tests/".to_string(),
            timeout: 60,
        },
        permissions: PermissionsConfig::default(),
        metadata: TaskMetadata::default(),
    };

    assert!(task.validate().is_err());
}

#[test]
fn test_task_validation_missing_prompt() {
    // A task whose prompt is missing is rejected with the exact message
    // that discovery logs before skipping the file.
    let mut task = make_task("TEST-001");
    task.prompt = String::new();
    match task.validate() {
        Err(BenchError::InvalidTaskFormat(m)) => {
            assert_eq!(m, "Task prompt cannot be empty");
        }
        other => panic!("expected InvalidTaskFormat, got {:?}", other),
    }
}

#[test]
fn test_task_validation_reports_first_missing_field() {
    let mut task = make_task("TEST-001");
    task.source.commit = String::new();
    task.verification.command = String::new();
    match task.validate() {
        Err(BenchError::InvalidTaskFormat(m)) => {
            assert_eq!(m, "Source commit cannot be empty");
        }
        other => panic!("expected InvalidTaskFormat, got {:?}", other),
    }
}

#[test]
fn test_loader_selects_task_by_id() {
    let loader = TaskLoader::new("tasks".to_string());
    assert_eq!(loader.tasks_dir, "tasks");
    let tasks = vec![make_task("A-1"), make_task("B-2"), make_task("C-3")];
    let found = TaskLoader::load_by_id(tasks, "B-2").unwrap();
    assert_eq!(found.id, "B-2");
}

#[test]
fn test_loader_picks_first_of_duplicate_ids() {
    let mut first = make_task("D-1");
    first.title = "first".to_string();
    let mut second = make_task("D-1");
    second.title = "second".to_string();
    let found = TaskLoader::load_by_id(vec![first, second], "D-1").unwrap();
    assert_eq!(found.title, "first");
}

#[test]
fn test_loader_reports_missing_id() {
    let tasks = vec![make_task("A-1")];
    match TaskLoader::load_by_id(tasks, "Z-9") {
        Err(BenchError::TaskNotFound(id)) => assert_eq!(id, "Z-9"),
        other => panic!("expected TaskNotFound, got {:?}", other),
    }
}

#[test]
fn test_loader_lists_ids_in_order() {
    let tasks = vec![make_task("A-1"), make_task("B-2")];
    let ids = TaskLoader::list_ids(&tasks);
    assert_eq!(ids, vec!["A-1".to_string(), "B-2".to_string()]);
}

#[test]
fn test_category_and_difficulty_names() {
    assert_eq!(TaskCategory::BugFix.as_str(), "bug-fix");
    assert_eq!(TaskCategory::Feature.as_str(), "feature");
    assert_eq!(TaskCategory::Refactor.as_str(), "refactor");
    assert_eq!(TaskCategory::Tools.as_str(), "tools");
    assert_eq!(Difficulty::Easy.as_str(), "easy");
    assert_eq!(Difficulty::Medium.as_str(), "medium");
    assert_eq!(Difficulty::Hard.as_str(), "hard");
}

#[test]
fn test_default_permissions_profile() {
    let perms = PermissionsConfig::default();
    assert_eq!(perms.mode, None);
    assert!(perms.read);
    assert!(!perms.write);
    assert!(!perms.bash);
    assert!(!perms.web_fetch);
}
