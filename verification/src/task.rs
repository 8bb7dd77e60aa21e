//! The benchmark task model: categories, difficulty, source, verification
//! and permission configuration, and validation of loaded tasks.

use vstd::prelude::*;

use crate::error::BenchError;
use crate::text::str_eq;

verus! {

/// Task category classification.
#[derive(Debug, Clone, PartialEq, Eq, Structural)]
pub enum TaskCategory {
    BugFix,
    Feature,
    Refactor,
    Tools,
}

impl TaskCategory {
    pub open spec fn spec_str(&self) -> Seq<char> {
        match self {
            TaskCategory::BugFix => "bug-fix"@,
            TaskCategory::Feature => "feature"@,
            TaskCategory::Refactor => "refactor"@,
            TaskCategory::Tools => "tools"@,
        }
    }

    /// The category's display name.
    pub fn as_str(&self) -> (r: &'static str)
        ensures
            r@ == self.spec_str(),
    {
        match self {
            TaskCategory::BugFix => "bug-fix",
            TaskCategory::Feature => "feature",
            TaskCategory::Refactor => "refactor",
            TaskCategory::Tools => "tools",
        }
    }
}

/// Task difficulty level.
#[derive(Debug, Clone, PartialEq, Eq, Structural)]
pub enum Difficulty {
    Easy,
    Medium,
    Hard,
}

impl Difficulty {
    pub open spec fn spec_str(&self) -> Seq<char> {
        match self {
            Difficulty::Easy => "easy"@,
            Difficulty::Medium => "medium"@,
            Difficulty::Hard => "hard"@,
        }
    }

    /// The difficulty's display name.
    pub fn as_str(&self) -> (r: &'static str)
        ensures
            r@ == self.spec_str(),
    {
        match self {
            Difficulty::Easy => "easy",
            Difficulty::Medium => "medium",
            Difficulty::Hard => "hard",
        }
    }
}

/// Source repository configuration.
#[derive(Debug, Clone)]
pub struct SourceConfig {
    /// Repository URL, or the sentinel "none" (or an empty string) when
    /// the task needs no repository.
    pub repository: String,
    /// Commit hash, branch name, or default-branch alias to check out.
    pub commit: String,
}

/// Verification configuration.
#[derive(Debug, Clone)]
pub struct VerificationConfig {
    /// Verification type tag (e.g., "pytest", "cargo-test").
    pub verification_type: String,
    /// Command to run for verification.
    pub command: String,
    /// Timeout in seconds.
    pub timeout: u64,
}

/// The default verification timeout, in seconds.
pub const DEFAULT_VERIFICATION_TIMEOUT: u64 = 60;

/// Agent permissions configuration.
#[derive(Debug, Clone)]
pub struct PermissionsConfig {
    /// Explicit permission mode, passed through verbatim when set.
    pub mode: Option<String>,
    /// Allow file write operations.
    pub write: bool,
    /// Allow file read operations (allowed by default).
    pub read: bool,
    /// Allow bash command execution.
    pub bash: bool,
    /// Allow web fetch operations.
    pub web_fetch: bool,
}

impl Default for PermissionsConfig {
    /// Everything off except read.
    fn default() -> (r: Self)
        ensures
            r.mode is None,
            !r.write,
            r.read,
            !r.bash,
            !r.web_fetch,
    {
        PermissionsConfig { mode: None, write: false, read: true, bash: false, web_fetch: false }
    }
}

/// Task metadata: free-form tags.
#[derive(Debug, Clone)]
pub struct TaskMetadata {
    /// Tags for categorization.
    pub tags: Vec<String>,
}

impl Default for TaskMetadata {
    fn default() -> (r: Self)
        ensures
            r.tags@ == Seq::<String>::empty(),
    {
        TaskMetadata { tags: Vec::new() }
    }
}

/// A benchmark task definition.
#[derive(Debug, Clone)]
pub struct Task {
    /// Unique identifier (e.g., BUG-001).
    pub id: String,
    /// Brief description.
    pub title: String,
    /// Task type.
    pub category: TaskCategory,
    /// Difficulty level.
    pub difficulty: Difficulty,
    /// Source repository configuration.
    pub source: SourceConfig,
    /// Task instructions for the agent.
    pub prompt: String,
    /// Verification configuration.
    pub verification: VerificationConfig,
    /// Agent permissions configuration.
    pub permissions: PermissionsConfig,
    /// Optional metadata.
    pub metadata: TaskMetadata,
}

impl Task {
    /// A well-formed task has no empty required field.
    pub open spec fn is_valid(&self) -> bool {
        &&& self.id@.len() > 0
        &&& self.title@.len() > 0
        &&& self.prompt@.len() > 0
        &&& self.source.repository@.len() > 0
        &&& self.source.commit@.len() > 0
        &&& self.verification.command@.len() > 0
    }

    /// The message reported for the first missing required field.
    pub open spec fn spec_validate_error(&self) -> Seq<char> {
        if self.id@.len() == 0 {
            "Task ID cannot be empty"@
        } else if self.title@.len() == 0 {
            "Task title cannot be empty"@
        } else if self.prompt@.len() == 0 {
            "Task prompt cannot be empty"@
        } else if self.source.repository@.len() == 0 {
            "Source repository cannot be empty"@
        } else if self.source.commit@.len() == 0 {
            "Source commit cannot be empty"@
        } else {
            "Verification command cannot be empty"@
        }
    }

    /// Validate the task configuration: succeeds exactly on well-formed
    /// tasks, and otherwise reports the first missing field.
    pub fn validate(&self) -> (r: Result<(), BenchError>)
        ensures
            r is Ok <==> self.is_valid(),
            !self.is_valid() ==> (r matches Err(BenchError::InvalidTaskFormat(m)) && m@
                == self.spec_validate_error()),
    {
        if self.id.as_str().is_empty() {
            return Err(BenchError::InvalidTaskFormat("Task ID cannot be empty".to_owned()));
        }
        if self.title.as_str().is_empty() {
            return Err(BenchError::InvalidTaskFormat("Task title cannot be empty".to_owned()));
        }
        if self.prompt.as_str().is_empty() {
            return Err(BenchError::InvalidTaskFormat("Task prompt cannot be empty".to_owned()));
        }
        if self.source.repository.as_str().is_empty() {
            return Err(
                BenchError::InvalidTaskFormat("Source repository cannot be empty".to_owned()),
            );
        }
        if self.source.commit.as_str().is_empty() {
            return Err(BenchError::InvalidTaskFormat("Source commit cannot be empty".to_owned()));
        }
        if self.verification.command.as_str().is_empty() {
            return Err(
                BenchError::InvalidTaskFormat("Verification command cannot be empty".to_owned()),
            );
        }
        Ok(())
    }
}

/// Task loader: knows the tasks directory and the selection rules over
/// a set of loaded tasks.
pub struct TaskLoader {
    pub tasks_dir: String,
}

impl TaskLoader {
    /// Create a new task loader for the given directory.
    pub fn new(tasks_dir: String) -> (r: Self)
        ensures
            r.tasks_dir == tasks_dir,
    {
        TaskLoader { tasks_dir }
    }

    /// Select the first task with the given id, consuming the list;
    /// absent ids report `TaskNotFound`.
    pub fn load_by_id(tasks: Vec<Task>, id: &str) -> (r: Result<Task, BenchError>)
        ensures
            (r is Ok) <==> (exists|i: int| 0 <= i < tasks@.len() && tasks@[i].id@ == id@),
            r matches Ok(t) ==> exists|i: int|
                {
                    &&& 0 <= i < tasks@.len()
                    &&& t == tasks@[i]
                    &&& tasks@[i].id@ == id@
                    &&& forall|j: int| 0 <= j < i ==> tasks@[j].id@ != id@
                },
            r matches Err(BenchError::TaskNotFound(s)) ==> s@ == id@,
            (r is Err) ==> (r matches Err(BenchError::TaskNotFound(s)) && s@ == id@),
    {
        let n: usize = tasks.len();
        let mut i: usize = 0;
        while i < n
            invariant
                i <= n,
                n == tasks@.len(),
                forall|j: int| 0 <= j < i ==> tasks@[j].id@ != id@,
            decreases n - i,
        {
            if str_eq(tasks[i].id.as_str(), id) {
                let mut ts = tasks;
                let t = ts.remove(i);
                return Ok(t);
            }
            i += 1;
        }
        Err(BenchError::TaskNotFound(id.to_owned()))
    }

    /// The ids of the given tasks, in order.
    pub fn list_ids(tasks: &Vec<Task>) -> (ids: Vec<String>)
        ensures
            ids@.len() == tasks@.len(),
            forall|i: int| 0 <= i < tasks@.len() ==> ids@[i]@ == tasks@[i].id@,
    {
        let mut ids: Vec<String> = Vec::new();
        let n: usize = tasks.len();
        let mut i: usize = 0;
        while i < n
            invariant
                i <= n,
                n == tasks@.len(),
                ids@.len() == i,
                forall|j: int| 0 <= j < i ==> ids@[j]@ == tasks@[j].id@,
            decreases n - i,
        {
            ids.push(tasks[i].id.clone());
            i += 1;
        }
        ids
    }
}

} // verus!
