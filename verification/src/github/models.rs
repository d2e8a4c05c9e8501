//! Data models returned by the GitHub API client.
//!
//! Points in time are Unix timestamps in whole seconds (`i64`), as GitHub
//! reports them; instants of the local monotonic clock are milliseconds
//! (`u64`) since a starting point that the caller chooses.

use vstd::prelude::*;

use crate::text::{same_text, string_of};

verus! {

// ── Repository ────────────────────────────────────────────────────────────────

/// Summary of a repository shown on the dashboard.
#[derive(Debug, Clone)]
pub struct RepoSummary {
    pub owner: String,
    pub name: String,
    pub description: Option<String>,
    pub default_branch: String,
    pub stars: u32,
    pub forks: u32,
    pub open_pr_count: u32,
    pub open_issue_count: u32,
    pub language: Option<String>,
    pub visibility: String,
}

// ── Commits ───────────────────────────────────────────────────────────────────

/// A single commit summary.
#[derive(Debug, Clone)]
pub struct CommitSummary {
    pub sha: String,
    pub short_sha: String,
    pub message: String,
    pub author: String,
    /// Unix timestamp, in seconds.
    pub timestamp: i64,
}

// ── Pull Requests ─────────────────────────────────────────────────────────────

/// Lightweight PR summary for list views.
#[derive(Debug, Clone)]
pub struct PrSummary {
    pub number: u64,
    pub title: String,
    pub author: String,
    pub head_branch: String,
    /// Unix timestamp, in seconds.
    pub updated_at: i64,
}

/// Detailed PR data for the PR view.
#[derive(Debug, Clone)]
pub struct PrDetail {
    pub number: u64,
    pub title: String,
    pub author: String,
    pub head_branch: String,
    pub base_branch: String,
    pub body: Option<String>,
    /// Unix timestamp, in seconds.
    pub created_at: i64,
    /// Unix timestamp, in seconds.
    pub updated_at: i64,
    pub mergeable_state: MergeableState,
    pub reviewers: Vec<ReviewerStatus>,
    pub check_runs: Vec<CheckRun>,
    pub changed_files: Vec<ChangedFile>,
}

/// Mergeable state of a pull request.
#[derive(Debug, Clone, Copy, PartialEq, Eq, Structural)]
pub enum MergeableState {
    Mergeable,
    Conflicting,
    Unknown,
}

/// Someone asked to approve a pull request, and where their verdict stands.
#[derive(Debug, Clone)]
pub struct ReviewerStatus {
    pub login: String,
    pub state: ReviewState,
}

/// Where an approval request on a pull request stands.
#[derive(Debug, Clone, Copy, PartialEq, Eq, Structural)]
pub enum ReviewState {
    Approved,
    ChangesRequested,
    Commented,
    Pending,
    Dismissed,
}

/// A check run on a PR.
#[derive(Debug, Clone)]
pub struct CheckRun {
    pub name: String,
    pub status: RunStatus,
    pub conclusion: Option<RunConclusion>,
}

/// A file changed in a PR.
#[derive(Debug, Clone)]
pub struct ChangedFile {
    pub filename: String,
    pub change_type: FileChangeType,
    pub additions: u32,
    pub deletions: u32,
}

/// Type of file change.
#[derive(Debug, Clone, Copy, PartialEq, Eq, Structural)]
pub enum FileChangeType {
    Added,
    Modified,
    Deleted,
    Renamed,
    Copied,
    Other,
}

// ── Actions ───────────────────────────────────────────────────────────────────

/// Summary of a workflow run for list views.
#[derive(Debug, Clone)]
pub struct WorkflowRunSummary {
    pub id: u64,
    pub workflow_name: String,
    pub run_number: u64,
    pub event: String,
    pub actor: String,
    pub head_branch: String,
    pub head_commit_message: String,
    pub status: RunStatus,
    pub conclusion: Option<RunConclusion>,
    /// Unix timestamp, in seconds.
    pub created_at: i64,
    /// Unix timestamp, in seconds.
    pub updated_at: i64,
    /// Owner/repo string, populated in cross-repo views.
    pub repo: Option<String>,
}

/// Status of a run, job, or step.
#[derive(Debug, Clone, Copy, PartialEq, Eq, Structural)]
pub enum RunStatus {
    Queued,
    InProgress,
    Completed,
    Waiting,
    Unknown,
}

/// The text GitHub uses for a status.
pub open spec fn status_text(s: RunStatus) -> Seq<char> {
    match s {
        RunStatus::Queued => "queued"@,
        RunStatus::InProgress => "in_progress"@,
        RunStatus::Completed => "completed"@,
        RunStatus::Waiting => "waiting"@,
        RunStatus::Unknown => "unknown"@,
    }
}

/// The status that GitHub's text `s` names; any other text is `Unknown`.
pub open spec fn status_named(s: Seq<char>) -> RunStatus {
    if s == "queued"@ {
        RunStatus::Queued
    } else if s == "in_progress"@ {
        RunStatus::InProgress
    } else if s == "completed"@ {
        RunStatus::Completed
    } else if s == "waiting"@ {
        RunStatus::Waiting
    } else {
        RunStatus::Unknown
    }
}

impl RunStatus {
    /// The text GitHub uses for this status.
    pub fn to_text(&self) -> (r: String)
        ensures
            r@ == status_text(*self),
    {
        match self {
            RunStatus::Queued => string_of("queued"),
            RunStatus::InProgress => string_of("in_progress"),
            RunStatus::Completed => string_of("completed"),
            RunStatus::Waiting => string_of("waiting"),
            RunStatus::Unknown => string_of("unknown"),
        }
    }
}

/// Conclusion of a completed run, job, step, or check.
#[derive(Debug, Clone, PartialEq, Eq)]
pub enum RunConclusion {
    Success,
    Failure,
    Cancelled,
    Skipped,
    TimedOut,
    ActionRequired,
    Neutral,
    Other(String),
}

/// The text GitHub uses for a conclusion; `Other` carries its own text.
pub open spec fn conclusion_text(c: RunConclusion) -> Seq<char> {
    match c {
        RunConclusion::Success => "success"@,
        RunConclusion::Failure => "failure"@,
        RunConclusion::Cancelled => "cancelled"@,
        RunConclusion::Skipped => "skipped"@,
        RunConclusion::TimedOut => "timed_out"@,
        RunConclusion::ActionRequired => "action_required"@,
        RunConclusion::Neutral => "neutral"@,
        RunConclusion::Other(t) => t@,
    }
}

/// One of the conclusion texts that GitHub defines.
pub open spec fn is_known_conclusion(s: Seq<char>) -> bool {
    s == "success"@ || s == "failure"@ || s == "cancelled"@ || s == "skipped"@ || s
        == "timed_out"@ || s == "action_required"@ || s == "neutral"@
}

/// `c` is the conclusion that GitHub's text `s` names: a known text gives its
/// variant, any other text is kept in `Other`.
pub open spec fn conclusion_named(s: Seq<char>, c: RunConclusion) -> bool {
    if s == "success"@ {
        c is Success
    } else if s == "failure"@ {
        c is Failure
    } else if s == "cancelled"@ {
        c is Cancelled
    } else if s == "skipped"@ {
        c is Skipped
    } else if s == "timed_out"@ {
        c is TimedOut
    } else if s == "action_required"@ {
        c is ActionRequired
    } else if s == "neutral"@ {
        c is Neutral
    } else {
        c matches RunConclusion::Other(t) && t@ == s
    }
}

impl RunConclusion {
    /// The text GitHub uses for this conclusion.
    pub fn to_text(&self) -> (r: String)
        ensures
            r@ == conclusion_text(*self),
    {
        match self {
            RunConclusion::Success => string_of("success"),
            RunConclusion::Failure => string_of("failure"),
            RunConclusion::Cancelled => string_of("cancelled"),
            RunConclusion::Skipped => string_of("skipped"),
            RunConclusion::TimedOut => string_of("timed_out"),
            RunConclusion::ActionRequired => string_of("action_required"),
            RunConclusion::Neutral => string_of("neutral"),
            RunConclusion::Other(s) => s.clone(),
        }
    }
}

/// Parse GitHub's text for a run status.
pub fn parse_run_status(s: &str) -> (r: RunStatus)
    ensures
        r == status_named(s@),
{
    if same_text(s, "queued") {
        RunStatus::Queued
    } else if same_text(s, "in_progress") {
        RunStatus::InProgress
    } else if same_text(s, "completed") {
        RunStatus::Completed
    } else if same_text(s, "waiting") {
        RunStatus::Waiting
    } else {
        RunStatus::Unknown
    }
}

/// Parse GitHub's text for a run conclusion.
pub fn parse_run_conclusion(s: &str) -> (r: RunConclusion)
    ensures
        conclusion_named(s@, r),
{
    if same_text(s, "success") {
        RunConclusion::Success
    } else if same_text(s, "failure") {
        RunConclusion::Failure
    } else if same_text(s, "cancelled") {
        RunConclusion::Cancelled
    } else if same_text(s, "skipped") {
        RunConclusion::Skipped
    } else if same_text(s, "timed_out") {
        RunConclusion::TimedOut
    } else if same_text(s, "action_required") {
        RunConclusion::ActionRequired
    } else if same_text(s, "neutral") {
        RunConclusion::Neutral
    } else {
        RunConclusion::Other(string_of(s))
    }
}

/// A job within a workflow run.
#[derive(Debug, Clone)]
pub struct JobSummary {
    pub id: u64,
    pub name: String,
    pub runner_type: Option<String>,
    pub status: RunStatus,
    pub conclusion: Option<RunConclusion>,
    /// Unix timestamp, in seconds.
    pub started_at: Option<i64>,
    /// Unix timestamp, in seconds.
    pub completed_at: Option<i64>,
    pub steps: Vec<StepSummary>,
}

/// A step within a job.
#[derive(Debug, Clone)]
pub struct StepSummary {
    pub name: String,
    pub number: u64,
    pub status: RunStatus,
    pub conclusion: Option<RunConclusion>,
    /// Unix timestamp, in seconds.
    pub started_at: Option<i64>,
    /// Unix timestamp, in seconds.
    pub completed_at: Option<i64>,
}

// ── Rate Limiting ─────────────────────────────────────────────────────────────

/// Current GitHub API rate limit state.
#[derive(Debug, Clone, Copy)]
pub struct RateLimitState {
    /// Remaining requests in the current window.
    pub remaining: Option<u32>,
    /// Total limit for the window.
    pub limit: Option<u32>,
    /// When the window resets, in milliseconds of the local monotonic clock.
    pub reset_at: Option<u64>,
    /// Whether we are currently blocked due to rate limiting.
    pub is_blocked: bool,
}

impl Default for RateLimitState {
    fn default() -> (r: Self)
        ensures
            r == (RateLimitState { remaining: None, limit: None, reset_at: None, is_blocked: false }),
    {
        RateLimitState { remaining: None, limit: None, reset_at: None, is_blocked: false }
    }
}

// ── Laws ──────────────────────────────────────────────────────────────────────

/// Parsing the text of a status gives the status back.
pub proof fn law_status_text_round_trip(s: RunStatus)
    ensures
        status_named(status_text(s)) == s,
{
    reveal_strlit("queued");
    reveal_strlit("in_progress");
    reveal_strlit("completed");
    reveal_strlit("waiting");
    reveal_strlit("unknown");
    assert("queued"@[0] != "in_progress"@[0]);
    assert("queued"@[0] != "completed"@[0]);
    assert("queued"@[0] != "waiting"@[0]);
    assert("queued"@[0] != "unknown"@[0]);
    assert("in_progress"@[0] != "completed"@[0]);
    assert("in_progress"@[0] != "waiting"@[0]);
    assert("completed"@[0] != "waiting"@[0]);
    assert("waiting"@[0] != "unknown"@[0]);
    assert("in_progress"@[0] != "unknown"@[0]);
    assert("completed"@[0] != "unknown"@[0]);
}

/// Parsing the text of a conclusion gives the conclusion back, except for an
/// `Other` whose text is one of the known conclusion texts.
pub proof fn law_conclusion_text_round_trip(c: RunConclusion)
    requires
        c matches RunConclusion::Other(t) ==> !is_known_conclusion(t@),
    ensures
        conclusion_named(conclusion_text(c), c),
{
    reveal_strlit("success");
    reveal_strlit("failure");
    reveal_strlit("cancelled");
    reveal_strlit("skipped");
    reveal_strlit("timed_out");
    reveal_strlit("action_required");
    reveal_strlit("neutral");
    assert("success"@[0] != "failure"@[0]);
    assert("success"@[0] != "cancelled"@[0]);
    assert("success"@[1] != "skipped"@[1]);
    assert("success"@[0] != "timed_out"@[0]);
    assert("success"@[0] != "action_required"@[0]);
    assert("success"@[0] != "neutral"@[0]);
    assert("failure"@[0] != "cancelled"@[0]);
    assert("failure"@[0] != "skipped"@[0]);
    assert("failure"@[0] != "timed_out"@[0]);
    assert("failure"@[0] != "action_required"@[0]);
    assert("failure"@[0] != "neutral"@[0]);
    assert("cancelled"@[0] != "skipped"@[0]);
    assert("cancelled"@[0] != "timed_out"@[0]);
    assert("cancelled"@[0] != "action_required"@[0]);
    assert("cancelled"@[0] != "neutral"@[0]);
    assert("skipped"@[0] != "timed_out"@[0]);
    assert("skipped"@[0] != "action_required"@[0]);
    assert("skipped"@[0] != "neutral"@[0]);
    assert("timed_out"@[0] != "action_required"@[0]);
    assert("timed_out"@[0] != "neutral"@[0]);
    assert("action_required"@[0] != "neutral"@[0]);
}

} // verus!
