//! What the screen shows: the texts and tones of the dashboard rows, the
//! active runs, the list entries of the repository view, the pull request
//! view, the status bar, and the title and visible lines of the log viewer. Drawing them is left to the terminal front end.

use vstd::prelude::*;
use vstd::view::View as _;

use crate::app_state::RepoData;
use crate::github::models::{
    conclusion_text, status_text, CommitSummary, MergeableState, PrDetail, PrSummary,
    RateLimitState, RunConclusion, RunStatus, WorkflowRunSummary,
};
use crate::navigation::LogViewerState;
use crate::text::{decimal, push_decimal, push_signed_decimal, push_str, signed_decimal, string_of};

verus! {

// ── Run status ────────────────────────────────────────────────────────────────

/// The label of a run: its conclusion once completed, its status otherwise.
pub open spec fn run_status_label(status: RunStatus, conclusion: Option<RunConclusion>) -> Seq<char> {
    match status {
        RunStatus::InProgress => "in_progress"@,
        RunStatus::Queued => "queued"@,
        RunStatus::Completed => match conclusion {
            Some(c) => conclusion_text(c),
            None => "completed"@,
        },
        _ => status_text(status),
    }
}

/// The label of a run: its conclusion once completed, its status otherwise.
pub fn format_run_status(status: &RunStatus, conclusion: &Option<RunConclusion>) -> (r: String)
    ensures
        r@ == run_status_label(*status, *conclusion),
{
    match status {
        RunStatus::InProgress => string_of("in_progress"),
        RunStatus::Queued => string_of("queued"),
        RunStatus::Completed => match conclusion {
            Some(c) => c.to_text(),
            None => string_of("completed"),
        },
        _ => status.to_text(),
    }
}

/// The tone a CI indicator is drawn in.
#[derive(Debug, Clone, Copy, PartialEq, Eq, Structural)]
pub enum CiTone {
    Muted,
    Warning,
    Success,
    Failure,
}

/// The CI indicator of a repository: the state of its latest run.
pub open spec fn ci_indicator(runs: Seq<WorkflowRunSummary>) -> Seq<char> {
    if runs.len() == 0 {
        "  -  "@
    } else {
        match runs[0].status {
            RunStatus::InProgress | RunStatus::Queued => " ... "@,
            RunStatus::Completed => match runs[0].conclusion {
                Some(RunConclusion::Success) => "  \u{2713}  "@,
                Some(RunConclusion::Failure) => "  \u{2717}  "@,
                Some(RunConclusion::Cancelled) => "  \u{2205}  "@,
                _ => "  -  "@,
            },
            _ => "  -  "@,
        }
    }
}

/// The tone of the CI indicator of a repository.
pub open spec fn ci_tone_of(runs: Seq<WorkflowRunSummary>) -> CiTone {
    if runs.len() == 0 {
        CiTone::Muted
    } else {
        match runs[0].status {
            RunStatus::InProgress | RunStatus::Queued => CiTone::Warning,
            RunStatus::Completed => match runs[0].conclusion {
                Some(RunConclusion::Success) => CiTone::Success,
                Some(RunConclusion::Failure) => CiTone::Failure,
                _ => CiTone::Muted,
            },
            _ => CiTone::Muted,
        }
    }
}

/// The CI indicator of a repository: the state of its latest run.
pub fn ci_status_indicator(runs: &[WorkflowRunSummary]) -> (r: String)
    ensures
        r@ == ci_indicator(runs@),
{
    if runs.len() == 0 {
        return string_of("  -  ");
    }
    let r = &runs[0];
    match r.status {
        RunStatus::InProgress | RunStatus::Queued => string_of(" ... "),
        RunStatus::Completed => match &r.conclusion {
            Some(RunConclusion::Success) => string_of("  \u{2713}  "),
            Some(RunConclusion::Failure) => string_of("  \u{2717}  "),
            Some(RunConclusion::Cancelled) => string_of("  \u{2205}  "),
            _ => string_of("  -  "),
        },
        _ => string_of("  -  "),
    }
}

/// The tone of the CI indicator of a repository.
pub fn ci_conclusion_tone(runs: &[WorkflowRunSummary]) -> (r: CiTone)
    ensures
        r == ci_tone_of(runs@),
{
    if runs.len() == 0 {
        return CiTone::Muted;
    }
    let r = &runs[0];
    match r.status {
        RunStatus::InProgress | RunStatus::Queued => CiTone::Warning,
        RunStatus::Completed => match &r.conclusion {
            Some(RunConclusion::Success) => CiTone::Success,
            Some(RunConclusion::Failure) => CiTone::Failure,
            _ => CiTone::Muted,
        },
        _ => CiTone::Muted,
    }
}

// ── Relative times ────────────────────────────────────────────────────────────

/// Seconds from `then` to `now`, kept within the range of `i64`.
pub open spec fn elapsed_secs(now: i64, then: i64) -> int {
    let d = now - then;
    if d > i64::MAX {
        i64::MAX as int
    } else if d < i64::MIN {
        i64::MIN as int
    } else {
        d
    }
}

/// How long ago something `secs` seconds old happened, in its largest unit.
pub open spec fn ago_text(secs: int) -> Seq<char> {
    if secs < 60 {
        signed_decimal(secs) + "s ago"@
    } else if secs < 3600 {
        decimal((secs / 60) as nat) + "m ago"@
    } else if secs < 86400 {
        decimal((secs / 3600) as nat) + "h ago"@
    } else {
        decimal((secs / 86400) as nat) + "d ago"@
    }
}

/// How long before `now` the time `then` was (both Unix timestamps in seconds).
pub fn format_relative_time(now: i64, then: i64) -> (r: String)
    ensures
        r@ == ago_text(elapsed_secs(now, then)),
{
    let wide: i128 = now as i128 - then as i128;
    let secs: i64 = if wide > i64::MAX as i128 {
        i64::MAX
    } else if wide < i64::MIN as i128 {
        i64::MIN
    } else {
        wide as i64
    };
    let mut r = String::new();
    if secs < 60 {
        push_signed_decimal(&mut r, secs);
        push_str(&mut r, "s ago");
    } else if secs < 3600 {
        push_decimal(&mut r, (secs / 60) as u64);
        push_str(&mut r, "m ago");
    } else if secs < 86400 {
        push_decimal(&mut r, (secs / 3600) as u64);
        push_str(&mut r, "h ago");
    } else {
        push_decimal(&mut r, (secs / 86400) as u64);
        push_str(&mut r, "d ago");
    }
    assert(r@ =~= ago_text(elapsed_secs(now, then)));
    r
}

// ── Dashboard ─────────────────────────────────────────────────────────────────

/// How a dashboard row is drawn.
#[derive(Debug, Clone, Copy, PartialEq, Eq, Structural)]
pub enum RowTone {
    /// The last fetch failed.
    Error,
    /// The first fetch has not finished.
    Loading,
    /// Data is shown; the CI cell takes the tone of the latest run.
    Normal(CiTone),
}

/// The cells of a dashboard row and how it is drawn.
#[derive(Debug, Clone)]
pub struct DashboardRow {
    pub cells: Vec<String>,
    pub tone: RowTone,
}

/// `n` characters of `s` at most.
pub open spec fn clipped(s: Seq<char>, n: nat) -> Seq<char> {
    if n <= s.len() {
        s.take(n as int)
    } else {
        s
    }
}

/// The cells of the dashboard row of `data`, given its fetch state, at `now`.
pub open spec fn dashboard_cells(
    data: RepoData,
    loading: bool,
    error: Option<String>,
    now: i64,
) -> Seq<Seq<char>> {
    if error is Some {
        seq![data.key@, "ERR"@, "-"@, "-"@, clipped(error->0@, 30)]
    } else if loading {
        seq![data.key@, "..."@, "..."@, "..."@, "Loading..."@]
    } else if data.summary is Some {
        seq![
            data.summary->0.name@,
            ci_indicator(data.workflow_runs@),
            decimal(data.summary->0.open_pr_count as nat),
            decimal(data.summary->0.open_issue_count as nat),
            if data.commits@.len() > 0 {
                ago_text(elapsed_secs(now, data.commits@[0].timestamp))
            } else {
                "-"@
            },
        ]
    } else {
        seq![data.key@, "-"@, "-"@, "-"@, "-"@]
    }
}

/// The tone of the dashboard row of `data`.
pub open spec fn dashboard_tone(data: RepoData, loading: bool, error: Option<String>) -> RowTone {
    if error is Some {
        RowTone::Error
    } else if loading {
        RowTone::Loading
    } else if data.summary is Some {
        RowTone::Normal(ci_tone_of(data.workflow_runs@))
    } else {
        RowTone::Normal(CiTone::Muted)
    }
}

/// The dashboard row of `data`; a repository without a fetch state counts as loading.
pub fn dashboard_row(
    data: &RepoData,
    fetch: Option<&crate::app_state::RepoFetchState>,
    now: i64,
) -> (r: DashboardRow)
    ensures
        r.cells@.len() == 5,
        forall|i: int|
            0 <= i < 5 ==> #[trigger] r.cells@[i]@ == dashboard_cells(
                *data,
                match fetch {
                    Some(f) => f.loading,
                    None => true,
                },
                match fetch {
                    Some(f) => f.error,
                    None => None,
                },
                now,
            )[i],
        r.tone == dashboard_tone(
            *data,
            match fetch {
                Some(f) => f.loading,
                None => true,
            },
            match fetch {
                Some(f) => f.error,
                None => None,
            },
        ),
        (fetch matches Some(f) && !f.loading && f.error is None) && data.summary is Some
            && data.commits@.len() > 0 ==> r.cells@[4]@ == ago_text(
            elapsed_secs(now, data.commits@[0].timestamp),
        ),
{
    let loading = match fetch {
        Some(f) => f.loading,
        None => true,
    };
    let error: Option<&String> = match fetch {
        Some(f) => f.error.as_ref(),
        None => None,
    };
    let mut cells: Vec<String> = Vec::new();
    if let Some(e) = error {
        cells.push(data.key.clone());
        cells.push(string_of("ERR"));
        cells.push(string_of("-"));
        cells.push(string_of("-"));
        cells.push(crate::text::take_chars(e.as_str(), 30));
        return DashboardRow { cells, tone: RowTone::Error };
    }
    if loading {
        cells.push(data.key.clone());
        cells.push(string_of("..."));
        cells.push(string_of("..."));
        cells.push(string_of("..."));
        cells.push(string_of("Loading..."));
        return DashboardRow { cells, tone: RowTone::Loading };
    }
    match &data.summary {
        Some(summary) => {
            cells.push(summary.name.clone());
            cells.push(ci_status_indicator(data.workflow_runs.as_slice()));
            let mut prs = String::new();
            push_decimal(&mut prs, summary.open_pr_count as u64);
            cells.push(prs);
            let mut issues = String::new();
            push_decimal(&mut issues, summary.open_issue_count as u64);
            cells.push(issues);
            if data.commits.len() > 0 {
                cells.push(format_relative_time(now, data.commits[0].timestamp));
            } else {
                cells.push(string_of("-"));
            }
            DashboardRow {
                cells,
                tone: RowTone::Normal(ci_conclusion_tone(data.workflow_runs.as_slice())),
            }
        },
        None => {
            cells.push(data.key.clone());
            cells.push(string_of("-"));
            cells.push(string_of("-"));
            cells.push(string_of("-"));
            cells.push(string_of("-"));
            DashboardRow { cells, tone: RowTone::Normal(CiTone::Muted) }
        },
    }
}

/// The run is still going: queued or in progress.
pub open spec fn run_is_active(r: WorkflowRunSummary) -> bool {
    r.status == RunStatus::InProgress || r.status == RunStatus::Queued
}

/// The active runs of the first `n` repositories, repository by repository.
pub open spec fn active_runs(data: Seq<RepoData>, n: nat) -> Seq<WorkflowRunSummary>
    decreases n,
{
    if n == 0 || n > data.len() {
        Seq::empty()
    } else {
        active_runs(data, (n - 1) as nat) + data[n - 1].workflow_runs@.filter(
            |r: WorkflowRunSummary| run_is_active(r),
        )
    }
}

/// The line of the active runs panel for run `r` at `now`.
pub open spec fn active_run_line(r: WorkflowRunSummary, now: i64) -> Seq<char> {
    "  "@ + (match r.repo {
        Some(k) => k@,
        None => "-"@,
    }) + "  "@ + r.workflow_name@ + "  "@ + r.event@ + "  ("@ + ago_text(
        elapsed_secs(now, r.created_at),
    ) + ")"@
}

/// The line of the active runs panel for run `r` at `now`.
pub fn format_active_run(r: &WorkflowRunSummary, now: i64) -> (s: String)
    ensures
        s@ == active_run_line(*r, now),
{
    let mut s = string_of("  ");
    match &r.repo {
        Some(k) => push_str(&mut s, k.as_str()),
        None => push_str(&mut s, "-"),
    }
    push_str(&mut s, "  ");
    push_str(&mut s, r.workflow_name.as_str());
    push_str(&mut s, "  ");
    push_str(&mut s, r.event.as_str());
    push_str(&mut s, "  (");
    let ago = format_relative_time(now, r.created_at);
    push_str(&mut s, ago.as_str());
    push_str(&mut s, ")");
    assert(s@ =~= active_run_line(*r, now));
    s
}

/// The lines of the active runs panel: one per queued or running run of any
/// repository, or a single note that there are none.
pub fn active_run_lines(data: &Vec<RepoData>, now: i64) -> (r: Vec<String>)
    ensures
        active_runs(data@, data@.len()).len() == 0 ==> r@.len() == 1 && r@[0]@ == "  No active runs"@,
        active_runs(data@, data@.len()).len() > 0 ==> r@.len() == active_runs(data@, data@.len()).len()
            && forall|i: int|
            0 <= i < r@.len() ==> #[trigger] r@[i]@ == active_run_line(
                active_runs(data@, data@.len())[i],
                now,
            ),
{
    let mut lines: Vec<String> = Vec::new();
    let mut k: usize = 0;
    while k < data.len()
        invariant
            k <= data@.len(),
            lines@.len() == active_runs(data@, k as nat).len(),
            forall|i: int|
                0 <= i < lines@.len() ==> #[trigger] lines@[i]@ == active_run_line(
                    active_runs(data@, k as nat)[i],
                    now,
                ),
        decreases data.len() - k,
    {
        let runs = &data[k].workflow_runs;
        let ghost before = active_runs(data@, k as nat);
        let ghost pred = |r: WorkflowRunSummary| run_is_active(r);
        let mut j: usize = 0;
        while j < runs.len()
            invariant
                k < data@.len(),
                pred == (|r: WorkflowRunSummary| run_is_active(r)),
                runs@ == data@[k as int].workflow_runs@,
                j <= runs@.len(),
                lines@.len() == before.len() + runs@.take(j as int).filter(pred).len(),
                forall|i: int|
                    0 <= i < lines@.len() ==> #[trigger] lines@[i]@ == active_run_line(
                        (before + runs@.take(j as int).filter(pred))[i],
                        now,
                    ),
            decreases runs.len() - j,
        {
            let r = &runs[j];
            let ghost prefix = runs@.take(j + 1);
            proof {
                assert(prefix.drop_last() =~= runs@.take(j as int));
                assert(prefix.last() == *r);
            }
            if r.status == RunStatus::InProgress || r.status == RunStatus::Queued {
                lines.push(format_active_run(r, now));
                assert(prefix.filter(pred) =~= runs@.take(j as int).filter(pred).push(*r)) by {
                    reveal_with_fuel(Seq::<WorkflowRunSummary>::filter, 1);
                }
                assert(before + prefix.filter(pred) =~= (before + runs@.take(j as int).filter(pred)).push(*r));
            } else {
                assert(prefix.filter(pred) =~= runs@.take(j as int).filter(pred)) by {
                    reveal_with_fuel(Seq::<WorkflowRunSummary>::filter, 1);
                }
            }
            j = j + 1;
        }
        assert(runs@.take(runs@.len() as int) =~= runs@);
        assert(active_runs(data@, (k + 1) as nat) == before + runs@.filter(pred));
        k = k + 1;
    }
    if lines.len() == 0 {
        lines.push(string_of("  No active runs"));
    }
    lines
}

// ── Repository view ───────────────────────────────────────────────────────────

/// The line of a commit in the repository view.
pub open spec fn commit_line(c: CommitSummary) -> Seq<char> {
    c.short_sha@ + " "@ + c.author@ + " "@ + clipped(c.message@, 40)
}

/// The line of a commit in the repository view.
pub fn format_commit(c: &CommitSummary) -> (s: String)
    ensures
        s@ == commit_line(*c),
{
    let mut s = c.short_sha.clone();
    push_str(&mut s, " ");
    push_str(&mut s, c.author.as_str());
    push_str(&mut s, " ");
    let m = crate::text::take_chars(c.message.as_str(), 40);
    push_str(&mut s, m.as_str());
    s
}

/// The line of an open pull request in the repository view.
pub open spec fn pr_line(p: PrSummary) -> Seq<char> {
    "#"@ + decimal(p.number as nat) + " "@ + clipped(p.title@, 40) + " ("@ + p.author@ + ")"@
}

/// The line of an open pull request in the repository view.
pub fn format_pr(p: &PrSummary) -> (s: String)
    ensures
        s@ == pr_line(*p),
{
    let mut s = string_of("#");
    push_decimal(&mut s, p.number);
    push_str(&mut s, " ");
    let t = crate::text::take_chars(p.title.as_str(), 40);
    push_str(&mut s, t.as_str());
    push_str(&mut s, " (");
    push_str(&mut s, p.author.as_str());
    push_str(&mut s, ")");
    assert(s@ =~= pr_line(*p));
    s
}

/// The line of a workflow run in the repository view.
pub open spec fn run_line(r: WorkflowRunSummary) -> Seq<char> {
    r.workflow_name@ + " "@ + r.event@ + " "@ + run_status_label(r.status, r.conclusion)
}

/// The line of a workflow run in the repository view.
pub fn format_run(r: &WorkflowRunSummary) -> (s: String)
    ensures
        s@ == run_line(*r),
{
    let mut s = r.workflow_name.clone();
    push_str(&mut s, " ");
    push_str(&mut s, r.event.as_str());
    push_str(&mut s, " ");
    let st = format_run_status(&r.status, &r.conclusion);
    push_str(&mut s, st.as_str());
    s
}

// ── Status bar, log viewer, layout ────────────────────────────────────────────

/// The texts of the status bar: the rate limit, the time since the last
/// refresh (in seconds, when there was one), and the key hint.
pub open spec fn status_bar(rate: RateLimitState, refreshed_secs_ago: Option<u64>) -> Seq<Seq<char>> {
    let limit_part: Seq<Seq<char>> = if rate.is_blocked {
        seq![" [RATE LIMITED] "@]
    } else if rate.remaining is Some && rate.limit is Some {
        seq![" API: "@ + decimal(rate.remaining->0 as nat) + "/"@ + decimal(rate.limit->0 as nat) + " "@]
    } else {
        Seq::empty()
    };
    let refresh_part: Seq<Seq<char>> = match refreshed_secs_ago {
        Some(s) => seq![" refreshed "@ + decimal(s as nat) + "s ago "@],
        None => Seq::empty(),
    };
    limit_part + refresh_part + seq![" r:refresh  ?:help  q:back "@]
}

/// The texts of the status bar.
pub fn status_bar_texts(rate: &RateLimitState, refreshed_secs_ago: Option<u64>) -> (r: Vec<String>)
    ensures
        r@.len() == status_bar(*rate, refreshed_secs_ago).len(),
        forall|i: int| 0 <= i < r@.len() ==> #[trigger] r@[i]@ == status_bar(*rate, refreshed_secs_ago)[i],
{
    let mut r: Vec<String> = Vec::new();
    if rate.is_blocked {
        r.push(string_of(" [RATE LIMITED] "));
    } else if rate.remaining.is_some() && rate.limit.is_some() {
        let mut s = string_of(" API: ");
        push_decimal(&mut s, rate.remaining.unwrap() as u64);
        push_str(&mut s, "/");
        push_decimal(&mut s, rate.limit.unwrap() as u64);
        push_str(&mut s, " ");
        r.push(s);
    }
    if let Some(secs) = refreshed_secs_ago {
        let mut s = string_of(" refreshed ");
        push_decimal(&mut s, secs);
        push_str(&mut s, "s ago ");
        r.push(s);
    }
    r.push(string_of(" r:refresh  ?:help  q:back "));
    proof {
        let expected = status_bar(*rate, refreshed_secs_ago);
        assert(r@.len() == expected.len());
        assert forall|i: int| 0 <= i < r@.len() implies #[trigger] r@[i]@ == expected[i] by {}
    }
    r
}

/// The title of the log viewer: the job, and the step when steps are known.
pub open spec fn log_title(v: LogViewerState) -> Seq<char> {
    " Log: "@ + v.job_name@ + if v.step_starts@.len() > 0 {
        " Step "@ + decimal((v.current_step + 1) as nat) + "/"@ + decimal(v.step_starts@.len()) + " "@
    } else {
        Seq::empty()
    }
}

/// The title of the log viewer.
pub fn log_viewer_title(v: &LogViewerState) -> (s: String)
    requires
        v.step_starts@.len() > 0 ==> v.current_step < usize::MAX,
    ensures
        s@ == log_title(*v),
{
    let mut s = string_of(" Log: ");
    push_str(&mut s, v.job_name.as_str());
    if v.step_starts.len() > 0 {
        push_str(&mut s, " Step ");
        push_decimal(&mut s, (v.current_step + 1) as u64);
        push_str(&mut s, "/");
        push_decimal(&mut s, v.step_starts.len() as u64);
        push_str(&mut s, " ");
    }
    assert(s@ =~= log_title(*v));
    s
}

// ── Pull request view ─────────────────────────────────────────────────────────

/// The label of a pull request's mergeable state.
pub open spec fn mergeable_text(m: MergeableState) -> Seq<char> {
    match m {
        MergeableState::Mergeable => "\u{2713} Mergeable"@,
        MergeableState::Conflicting => "\u{2717} Conflicts"@,
        MergeableState::Unknown => "? Unknown"@,
    }
}

/// The label of a pull request's mergeable state.
pub fn mergeable_label(m: MergeableState) -> (s: String)
    ensures
        s@ == mergeable_text(m),
{
    match m {
        MergeableState::Mergeable => string_of("\u{2713} Mergeable"),
        MergeableState::Conflicting => string_of("\u{2717} Conflicts"),
        MergeableState::Unknown => string_of("? Unknown"),
    }
}

/// The header of the pull request view: number and title, author and
/// branches, mergeable state.
pub open spec fn pr_header(d: PrDetail) -> Seq<Seq<char>> {
    seq![
        "PR #"@ + decimal(d.number as nat) + ": "@ + d.title@,
        "Author: "@ + d.author@ + "  "@ + d.head_branch@ + "\u{2192}"@ + d.base_branch@,
        mergeable_text(d.mergeable_state),
    ]
}

/// The header lines of the pull request view.
pub fn pr_header_lines(d: &PrDetail) -> (r: Vec<String>)
    ensures
        r@.len() == 3,
        forall|i: int| 0 <= i < 3 ==> #[trigger] r@[i]@ == pr_header(*d)[i],
{
    let mut first = string_of("PR #");
    push_decimal(&mut first, d.number);
    push_str(&mut first, ": ");
    push_str(&mut first, d.title.as_str());
    let mut second = string_of("Author: ");
    push_str(&mut second, d.author.as_str());
    push_str(&mut second, "  ");
    push_str(&mut second, d.head_branch.as_str());
    push_str(&mut second, "\u{2192}");
    push_str(&mut second, d.base_branch.as_str());
    let third = mergeable_label(d.mergeable_state);
    let mut r: Vec<String> = Vec::new();
    r.push(first);
    r.push(second);
    r.push(third);
    r
}

/// The description of the pull request view.
pub open spec fn pr_body(d: PrDetail) -> Seq<char> {
    match d.body {
        Some(b) => b@,
        None => "(no description)"@,
    }
}

/// The description of the pull request view.
pub fn pr_body_text(d: &PrDetail) -> (s: String)
    ensures
        s@ == pr_body(*d),
{
    match &d.body {
        Some(b) => string_of(b.as_str()),
        None => string_of("(no description)"),
    }
}

// ── Log viewer lines ──────────────────────────────────────────────────────────

/// The first line shown: the scroll position, or the end of the log.
pub open spec fn view_start(len: nat, scroll: usize) -> int {
    if scroll <= len {
        scroll as int
    } else {
        len as int
    }
}

/// One past the last line shown: at most `height` lines from the start.
pub open spec fn view_end(len: nat, scroll: usize, height: usize) -> int {
    if view_start(len, scroll) + height <= len {
        view_start(len, scroll) + height
    } else {
        len as int
    }
}

/// The lines of a log that a viewport of `height` lines shows from line `scroll` on.
pub fn visible_log_lines(lines: &Vec<String>, scroll: usize, height: usize) -> (r: Vec<String>)
    ensures
        r@.len() == view_end(lines@.len(), scroll, height) - view_start(lines@.len(), scroll),
        forall|i: int|
            0 <= i < r@.len() ==> #[trigger] r@[i]@ == lines@[view_start(lines@.len(), scroll) + i]@,
{
    let start = if scroll <= lines.len() {
        scroll
    } else {
        lines.len()
    };
    let end = if height <= lines.len() - start {
        start + height
    } else {
        lines.len()
    };
    let mut r: Vec<String> = Vec::new();
    let mut k = start;
    while k < end
        invariant
            start <= k <= end <= lines@.len(),
            start == view_start(lines@.len(), scroll),
            end == view_end(lines@.len(), scroll, height),
            r@.len() == k - start,
            forall|i: int| 0 <= i < r@.len() ==> #[trigger] r@[i]@ == lines@[start + i]@,
        decreases end - k,
    {
        r.push(string_of(lines[k].as_str()));
        k = k + 1;
    }
    r
}

/// The smallest terminal the dashboard is drawn in.
pub const MIN_WIDTH: u16 = 100;

/// The smallest terminal the dashboard is drawn in.
pub const MIN_HEIGHT: u16 = 30;

/// Whether a terminal of this size is large enough to draw the views.
pub fn fits_minimum(width: u16, height: u16) -> (r: bool)
    ensures
        r == (width >= MIN_WIDTH && height >= MIN_HEIGHT),
{
    width >= MIN_WIDTH && height >= MIN_HEIGHT
}

/// The note shown instead of the views on a terminal that is too small.
pub fn too_small_message(width: u16, height: u16) -> (s: String)
    ensures
        s@ == "Terminal too small ("@ + decimal(width as nat) + " x "@ + decimal(height as nat)
            + "). Minimum: 100 x 30."@,
{
    let mut s = string_of("Terminal too small (");
    push_decimal(&mut s, width as u64);
    push_str(&mut s, " x ");
    push_decimal(&mut s, height as u64);
    push_str(&mut s, "). Minimum: 100 x 30.");
    s
}

/// The top-left corner of a `w` by `h` popup centred in a `width` by `height` area.
pub fn centered_origin(width: u16, height: u16, w: u16, h: u16) -> (r: (u16, u16))
    ensures
        r.0 == (if width >= w {
            (width - w) / 2
        } else {
            0
        }),
        r.1 == (if height >= h {
            (height - h) / 2
        } else {
            0
        }),
{
    (width.saturating_sub(w) / 2, height.saturating_sub(h) / 2)
}

/// The last-commit cell of a loaded dashboard row is the age of the first
/// commit listed, the newest one as GitHub lists them: it is that commit's
/// age at `now`, and two rows whose commit lists start with the same commit
/// show the same cells however the rest of the lists differ.
pub proof fn law_last_commit_cell_is_newest(data: RepoData, other: RepoData, now: i64)
    requires
        data.summary is Some,
        data.commits@.len() > 0,
        other.key == data.key,
        other.summary == data.summary,
        other.workflow_runs == data.workflow_runs,
        other.commits@.len() > 0,
        other.commits@[0] == data.commits@[0],
    ensures
        dashboard_cells(data, false, None, now)[4] == ago_text(
            elapsed_secs(now, data.commits@[0].timestamp),
        ),
        dashboard_cells(other, false, None, now) == dashboard_cells(data, false, None, now),
{
}

} // verus!
