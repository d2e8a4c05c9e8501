//! Core application state, its events, and how each event changes it.
//!
//! The event loop, the terminal and the network live in the program around
//! this library: it turns what happens into an `AppEvent`, hands it to
//! `AppState::handle_event` with the current time, and draws the new state.
//! Times of the local monotonic clock are milliseconds (`u64`).

use std::collections::HashMap;

use vstd::prelude::*;
use vstd::view::View as _;

use crate::github::client::{client_error_text, ClientError};
use crate::github::models::{
    CommitSummary, PrDetail, PrSummary, RateLimitState, RepoSummary, WorkflowRunSummary,
};
use crate::config::split_repo_key;
use crate::navigation::{
    DashboardState, LogViewerState, PrViewState, RepoViewState, View, ViewStack,
};
use crate::text::{contains_seq, lines_of, split_lines, str_contains, string_pop, string_push};

verus! {

broadcast use vstd::std_specs::hash::group_hash_axioms;

// ── Per-repo data ─────────────────────────────────────────────────────────────

/// All fetched data for a single repository.
#[derive(Debug, Clone)]
pub struct RepoData {
    /// "owner/repo"
    pub key: String,
    pub summary: Option<RepoSummary>,
    pub commits: Vec<CommitSummary>,
    pub open_prs: Vec<PrSummary>,
    pub workflow_runs: Vec<WorkflowRunSummary>,
}

/// `d` holds no fetched data yet.
pub open spec fn repo_data_empty(d: RepoData) -> bool {
    &&& d.summary is None
    &&& d.commits@.len() == 0
    &&& d.open_prs@.len() == 0
    &&& d.workflow_runs@.len() == 0
}

impl RepoData {
    /// Data for `key` with nothing fetched yet.
    pub fn new(key: String) -> (r: Self)
        ensures
            r.key == key,
            repo_data_empty(r),
    {
        RepoData {
            key,
            summary: None,
            commits: Vec::new(),
            open_prs: Vec::new(),
            workflow_runs: Vec::new(),
        }
    }
}

/// Per-repo fetch state.
#[derive(Debug, Clone)]
pub struct RepoFetchState {
    pub loading: bool,
    pub error: Option<String>,
    /// When the data was last refreshed (milliseconds of the monotonic clock).
    pub last_refreshed: Option<u64>,
}

impl Default for RepoFetchState {
    fn default() -> (r: Self)
        ensures
            r == (RepoFetchState { loading: false, error: None, last_refreshed: None }),
    {
        RepoFetchState { loading: false, error: None, last_refreshed: None }
    }
}

// ── Terminal input ────────────────────────────────────────────────────────────

/// A key of the keyboard, as far as the views tell keys apart.
#[derive(Debug, Clone, Copy, PartialEq, Eq, Structural)]
pub enum KeyCode {
    Char(char),
    Esc,
    Backspace,
    Enter,
    Up,
    Down,
    Tab,
    Other,
}

/// A key press and whether Control was held.
#[derive(Debug, Clone, Copy, PartialEq, Eq, Structural)]
pub struct KeyInput {
    pub code: KeyCode,
    pub ctrl: bool,
}

/// A terminal event.
#[derive(Debug, Clone, Copy, PartialEq, Eq, Structural)]
pub enum TermEvent {
    Key(KeyInput),
    Resize(u16, u16),
    Other,
}

// ── AppEvent ──────────────────────────────────────────────────────────────────

/// Events processed by the main event loop.
#[derive(Debug)]
pub enum AppEvent {
    /// Fetched data for a repository.
    DataFetched(Box<RepoData>),
    /// Fetch error for a repository.
    FetchError { repo: String, message: String },
    /// Rate limit hit — blocked until reset (milliseconds of the monotonic clock).
    RateLimited { reset_at: u64 },
    /// A terminal (keyboard/resize) event.
    TerminalEvent(TermEvent),
    /// Periodic tick for time-based UI updates (elapsed counters, etc.).
    Tick,
    /// Job log fetched.
    LogFetched { job_id: u64, content: String, is_complete: bool },
    /// Fetching log for a job started (for loading indicator).
    LogLoading { job_id: u64 },
}

/// What a list request gave, an empty list where it failed.
pub open spec fn listed<T>(r: Result<Vec<T>, ClientError>) -> Seq<T> {
    match r {
        Ok(v) => v@,
        Err(_) => Seq::empty(),
    }
}

/// The list a request gave, an empty one where it failed.
fn list_or_empty<T>(r: Result<Vec<T>, ClientError>) -> (v: Vec<T>)
    ensures
        v@ == listed(r),
{
    match r {
        Ok(v) => v,
        Err(_) => Vec::new(),
    }
}

/// The branch whose recent commits a dashboard poll asks for: the default
/// branch of the summary when the summary came back, none otherwise.
pub fn commits_branch(summary: &Result<RepoSummary, ClientError>) -> (r: Option<&String>)
    ensures
        match summary {
            Ok(s) => r == Some(&s.default_branch),
            Err(_) => r is None,
        },
{
    match summary {
        Ok(s) => Some(&s.default_branch),
        Err(_) => None,
    }
}

/// The event one dashboard poll of repository `key` produces from what its
/// requests returned: the data when the summary came back (a list request
/// that failed leaves its list empty), the summary's error otherwise.
pub fn poll_event(
    key: String,
    summary: Result<RepoSummary, ClientError>,
    commits: Result<Vec<CommitSummary>, ClientError>,
    open_prs: Result<Vec<PrSummary>, ClientError>,
    workflow_runs: Result<Vec<WorkflowRunSummary>, ClientError>,
) -> (r: AppEvent)
    ensures
        match summary {
            Ok(s) => r matches AppEvent::DataFetched(d) && d.key == key && d.summary == Some(s)
                && d.commits@ == listed(commits) && d.open_prs@ == listed(open_prs)
                && d.workflow_runs@ == listed(workflow_runs),
            Err(e) => r matches AppEvent::FetchError { repo, message } && repo == key && message@
                == client_error_text(e),
        },
{
    match summary {
        Ok(s) => AppEvent::DataFetched(
            Box::new(
                RepoData {
                    key,
                    summary: Some(s),
                    commits: list_or_empty(commits),
                    open_prs: list_or_empty(open_prs),
                    workflow_runs: list_or_empty(workflow_runs),
                },
            ),
        ),
        Err(e) => AppEvent::FetchError { repo: key, message: e.describe() },
    }
}

// ── Keyed slots ───────────────────────────────────────────────────────────────

/// `i` is the first entry of `s` whose key is `k`.
pub open spec fn data_slot(s: Seq<RepoData>, k: Seq<char>, i: int) -> bool {
    &&& 0 <= i < s.len()
    &&& s[i].key@ == k
    &&& forall|j: int| 0 <= j < i ==> (#[trigger] s[j]).key@ != k
}

/// The entries after `d` is stored under its key: the first entry with that
/// key is replaced, or `d` is added at the end.
pub open spec fn with_repo_data(s: Seq<RepoData>, d: RepoData) -> Seq<RepoData> {
    if exists|i: int| data_slot(s, d.key@, i) {
        s.update(choose|i: int| data_slot(s, d.key@, i), d)
    } else {
        s.push(d)
    }
}

/// `i` is the first entry of `s` whose key is `k`.
pub open spec fn fetch_slot(s: Seq<(String, RepoFetchState)>, k: Seq<char>, i: int) -> bool {
    &&& 0 <= i < s.len()
    &&& s[i].0@ == k
    &&& forall|j: int| 0 <= j < i ==> (#[trigger] s[j]).0@ != k
}

/// The fetch states after the one of key `k`, if any, is changed by `f`.
pub open spec fn with_fetch_state(
    s: Seq<(String, RepoFetchState)>,
    k: Seq<char>,
    f: spec_fn(RepoFetchState) -> RepoFetchState,
) -> Seq<(String, RepoFetchState)> {
    if exists|i: int| fetch_slot(s, k, i) {
        let i = choose|i: int| fetch_slot(s, k, i);
        s.update(i, (s[i].0, f(s[i].1)))
    } else {
        s
    }
}

/// The fetch state after a successful fetch at `now`.
pub open spec fn fetched_at(now: u64) -> spec_fn(RepoFetchState) -> RepoFetchState {
    |f: RepoFetchState| RepoFetchState { loading: false, error: None, last_refreshed: Some(now) }
}

/// The fetch state after a failed fetch.
pub open spec fn failed_with(message: String) -> spec_fn(RepoFetchState) -> RepoFetchState {
    |f: RepoFetchState| RepoFetchState { loading: false, error: Some(message), ..f }
}

proof fn lemma_data_slot_unique(s: Seq<RepoData>, k: Seq<char>, i: int, j: int)
    requires
        data_slot(s, k, i),
        data_slot(s, k, j),
    ensures
        i == j,
{
    if i < j {
        assert(s[i].key@ != k);
    } else if j < i {
        assert(s[j].key@ != k);
    }
}

proof fn lemma_fetch_slot_unique(s: Seq<(String, RepoFetchState)>, k: Seq<char>, i: int, j: int)
    requires
        fetch_slot(s, k, i),
        fetch_slot(s, k, j),
    ensures
        i == j,
{
    if i < j {
        assert(s[i].0@ != k);
    } else if j < i {
        assert(s[j].0@ != k);
    }
}

/// The first entry of `s` whose key is `key`.
fn find_data(s: &Vec<RepoData>, key: &String) -> (r: Option<usize>)
    ensures
        r matches Some(i) ==> data_slot(s@, key@, i as int),
        r is None ==> forall|j: int| 0 <= j < s@.len() ==> (#[trigger] s@[j]).key@ != key@,
{
    let mut i: usize = 0;
    while i < s.len()
        invariant
            i <= s@.len(),
            forall|j: int| 0 <= j < i ==> (#[trigger] s@[j]).key@ != key@,
        decreases s.len() - i,
    {
        if s[i].key == *key {
            return Some(i);
        }
        i = i + 1;
    }
    None
}

/// The first entry of `s` whose key is `key`.
fn find_fetch(s: &Vec<(String, RepoFetchState)>, key: &String) -> (r: Option<usize>)
    ensures
        r matches Some(i) ==> fetch_slot(s@, key@, i as int),
        r is None ==> forall|j: int| 0 <= j < s@.len() ==> (#[trigger] s@[j]).0@ != key@,
{
    let mut i: usize = 0;
    while i < s.len()
        invariant
            i <= s@.len(),
            forall|j: int| 0 <= j < i ==> (#[trigger] s@[j]).0@ != key@,
        decreases s.len() - i,
    {
        if s[i].0 == *key {
            return Some(i);
        }
        i = i + 1;
    }
    None
}

// ── Step boundary parsing ─────────────────────────────────────────────────────

/// The line opens a step group: it holds `##[group]` and is no `##[endgroup]` marker.
pub open spec fn opens_step(line: Seq<char>) -> bool {
    contains_seq(line, "##[group]"@) && !contains_seq(line, "##[endgroup]"@)
}

/// The line holds `##[group]`.
pub open spec fn holds_group_marker(line: Seq<char>) -> bool {
    contains_seq(line, "##[group]"@)
}

/// The indices, in increasing order, of the first `n` lines that satisfy `p`.
pub open spec fn marked_indices(lines: Seq<String>, n: nat, p: spec_fn(Seq<char>) -> bool) -> Seq<
    usize,
>
    decreases n,
{
    if n == 0 {
        Seq::empty()
    } else {
        let prev = marked_indices(lines, (n - 1) as nat, p);
        if p(lines[n - 1]@) {
            prev.push((n - 1) as usize)
        } else {
            prev
        }
    }
}

/// Parse step boundary line indices from GitHub Actions log lines.
/// GitHub uses `##[group]` prefixes or timestamp + step markers; only group
/// starts count.
pub fn parse_step_boundaries(lines: &[String]) -> (r: Vec<usize>)
    ensures
        r@ == marked_indices(lines@, lines@.len(), |l: Seq<char>| opens_step(l)),
{
    let mut r: Vec<usize> = Vec::new();
    let mut i: usize = 0;
    while i < lines.len()
        invariant
            i <= lines@.len(),
            r@ == marked_indices(lines@, i as nat, |l: Seq<char>| opens_step(l)),
        decreases lines.len() - i,
    {
        let line = lines[i].as_str();
        if str_contains(line, "##[group]") && !str_contains(line, "##[endgroup]") {
            r.push(i);
        }
        i = i + 1;
    }
    r
}

/// Parse step boundaries more carefully — match lines containing `##[group]`.
pub fn parse_step_boundaries_v2(lines: &[String]) -> (r: Vec<usize>)
    ensures
        r@ == marked_indices(lines@, lines@.len(), |l: Seq<char>| holds_group_marker(l)),
{
    let mut r: Vec<usize> = Vec::new();
    let mut i: usize = 0;
    while i < lines.len()
        invariant
            i <= lines@.len(),
            r@ == marked_indices(lines@, i as nat, |l: Seq<char>| holds_group_marker(l)),
        decreases lines.len() - i,
    {
        if str_contains(lines[i].as_str(), "##[group]") {
            r.push(i);
        }
        i = i + 1;
    }
    r
}

/// Step boundaries come in strictly increasing order, each the index of a
/// line that satisfies the marker test.
pub proof fn law_step_boundaries_sorted(lines: Seq<String>, n: nat, p: spec_fn(Seq<char>) -> bool)
    requires
        n <= lines.len() <= usize::MAX,
    ensures
        forall|a: int, b: int|
            0 <= a < b < marked_indices(lines, n, p).len() ==> marked_indices(lines, n, p)[a]
                < marked_indices(lines, n, p)[b],
        forall|a: int|
            0 <= a < marked_indices(lines, n, p).len() ==> marked_indices(lines, n, p)[a] < n && p(
                lines[marked_indices(lines, n, p)[a] as int]@,
            ),
    decreases n,
{
    if n > 0 {
        law_step_boundaries_sorted(lines, (n - 1) as nat, p);
        let prev = marked_indices(lines, (n - 1) as nat, p);
        let cur = marked_indices(lines, n, p);
        if p(lines[n - 1]@) {
            assert(cur == prev.push((n - 1) as usize));
            assert forall|a: int, b: int| 0 <= a < b < cur.len() implies cur[a] < cur[b] by {
                assert(cur[a] == prev[a]);
                assert(prev[a] < n - 1);
                if b < prev.len() {
                    assert(prev[a] < prev[b]);
                }
            }
            assert forall|a: int| 0 <= a < cur.len() implies cur[a] < n && p(
                lines[cur[a] as int]@,
            ) by {
                if a < prev.len() {
                    assert(cur[a] == prev[a]);
                    assert(prev[a] < n - 1 && p(lines[prev[a] as int]@));
                }
            }
        } else {
            assert(cur == prev);
        }
    }
}


// ── AppState ──────────────────────────────────────────────────────────────────

/// Central application state.
pub struct AppState {
    /// Navigation view stack.
    pub views: ViewStack,
    /// Fetched data, one entry per repository key "owner/repo".
    pub repo_data: Vec<RepoData>,
    /// Fetch state, one entry per repository key "owner/repo".
    pub fetch_state: Vec<(String, RepoFetchState)>,
    /// Current GitHub API rate limit state.
    pub rate_limit: RateLimitState,
    /// Whether the app is running.
    pub running: bool,
    /// Whether a quit confirmation is pending.
    pub pending_quit: bool,
    /// Last time all repos were refreshed (milliseconds of the monotonic clock).
    pub last_refreshed: Option<u64>,
    /// Current PR detail, if the PR view is open.
    pub pr_detail: Option<PrDetail>,
    /// Log content keyed by job_id.
    pub log_content: HashMap<u64, Vec<String>>,
    /// Whether a log is currently loading.
    pub log_loading: bool,
    /// Whether the job for the currently open log is complete.
    pub log_job_complete: bool,
}

/// The keys of `s` are pairwise different.
pub open spec fn data_keys_distinct(s: Seq<RepoData>) -> bool {
    forall|i: int, j: int| 0 <= i < j < s.len() ==> (#[trigger] s[i]).key@ != (#[trigger] s[j]).key@
}

/// The keys of `s` are pairwise different.
pub open spec fn fetch_keys_distinct(s: Seq<(String, RepoFetchState)>) -> bool {
    forall|i: int, j: int| 0 <= i < j < s.len() ==> (#[trigger] s[i]).0@ != (#[trigger] s[j]).0@
}

/// One of the first `n` texts of `repos` is `k`.
pub open spec fn listed_before(repos: Seq<String>, n: int, k: Seq<char>) -> bool {
    exists|j: int| 0 <= j < n && j < repos.len() && #[trigger] repos[j]@ == k
}

/// Some entry of `s` has key `k`.
pub open spec fn has_data_for(s: Seq<RepoData>, k: Seq<char>) -> bool {
    exists|i: int| 0 <= i < s.len() && #[trigger] s[i].key@ == k
}

/// Some entry of `s` has key `k`.
pub open spec fn has_state_for(s: Seq<(String, RepoFetchState)>, k: Seq<char>) -> bool {
    exists|i: int| 0 <= i < s.len() && #[trigger] s[i].0@ == k
}

/// `s` has one entry for each distinct text of `repos`, with no fetched data.
pub open spec fn one_empty_entry_per_repo(s: Seq<RepoData>, repos: Seq<String>) -> bool {
    &&& data_keys_distinct(s)
    &&& forall|i: int| 0 <= i < s.len() ==> repo_data_empty(#[trigger] s[i])
    &&& forall|i: int| 0 <= i < s.len() ==> listed_before(repos, repos.len() as int, (#[trigger] s[i]).key@)
    &&& forall|j: int| 0 <= j < repos.len() ==> has_data_for(s, (#[trigger] repos[j])@)
}

/// `s` has one loading entry for each distinct text of `repos`.
pub open spec fn one_loading_state_per_repo(s: Seq<(String, RepoFetchState)>, repos: Seq<String>) -> bool {
    &&& fetch_keys_distinct(s)
    &&& forall|i: int| 0 <= i < s.len() ==> (#[trigger] s[i]).1 == (RepoFetchState {
        loading: true,
        error: None,
        last_refreshed: None,
    })
    &&& forall|i: int| 0 <= i < s.len() ==> listed_before(repos, repos.len() as int, (#[trigger] s[i]).0@)
    &&& forall|j: int| 0 <= j < repos.len() ==> has_state_for(s, (#[trigger] repos[j])@)
}

/// The fetch state after a manual refresh: loading again, not refreshed.
pub open spec fn reloading(e: (String, RepoFetchState)) -> (String, RepoFetchState) {
    (e.0, RepoFetchState { loading: true, last_refreshed: None, ..e.1 })
}

impl AppState {
    /// Create initial state for all configured repos.
    pub fn new(repos: &[String]) -> (r: Self)
        ensures
            r.views.views().len() == 1,
            r.views.views()[0] is Dashboard,
            one_empty_entry_per_repo(r.repo_data@, repos@),
            one_loading_state_per_repo(r.fetch_state@, repos@),
            r.rate_limit == (RateLimitState {
                remaining: None,
                limit: None,
                reset_at: None,
                is_blocked: false,
            }),
            r.running,
            !r.pending_quit,
            r.last_refreshed is None,
            r.pr_detail is None,
            r.log_content@ == Map::<u64, Vec<String>>::empty(),
            !r.log_loading,
            !r.log_job_complete,
    {
        let mut repo_data: Vec<RepoData> = Vec::new();
        let mut fetch_state: Vec<(String, RepoFetchState)> = Vec::new();
        let mut n: usize = 0;
        while n < repos.len()
            invariant
                n <= repos@.len(),
                repo_data@.len() == fetch_state@.len(),
                data_keys_distinct(repo_data@),
                fetch_keys_distinct(fetch_state@),
                forall|i: int| 0 <= i < repo_data@.len() ==> (#[trigger] repo_data@[i]).key@ == fetch_state@[i].0@,
                forall|i: int| 0 <= i < repo_data@.len() ==> repo_data_empty(#[trigger] repo_data@[i]),
                forall|i: int| 0 <= i < fetch_state@.len() ==> (#[trigger] fetch_state@[i]).1 == (RepoFetchState {
                    loading: true,
                    error: None,
                    last_refreshed: None,
                }),
                forall|i: int| 0 <= i < repo_data@.len() ==> listed_before(repos@, n as int, (#[trigger] repo_data@[i]).key@),
                forall|j: int| 0 <= j < n ==> has_data_for(repo_data@, (#[trigger] repos@[j])@),
            decreases repos.len() - n,
        {
            let r = &repos[n];
            let found = find_data(&repo_data, r);
            let ghost before = repo_data@;
            let ghost before_fetch = fetch_state@;
            if found.is_none() {
                repo_data.push(RepoData::new(r.clone()));
                fetch_state.push(
                    (r.clone(), RepoFetchState { loading: true, error: None, last_refreshed: None }),
                );
                assert forall|i: int, j: int| 0 <= i < j < fetch_state@.len() implies (#[trigger] fetch_state@[i]).0@ != (#[trigger] fetch_state@[j]).0@ by {
                    assert(fetch_state@[i] == before_fetch[i]);
                    if j == before_fetch.len() {
                        assert(before_fetch[i].0@ == before[i].key@);
                    } else {
                        assert(fetch_state@[j] == before_fetch[j]);
                    }
                }
                assert(repo_data@[before.len() as int].key@ == repos@[n as int]@);
                assert forall|j: int| 0 <= j < n + 1 implies has_data_for(repo_data@, (#[trigger] repos@[j])@) by {
                    if j < n {
                        assert(has_data_for(before, repos@[j]@));
                        let i = choose|i: int| 0 <= i < before.len() && #[trigger] before[i].key@ == repos@[j]@;
                        assert(repo_data@[i] == before[i]);
                    } else {
                        assert(repo_data@[before.len() as int].key@ == repos@[j]@);
                    }
                }
            } else {
                let ghost i = found->0 as int;
                assert forall|j: int| 0 <= j < n + 1 implies has_data_for(repo_data@, (#[trigger] repos@[j])@) by {
                    if j == n {
                        assert(repo_data@[i].key@ == repos@[j]@);
                    }
                }
            }
            assert forall|i: int| 0 <= i < repo_data@.len() implies listed_before(repos@, n + 1, (#[trigger] repo_data@[i]).key@) by {
                if i < before.len() {
                    assert(repo_data@[i] == before[i]);
                    assert(listed_before(repos@, n as int, before[i].key@));
                    let j = choose|j: int| 0 <= j < n && j < repos@.len() && #[trigger] repos@[j]@ == before[i].key@;
                    assert(repos@[j]@ == repo_data@[i].key@);
                } else {
                    assert(repos@[n as int]@ == repo_data@[i].key@);
                }
            }
            n = n + 1;
        }
        assert forall|i: int| 0 <= i < fetch_state@.len() implies listed_before(repos@, repos@.len() as int, (#[trigger] fetch_state@[i]).0@) by {
            assert(repo_data@[i].key@ == fetch_state@[i].0@);
            assert(listed_before(repos@, n as int, repo_data@[i].key@));
        }
        assert forall|j: int| 0 <= j < repos@.len() implies has_state_for(fetch_state@, (#[trigger] repos@[j])@) by {
            assert(has_data_for(repo_data@, repos@[j]@));
            let i = choose|i: int| 0 <= i < repo_data@.len() && #[trigger] repo_data@[i].key@ == repos@[j]@;
            assert(repo_data@[i].key@ == fetch_state@[i].0@);
        }
        AppState {
            views: ViewStack::new(),
            repo_data,
            fetch_state,
            rate_limit: RateLimitState::default(),
            running: true,
            pending_quit: false,
            last_refreshed: None,
            pr_detail: None,
            log_content: HashMap::new(),
            log_loading: false,
            log_job_complete: false,
        }
    }

    /// The data of repository `key`: the first entry with that key.
    pub fn repo_data_of(&self, key: &String) -> (r: Option<&RepoData>)
        ensures
            r matches Some(d) ==> exists|i: int| data_slot(self.repo_data@, key@, i) && *d == self.repo_data@[i],
            r is None <==> !has_data_for(self.repo_data@, key@),
    {
        match find_data(&self.repo_data, key) {
            Some(i) => Some(&self.repo_data[i]),
            None => None,
        }
    }

    /// The fetch state of repository `key`: the first entry with that key.
    pub fn fetch_state_of(&self, key: &String) -> (r: Option<&RepoFetchState>)
        ensures
            r matches Some(f) ==> exists|i: int| fetch_slot(self.fetch_state@, key@, i) && *f == self.fetch_state@[i].1,
            r is None <==> forall|j: int| 0 <= j < self.fetch_state@.len() ==> (#[trigger] self.fetch_state@[j]).0@ != key@,
    {
        match find_fetch(&self.fetch_state, key) {
            Some(i) => Some(&self.fetch_state[i].1),
            None => None,
        }
    }

    /// Invalidate all cached data (used on manual refresh `r`).
    pub fn invalidate_cache(&mut self)
        ensures
            final(self).fetch_state@.len() == old(self).fetch_state@.len(),
            forall|i: int|
                0 <= i < old(self).fetch_state@.len() ==> #[trigger] final(self).fetch_state@[i]
                    == reloading(old(self).fetch_state@[i]),
            final(self).last_refreshed is None,
            final(self).views == old(self).views,
            final(self).repo_data == old(self).repo_data,
            final(self).rate_limit == old(self).rate_limit,
            final(self).running == old(self).running,
            final(self).pending_quit == old(self).pending_quit,
            final(self).pr_detail == old(self).pr_detail,
            final(self).log_content == old(self).log_content,
            final(self).log_loading == old(self).log_loading,
            final(self).log_job_complete == old(self).log_job_complete,
    {
        let mut i: usize = 0;
        while i < self.fetch_state.len()
            invariant
                i <= self.fetch_state@.len(),
                self.fetch_state@.len() == old(self).fetch_state@.len(),
                forall|j: int| 0 <= j < i ==> #[trigger] self.fetch_state@[j] == reloading(old(self).fetch_state@[j]),
                forall|j: int| i <= j < self.fetch_state@.len() ==> #[trigger] self.fetch_state@[j] == old(self).fetch_state@[j],
                self.views == old(self).views,
                self.repo_data == old(self).repo_data,
                self.rate_limit == old(self).rate_limit,
                self.running == old(self).running,
                self.pending_quit == old(self).pending_quit,
                self.last_refreshed == old(self).last_refreshed,
                self.pr_detail == old(self).pr_detail,
                self.log_content == old(self).log_content,
                self.log_loading == old(self).log_loading,
                self.log_job_complete == old(self).log_job_complete,
            decreases self.fetch_state.len() - i,
        {
            let key = self.fetch_state[i].0.clone();
            let error = self.fetch_state[i].1.error.clone();
            self.fetch_state.set(
                i,
                (key, RepoFetchState { loading: true, error, last_refreshed: None }),
            );
            i = i + 1;
        }
        self.last_refreshed = None;
    }
}


// ── Key handlers for individual views ────────────────────────────────────────

/// `j` or Down.
pub open spec fn is_down_key(code: KeyCode) -> bool {
    code == KeyCode::Char('j') || code == KeyCode::Down
}

/// `k` or Up.
pub open spec fn is_up_key(code: KeyCode) -> bool {
    code == KeyCode::Char('k') || code == KeyCode::Up
}

/// `q` or Esc.
pub open spec fn is_back_key(code: KeyCode) -> bool {
    code == KeyCode::Char('q') || code == KeyCode::Esc
}

/// `q`, Esc or Backspace: the keys that leave a view above the dashboard.
pub open spec fn is_leave_key(code: KeyCode) -> bool {
    is_back_key(code) || code == KeyCode::Backspace
}

/// The dashboard selection after a key outside filter input, `last_g` telling
/// whether the key before was a first `g`; the selection is clamped to the
/// list where it is used (`selected_row`).
pub open spec fn dashboard_selection_after(selected: usize, last_g: bool, code: KeyCode) -> usize {
    if is_down_key(code) {
        if selected < usize::MAX {
            (selected + 1) as usize
        } else {
            selected
        }
    } else if is_up_key(code) {
        if selected > 0 {
            (selected - 1) as usize
        } else {
            selected
        }
    } else if code == KeyCode::Char('G') {
        usize::MAX
    } else if code == KeyCode::Char('g') && last_g {
        0
    } else {
        selected
    }
}

/// The row of a list of `len` rows that a selection stands for: the last row
/// when the selection went past the end, none in an empty list.
pub open spec fn row_of(selected: usize, len: nat) -> Option<int> {
    if len == 0 {
        None
    } else if selected < len {
        Some(selected as int)
    } else {
        Some(len - 1)
    }
}

/// The row of a list of `len` rows that a selection stands for.
pub fn selected_row(selected: usize, len: usize) -> (r: Option<usize>)
    ensures
        match row_of(selected, len as nat) {
            Some(i) => r == Some(i as usize),
            None => r is None,
        },
{
    if len == 0 {
        None
    } else if selected < len {
        Some(selected)
    } else {
        Some(len - 1)
    }
}

/// `after` and `quit_after` are the dashboard state and the quit request
/// after `key`, from `before` and `quit_before`.
pub open spec fn dashboard_key_done(
    before: DashboardState,
    after: DashboardState,
    key: KeyInput,
    is_root: bool,
    quit_before: bool,
    quit_after: bool,
) -> bool {
    &&& before.filter.active ==> quit_after == quit_before && after.selected == before.selected
        && match key.code {
        KeyCode::Esc => !after.filter.active && after.filter.text@.len() == 0,
        KeyCode::Backspace => after.filter.active && after.filter.text@ == (if before.filter.text@.len() > 0 {
            before.filter.text@.drop_last()
        } else {
            before.filter.text@
        }),
        KeyCode::Char(c) => after.filter.active && after.filter.text@ == before.filter.text@.push(c),
        _ => after.filter == before.filter,
    }
    &&& after.last_g == (!before.filter.active && key.code == KeyCode::Char('g') && !before.last_g)
    &&& !before.filter.active ==> after.selected == dashboard_selection_after(before.selected, before.last_g, key.code)
        && after.filter.text == before.filter.text && after.filter.active == (key.code == KeyCode::Char('/'))
        && quit_after == (quit_before || (is_back_key(key.code) && is_root))
}

/// Handle a key on the dashboard: filter input while the filter is active,
/// list movement otherwise; `q`/Esc at the root asks for quit confirmation.
fn handle_dashboard_key(
    state: &mut DashboardState,
    key: KeyInput,
    is_root: bool,
    pending_quit: &mut bool,
)
    ensures
        dashboard_key_done(*old(state), *final(state), key, is_root, *old(pending_quit), *final(pending_quit)),
{
    let was_g = state.last_g;
    state.last_g = false;
    if state.filter.active {
        match key.code {
            KeyCode::Esc => {
                state.filter.active = false;
                state.filter.text = String::new();
            },
            KeyCode::Backspace => {
                string_pop(&mut state.filter.text);
            },
            KeyCode::Char(c) => {
                string_push(&mut state.filter.text, c);
            },
            _ => {},
        }
        return;
    }
    match key.code {
        KeyCode::Char('j') | KeyCode::Down => {
            state.selected = state.selected.saturating_add(1);
        },
        KeyCode::Char('k') | KeyCode::Up => {
            state.selected = state.selected.saturating_sub(1);
        },
        KeyCode::Char('G') => {
            state.selected = usize::MAX;
        },
        KeyCode::Char('g') => {
            if was_g {
                state.selected = 0;
            } else {
                state.last_g = true;
            }
        },
        KeyCode::Char('/') => {
            state.filter.active = true;
        },
        KeyCode::Char('q') | KeyCode::Esc => {
            if is_root {
                *pending_quit = true;
            }
        },
        _ => {},
    }
}

/// The PR view can take key `code` without overflowing its counters.
pub open spec fn pr_key_in_range(state: PrViewState, code: KeyCode) -> bool {
    &&& is_down_key(code) ==> state.body_scroll < usize::MAX
    &&& code == KeyCode::Tab ==> state.focused_panel < usize::MAX
}

/// The PR view after key `code`: `j`/`k` scroll the body, Tab cycles the three panels.
pub open spec fn pr_view_after(state: PrViewState, code: KeyCode) -> PrViewState {
    if is_down_key(code) {
        PrViewState { body_scroll: (state.body_scroll + 1) as usize, ..state }
    } else if is_up_key(code) {
        PrViewState {
            body_scroll: if state.body_scroll > 0 {
                (state.body_scroll - 1) as usize
            } else {
                0
            },
            ..state
        }
    } else if code == KeyCode::Tab {
        PrViewState { focused_panel: ((state.focused_panel + 1) % 3) as usize, ..state }
    } else {
        state
    }
}

fn handle_pr_key(state: &mut PrViewState, key: KeyInput)
    requires
        pr_key_in_range(*old(state), key.code),
    ensures
        *final(state) == pr_view_after(*old(state), key.code),
{
    match key.code {
        KeyCode::Char('j') | KeyCode::Down => {
            state.body_scroll += 1;
        },
        KeyCode::Char('k') | KeyCode::Up => {
            state.body_scroll = state.body_scroll.saturating_sub(1);
        },
        KeyCode::Tab => {
            state.focused_panel = (state.focused_panel + 1) % 3;
        },
        _ => {},
    }
}

/// `i` is the first step start after line `x`.
pub open spec fn first_above(v: Seq<usize>, x: usize, i: int) -> bool {
    &&& 0 <= i < v.len()
    &&& v[i] > x
    &&& forall|j: int| 0 <= j < i ==> #[trigger] v[j] <= x
}

/// `i` is the last step start before line `x`.
pub open spec fn last_below(v: Seq<usize>, x: usize, i: int) -> bool {
    &&& 0 <= i < v.len()
    &&& v[i] < x
    &&& forall|j: int| i < j < v.len() ==> #[trigger] v[j] >= x
}

/// `i` is the first position of `x` in `v`.
pub open spec fn first_equal(v: Seq<usize>, x: usize, i: int) -> bool {
    &&& 0 <= i < v.len()
    &&& v[i] == x
    &&& forall|j: int| 0 <= j < i ==> #[trigger] v[j] != x
}

/// The log viewer after a key: `j`/`k` scroll by a line and stop following,
/// `G` jumps to the last line and follows, `]`/`n` and `[`/`p` jump to the
/// next and previous step start.
pub open spec fn log_view_after(s: LogViewerState, code: KeyCode) -> LogViewerState {
    if is_down_key(code) {
        LogViewerState {
            scroll: if s.scroll < usize::MAX {
                (s.scroll + 1) as usize
            } else {
                s.scroll
            },
            at_bottom: false,
            ..s
        }
    } else if is_up_key(code) {
        LogViewerState {
            scroll: if s.scroll > 0 {
                (s.scroll - 1) as usize
            } else {
                0
            },
            at_bottom: false,
            ..s
        }
    } else if code == KeyCode::Char('G') {
        LogViewerState {
            scroll: if s.total_lines > 0 {
                (s.total_lines - 1) as usize
            } else {
                0
            },
            at_bottom: true,
            ..s
        }
    } else if code == KeyCode::Char(']') || code == KeyCode::Char('n') {
        if exists|i: int| first_above(s.step_starts@, s.scroll, i) {
            let i = choose|i: int| first_above(s.step_starts@, s.scroll, i);
            LogViewerState { scroll: s.step_starts@[i], current_step: i as usize, ..s }
        } else {
            s
        }
    } else if code == KeyCode::Char('[') || code == KeyCode::Char('p') {
        if exists|i: int| last_below(s.step_starts@, s.scroll, i) {
            let i = choose|i: int| last_below(s.step_starts@, s.scroll, i);
            let target = s.step_starts@[i];
            LogViewerState {
                scroll: target,
                current_step: (choose|j: int| first_equal(s.step_starts@, target, j)) as usize,
                ..s
            }
        } else {
            s
        }
    } else {
        s
    }
}

/// The first position of `x` in `v`.
fn position_of(v: &Vec<usize>, x: usize) -> (r: Option<usize>)
    ensures
        r matches Some(i) ==> first_equal(v@, x, i as int),
        r is None ==> forall|j: int| 0 <= j < v@.len() ==> v@[j] != x,
{
    let mut i: usize = 0;
    while i < v.len()
        invariant
            i <= v@.len(),
            forall|j: int| 0 <= j < i ==> #[trigger] v@[j] != x,
        decreases v.len() - i,
    {
        if v[i] == x {
            return Some(i);
        }
        i = i + 1;
    }
    None
}

proof fn lemma_first_above_unique(v: Seq<usize>, x: usize, i: int, j: int)
    requires
        first_above(v, x, i),
        first_above(v, x, j),
    ensures
        i == j,
{
    if i < j {
        assert(v[i] <= x);
    } else if j < i {
        assert(v[j] <= x);
    }
}

proof fn lemma_last_below_unique(v: Seq<usize>, x: usize, i: int, j: int)
    requires
        last_below(v, x, i),
        last_below(v, x, j),
    ensures
        i == j,
{
    if i < j {
        assert(v[j] >= x);
    } else if j < i {
        assert(v[i] >= x);
    }
}

proof fn lemma_first_equal_unique(v: Seq<usize>, x: usize, i: int, j: int)
    requires
        first_equal(v, x, i),
        first_equal(v, x, j),
    ensures
        i == j,
{
    if i < j {
        assert(v[i] != x);
    } else if j < i {
        assert(v[j] != x);
    }
}

fn handle_log_viewer_key(state: &mut LogViewerState, key: KeyInput)
    ensures
        *final(state) == log_view_after(*old(state), key.code),
{
    match key.code {
        KeyCode::Char('j') | KeyCode::Down => {
            state.scroll = state.scroll.saturating_add(1);
            state.at_bottom = false;
        },
        KeyCode::Char('k') | KeyCode::Up => {
            state.scroll = state.scroll.saturating_sub(1);
            state.at_bottom = false;
        },
        KeyCode::Char('G') => {
            state.scroll = state.total_lines.saturating_sub(1);
            state.at_bottom = true;
        },
        KeyCode::Char(']') | KeyCode::Char('n') => {
            let mut i: usize = 0;
            while i < state.step_starts.len() && state.step_starts[i] <= state.scroll
                invariant
                    i <= state.step_starts@.len(),
                    forall|j: int| 0 <= j < i ==> #[trigger] state.step_starts@[j] <= state.scroll,
                decreases state.step_starts.len() - i,
            {
                i = i + 1;
            }
            if i < state.step_starts.len() {
                let target = state.step_starts[i];
                proof {
                    assert(first_above(state.step_starts@, state.scroll, i as int));
                    let c = choose|c: int| first_above(state.step_starts@, state.scroll, c);
                    lemma_first_above_unique(state.step_starts@, state.scroll, i as int, c);
                }
                let pos = position_of(&state.step_starts, target);
                proof {
                    assert(first_equal(state.step_starts@, target, i as int));
                    lemma_first_equal_unique(state.step_starts@, target, i as int, pos->0 as int);
                }
                state.scroll = target;
                state.current_step = match pos {
                    Some(p) => p,
                    None => state.current_step,
                };
            } else {
                assert(!exists|c: int| first_above(state.step_starts@, state.scroll, c));
            }
        },
        KeyCode::Char('[') | KeyCode::Char('p') => {
            let mut i: usize = state.step_starts.len();
            while i > 0 && state.step_starts[i - 1] >= state.scroll
                invariant
                    i <= state.step_starts@.len(),
                    forall|j: int|
                        i <= j < state.step_starts@.len() ==> #[trigger] state.step_starts@[j]
                            >= state.scroll,
                decreases i,
            {
                i = i - 1;
            }
            if i > 0 {
                let target = state.step_starts[i - 1];
                proof {
                    assert(last_below(state.step_starts@, state.scroll, i - 1));
                    let c = choose|c: int| last_below(state.step_starts@, state.scroll, c);
                    lemma_last_below_unique(state.step_starts@, state.scroll, i - 1, c);
                }
                let pos = position_of(&state.step_starts, target);
                proof {
                    let f = choose|f: int| first_equal(state.step_starts@, target, f);
                    assert(pos is Some);
                    lemma_first_equal_unique(state.step_starts@, target, pos->0 as int, f);
                }
                state.scroll = target;
                state.current_step = match pos {
                    Some(p) => p,
                    None => state.current_step,
                };
            } else {
                assert(!exists|c: int| last_below(state.step_starts@, state.scroll, c));
            }
        },
        _ => {},
    }
}


// ── Events ────────────────────────────────────────────────────────────────────

/// The views after `key` was dispatched to the current view `vs.last()`;
/// `quit_before`/`quit_after` is the pending quit request.
pub open spec fn key_effect_on_views(
    vs: Seq<View>,
    vs2: Seq<View>,
    key: KeyInput,
    quit_before: bool,
    quit_after: bool,
) -> bool {
    let last = vs.len() - 1;
    match vs.last() {
        View::Dashboard(d) => vs2.len() == vs.len() && vs2 == vs.update(last, vs2.last()) && (
        vs2.last() matches View::Dashboard(d2) && dashboard_key_done(
            d,
            d2,
            key,
            vs.len() == 1,
            quit_before,
            quit_after,
        )),
        View::Repo(_) => quit_after == quit_before && vs2 == (if is_leave_key(key.code) {
            popped_views(vs)
        } else {
            vs
        }),
        View::ActionsRun(_) => quit_after == quit_before && vs2 == (if is_leave_key(key.code) {
            popped_views(vs)
        } else {
            vs
        }),
        View::Pr(s) => quit_after == quit_before && vs2 == (if is_leave_key(key.code) {
            popped_views(vs)
        } else {
            vs.update(last, View::Pr(pr_view_after(s, key.code)))
        }),
        View::LogViewer(s) => quit_after == quit_before && vs2 == (if is_leave_key(key.code) {
            popped_views(vs)
        } else {
            vs.update(last, View::LogViewer(log_view_after(s, key.code)))
        }),
    }
}

/// The views after a leave key: the top view is popped unless it is the root.
pub open spec fn popped_views(vs: Seq<View>) -> Seq<View> {
    crate::navigation::popped(vs).0
}

/// `a` and `b` hold the same fetched data, logs and rate limit.
pub open spec fn same_data(a: AppState, b: AppState) -> bool {
    &&& b.repo_data == a.repo_data
    &&& b.fetch_state == a.fetch_state
    &&& b.rate_limit == a.rate_limit
    &&& b.last_refreshed == a.last_refreshed
    &&& b.pr_detail == a.pr_detail
    &&& b.log_content == a.log_content
    &&& b.log_loading == a.log_loading
    &&& b.log_job_complete == a.log_job_complete
}

/// The rate limit state after `ev` is handled at `now`: a rate limit blocks
/// until its reset time, the first tick at or after that time lifts the
/// block, and every other event leaves the state alone.
pub open spec fn rate_after(r: RateLimitState, ev: AppEvent, now: u64) -> RateLimitState {
    match ev {
        AppEvent::RateLimited { reset_at } => RateLimitState {
            is_blocked: true,
            reset_at: Some(reset_at),
            ..r
        },
        AppEvent::Tick => if r.reset_at matches Some(t) && now >= t {
            RateLimitState { is_blocked: false, ..r }
        } else {
            r
        },
        _ => r,
    }
}

/// The rate limit state after the events of `evs`, each handled at its time, in order.
pub open spec fn rate_through(r: RateLimitState, evs: Seq<(AppEvent, u64)>) -> RateLimitState
    decreases evs.len(),
{
    if evs.len() == 0 {
        r
    } else {
        rate_after(rate_through(r, evs.drop_last()), evs.last().0, evs.last().1)
    }
}

/// The repository key that `key` opens: Enter on the dashboard, with the
/// filter closed, opens the repository of the selected row when its key has
/// the form `owner/repo`.
pub open spec fn opened_repo(st: AppState, key: KeyInput) -> Option<Seq<char>> {
    if key.code == KeyCode::Enter && st.views.views().last() is Dashboard
        && !st.views.views().last()->Dashboard_0.filter.active {
        match row_of(st.views.views().last()->Dashboard_0.selected, st.repo_data@.len()) {
            Some(i) => if exists|j: int| 0 <= j < st.repo_data@[i].key@.len() && st.repo_data@[i].key@[j] == '/' {
                Some(st.repo_data@[i].key@)
            } else {
                None
            },
            None => None,
        }
    } else {
        None
    }
}

/// `v` is the repository view of key `k` as it opens: owner before the first
/// `/`, repository after it, first panel, nothing selected yet.
pub open spec fn repo_view_of(v: View, k: Seq<char>) -> bool {
    &&& v is Repo
    &&& k == v->Repo_0.owner@ + seq!['/'] + v->Repo_0.repo@
    &&& forall|j: int| 0 <= j < v->Repo_0.owner@.len() ==> v->Repo_0.owner@[j] != '/'
    &&& v->Repo_0.focused_panel == 0
    &&& v->Repo_0.selected_commit == 0
    &&& v->Repo_0.selected_pr == 0
    &&& v->Repo_0.selected_run == 0
}

/// `key` asks for a refresh: `r`, unless it answers a pending quit, or is
/// typed into the dashboard filter.
pub open spec fn refresh_key(st: AppState, key: KeyInput) -> bool {
    &&& !st.pending_quit
    &&& key.code == KeyCode::Char('r')
    &&& !(key.ctrl && key.code == KeyCode::Char('c'))
    &&& !(st.views.views().last() matches View::Dashboard(d) && d.filter.active)
}

/// `b` is `a` after a manual refresh: every repository is loading again and
/// none counts as refreshed; the fetched data, logs and rate limit stay.
pub open spec fn refreshed_data(a: AppState, b: AppState) -> bool {
    &&& b.fetch_state@.len() == a.fetch_state@.len()
    &&& forall|i: int|
        0 <= i < a.fetch_state@.len() ==> #[trigger] b.fetch_state@[i] == reloading(a.fetch_state@[i])
    &&& b.last_refreshed is None
    &&& b.repo_data == a.repo_data
    &&& b.rate_limit == a.rate_limit
    &&& b.pr_detail == a.pr_detail
    &&& b.log_content == a.log_content
    &&& b.log_loading == a.log_loading
    &&& b.log_job_complete == a.log_job_complete
}

/// The state `after` a terminal event, from the state `before`.
pub open spec fn term_event_effect(before: AppState, after: AppState, ev: TermEvent) -> bool {
    &&& if ev matches TermEvent::Key(key) && refresh_key(before, key) {
        refreshed_data(before, after)
    } else {
        same_data(before, after)
    }
    &&& match ev {
        TermEvent::Key(key) => if before.pending_quit {
            if key.code == KeyCode::Char('y') || key.code == KeyCode::Char('Y') {
                !after.running && after.pending_quit && after.views == before.views
            } else {
                after.running == before.running && !after.pending_quit && after.views == before.views
            }
        } else if key.code == KeyCode::Char('c') && key.ctrl {
            !after.running && !after.pending_quit && after.views == before.views
        } else if refresh_key(before, key) {
            after.running == before.running && after.pending_quit == before.pending_quit
                && after.views == before.views
        } else {
            after.running == before.running && match opened_repo(before, key) {
                Some(k) => {
                    &&& after.views.views().len() == before.views.views().len() + 1
                    &&& key_effect_on_views(
                        before.views.views(),
                        after.views.views().drop_last(),
                        key,
                        before.pending_quit,
                        after.pending_quit,
                    )
                    &&& repo_view_of(after.views.views().last(), k)
                },
                None => key_effect_on_views(
                    before.views.views(),
                    after.views.views(),
                    key,
                    before.pending_quit,
                    after.pending_quit,
                ),
            }
        },
        _ => after.running == before.running && after.pending_quit == before.pending_quit
            && after.views == before.views,
    }
}

/// The current view can take terminal event `ev` without overflowing a counter.
pub open spec fn term_event_in_range(st: AppState, ev: TermEvent) -> bool {
    match ev {
        TermEvent::Key(key) => (!st.pending_quit && !(key.code == KeyCode::Char('c') && key.ctrl)
            && !is_leave_key(key.code) && st.views.views().last() is Pr) ==> pr_key_in_range(
            st.views.views().last()->Pr_0,
            key.code,
        ),
        _ => true,
    }
}

/// The log viewer state `t` after a log of `lines` arrived for viewer `s`.
pub open spec fn log_view_refreshed(s: LogViewerState, t: LogViewerState, lines: Seq<String>) -> bool {
    &&& t.owner == s.owner
    &&& t.repo == s.repo
    &&& t.job_id == s.job_id
    &&& t.job_name == s.job_name
    &&& t.current_step == s.current_step
    &&& t.total_lines == lines.len()
    &&& t.step_starts@ == marked_indices(lines, lines.len(), |l: Seq<char>| opens_step(l))
    &&& s.at_bottom ==> t.at_bottom && t.scroll == (if lines.len() > 0 {
        lines.len() - 1
    } else {
        0
    })
    &&& !s.at_bottom ==> t.at_bottom == s.at_bottom && t.scroll == s.scroll
}

/// The log content after `lines` arrived for `job_id`, read as texts.
pub open spec fn log_stored(after: Map<u64, Vec<String>>, before: Map<u64, Vec<String>>, job_id: u64, content: Seq<char>) -> bool {
    &&& after.contains_key(job_id)
    &&& after[job_id]@.len() == lines_of(content).len()
    &&& forall|i: int| 0 <= i < lines_of(content).len() ==> (#[trigger] after[job_id]@[i])@ == lines_of(content)[i]
    &&& after.remove(job_id) == before.remove(job_id)
}

impl AppState {
    /// Handle a terminal (keyboard/resize) event.
    fn handle_terminal_event(&mut self, event: TermEvent)
        requires
            old(self).views.views().len() >= 1,
            term_event_in_range(*old(self), event),
        ensures
            term_event_effect(*old(self), *final(self), event),
            final(self).views.views().len() >= 1,
    {
        match event {
            TermEvent::Key(key) => {
                if self.pending_quit {
                    match key.code {
                        KeyCode::Char('y') | KeyCode::Char('Y') => {
                            self.running = false;
                        },
                        _ => {
                            self.pending_quit = false;
                        },
                    }
                    return;
                }
                if key.code == KeyCode::Char('c') && key.ctrl {
                    self.running = false;
                    return;
                }
                let typing = match self.views.current() {
                    View::Dashboard(d) => d.filter.active,
                    _ => false,
                };
                if key.code == KeyCode::Char('r') && !typing {
                    self.invalidate_cache();
                    return;
                }
                let is_root = self.views.is_root();
                let back = key.code == KeyCode::Char('q') || key.code == KeyCode::Esc
                    || key.code == KeyCode::Backspace;
                let kind: u8 = match self.views.current() {
                    View::Dashboard(_) => 0,
                    View::Pr(_) => 1,
                    View::LogViewer(_) => 2,
                    _ => 3,
                };
                if kind != 0 && back {
                    self.views.pop();
                    return;
                }
                if kind == 3 {
                    return;
                }
                let open = match self.views.current() {
                    View::Dashboard(d) => if key.code == KeyCode::Enter && !d.filter.active {
                        match selected_row(d.selected, self.repo_data.len()) {
                            Some(i) => split_repo_key(self.repo_data[i].key.as_str()),
                            None => None,
                        }
                    } else {
                        None
                    },
                    _ => None,
                };
                match self.views.current_mut() {
                    View::Dashboard(state) => {
                        handle_dashboard_key(state, key, is_root, &mut self.pending_quit);
                    },
                    View::Pr(state) => {
                        handle_pr_key(state, key);
                    },
                    View::LogViewer(state) => {
                        handle_log_viewer_key(state, key);
                    },
                    _ => {},
                }
                if let Some((owner, repo)) = open {
                    let ghost mid = self.views.views();
                    self.views.push(View::Repo(RepoViewState::new(owner, repo)));
                    assert(self.views.views().drop_last() =~= mid);
                }
            },
            _ => {},
        }
    }

    /// Whether terminal event `event` asks for a refresh; the program then
    /// also empties the client caches and fetches again.
    pub fn refresh_requested(&self, event: &TermEvent) -> (r: bool)
        requires
            self.views.views().len() >= 1,
        ensures
            r == (*event matches TermEvent::Key(key) && refresh_key(*self, key)),
    {
        match event {
            TermEvent::Key(key) => {
                let typing = match self.views.current() {
                    View::Dashboard(d) => d.filter.active,
                    _ => false,
                };
                !self.pending_quit && key.code == KeyCode::Char('r') && !(key.ctrl && key.code
                    == KeyCode::Char('c')) && !typing
            },
            _ => false,
        }
    }

    /// Handle an AppEvent at time `now` (milliseconds of the monotonic clock).
    pub fn handle_event(&mut self, event: AppEvent, now: u64)
        requires
            old(self).views.views().len() >= 1,
            event matches AppEvent::TerminalEvent(ev) ==> term_event_in_range(*old(self), ev),
        ensures
            final(self).views.views().len() >= 1,
            final(self).rate_limit == rate_after(old(self).rate_limit, event, now),
            match event {
                AppEvent::DataFetched(d) => {
                    &&& forall|i: int| fetch_slot(old(self).fetch_state@, d.key@, i) ==> {
                        &&& final(self).fetch_state@[i].0 == old(self).fetch_state@[i].0
                        &&& !final(self).fetch_state@[i].1.loading
                        &&& final(self).fetch_state@[i].1.error is None
                        &&& final(self).fetch_state@[i].1.last_refreshed == Some(now)
                    }
                    &&& final(self).repo_data@ == with_repo_data(old(self).repo_data@, *d)
                    &&& final(self).fetch_state@ == with_fetch_state(
                        old(self).fetch_state@,
                        d.key@,
                        fetched_at(now),
                    )
                    &&& final(self).last_refreshed == Some(now)
                    &&& final(self).views == old(self).views
                    &&& final(self).rate_limit == old(self).rate_limit
                    &&& final(self).running == old(self).running
                    &&& final(self).pending_quit == old(self).pending_quit
                    &&& final(self).pr_detail == old(self).pr_detail
                    &&& final(self).log_content == old(self).log_content
                    &&& final(self).log_loading == old(self).log_loading
                    &&& final(self).log_job_complete == old(self).log_job_complete
                },
                AppEvent::FetchError { repo, message } => {
                    &&& forall|i: int| fetch_slot(old(self).fetch_state@, repo@, i) ==> {
                        &&& final(self).fetch_state@[i].0 == old(self).fetch_state@[i].0
                        &&& !final(self).fetch_state@[i].1.loading
                        &&& final(self).fetch_state@[i].1.error == Some(message)
                        &&& final(self).fetch_state@[i].1.last_refreshed == old(self).fetch_state@[i].1.last_refreshed
                    }
                    &&& final(self).fetch_state@ == with_fetch_state(
                        old(self).fetch_state@,
                        repo@,
                        failed_with(message),
                    )
                    &&& final(self).repo_data == old(self).repo_data
                    &&& final(self).last_refreshed == old(self).last_refreshed
                    &&& final(self).views == old(self).views
                    &&& final(self).rate_limit == old(self).rate_limit
                    &&& final(self).running == old(self).running
                    &&& final(self).pending_quit == old(self).pending_quit
                    &&& final(self).pr_detail == old(self).pr_detail
                    &&& final(self).log_content == old(self).log_content
                    &&& final(self).log_loading == old(self).log_loading
                    &&& final(self).log_job_complete == old(self).log_job_complete
                },
                AppEvent::RateLimited { reset_at } => {
                    &&& final(self).rate_limit == (RateLimitState {
                        is_blocked: true,
                        reset_at: Some(reset_at),
                        ..old(self).rate_limit
                    })
                    &&& same_data(
                        AppState { rate_limit: final(self).rate_limit, ..*old(self) },
                        *final(self),
                    )
                    &&& final(self).views == old(self).views
                    &&& final(self).running == old(self).running
                    &&& final(self).pending_quit == old(self).pending_quit
                },
                AppEvent::TerminalEvent(ev) => term_event_effect(*old(self), *final(self), ev),
                AppEvent::Tick => {
                    &&& final(self).rate_limit == (if old(self).rate_limit.reset_at matches Some(t) && now >= t {
                        RateLimitState { is_blocked: false, ..old(self).rate_limit }
                    } else {
                        old(self).rate_limit
                    })
                    &&& same_data(
                        AppState { rate_limit: final(self).rate_limit, ..*old(self) },
                        *final(self),
                    )
                    &&& final(self).views == old(self).views
                    &&& final(self).running == old(self).running
                    &&& final(self).pending_quit == old(self).pending_quit
                },
                AppEvent::LogFetched { job_id, content, is_complete } => {
                    &&& !final(self).log_loading
                    &&& final(self).log_job_complete == is_complete
                    &&& log_stored(final(self).log_content@, old(self).log_content@, job_id, content@)
                    &&& (old(self).views.views().last() matches View::LogViewer(s) ==> {
                        &&& final(self).views.views().len() == old(self).views.views().len()
                        &&& final(self).views.views() == old(self).views.views().update(
                            old(self).views.views().len() - 1,
                            final(self).views.views().last(),
                        )
                        &&& (final(self).views.views().last() matches View::LogViewer(t)
                            && log_view_refreshed(s, t, final(self).log_content@[job_id]@))
                        &&& !s.at_bottom ==> final(self).views.views().last()->LogViewer_0.scroll
                            == s.scroll && !final(self).views.views().last()->LogViewer_0.at_bottom
                    })
                    &&& (!(old(self).views.views().last() is LogViewer) ==> final(self).views
                        == old(self).views)
                    &&& final(self).repo_data == old(self).repo_data
                    &&& final(self).fetch_state == old(self).fetch_state
                    &&& final(self).rate_limit == old(self).rate_limit
                    &&& final(self).last_refreshed == old(self).last_refreshed
                    &&& final(self).running == old(self).running
                    &&& final(self).pending_quit == old(self).pending_quit
                    &&& final(self).pr_detail == old(self).pr_detail
                },
                AppEvent::LogLoading { .. } => {
                    &&& final(self).log_loading
                    &&& final(self).views == old(self).views
                    &&& final(self).repo_data == old(self).repo_data
                    &&& final(self).fetch_state == old(self).fetch_state
                    &&& final(self).rate_limit == old(self).rate_limit
                    &&& final(self).last_refreshed == old(self).last_refreshed
                    &&& final(self).running == old(self).running
                    &&& final(self).pending_quit == old(self).pending_quit
                    &&& final(self).pr_detail == old(self).pr_detail
                    &&& final(self).log_content == old(self).log_content
                    &&& final(self).log_job_complete == old(self).log_job_complete
                },
            },
    {
        match event {
            AppEvent::DataFetched(data) => {
                let data = *data;
                let key = data.key.clone();
                match find_data(&self.repo_data, &key) {
                    Some(i) => {
                        proof {
                            let c = choose|c: int| data_slot(self.repo_data@, key@, c);
                            lemma_data_slot_unique(self.repo_data@, key@, i as int, c);
                        }
                        self.repo_data.set(i, data);
                    },
                    None => {
                        self.repo_data.push(data);
                    },
                }
                match find_fetch(&self.fetch_state, &key) {
                    Some(i) => {
                        proof {
                            let c = choose|c: int| fetch_slot(self.fetch_state@, key@, c);
                            lemma_fetch_slot_unique(self.fetch_state@, key@, i as int, c);
                        }
                        let k = self.fetch_state[i].0.clone();
                        self.fetch_state.set(
                            i,
                            (k, RepoFetchState { loading: false, error: None, last_refreshed: Some(now) }),
                        );
                    },
                    None => {},
                }
                self.last_refreshed = Some(now);
            },
            AppEvent::FetchError { repo, message } => {
                match find_fetch(&self.fetch_state, &repo) {
                    Some(i) => {
                        proof {
                            let c = choose|c: int| fetch_slot(self.fetch_state@, repo@, c);
                            lemma_fetch_slot_unique(self.fetch_state@, repo@, i as int, c);
                        }
                        let k = self.fetch_state[i].0.clone();
                        let last = self.fetch_state[i].1.last_refreshed;
                        self.fetch_state.set(
                            i,
                            (k, RepoFetchState { loading: false, error: Some(message), last_refreshed: last }),
                        );
                    },
                    None => {},
                }
            },
            AppEvent::RateLimited { reset_at } => {
                self.rate_limit.is_blocked = true;
                self.rate_limit.reset_at = Some(reset_at);
            },
            AppEvent::TerminalEvent(ev) => {
                self.handle_terminal_event(ev);
            },
            AppEvent::Tick => {
                if let Some(reset_at) = self.rate_limit.reset_at {
                    if now >= reset_at {
                        self.rate_limit.is_blocked = false;
                    }
                }
            },
            AppEvent::LogFetched { job_id, content, is_complete } => {
                self.log_loading = false;
                self.log_job_complete = is_complete;
                let lines = split_lines(content.as_str());
                let total = lines.len();
                let starts = parse_step_boundaries(lines.as_slice());
                let ghost stored_lines = lines@;
                self.log_content.insert(job_id, lines);
                assert(self.log_content@.remove(job_id) =~= old(self).log_content@.remove(job_id));
                let is_log = match self.views.current() {
                    View::LogViewer(_) => true,
                    _ => false,
                };
                if is_log {
                    match self.views.current_mut() {
                        View::LogViewer(s) => {
                            s.total_lines = total;
                            s.step_starts = starts;
                            if s.at_bottom {
                                s.scroll = total.saturating_sub(1);
                                s.at_bottom = true;
                            }
                        },
                        _ => {},
                    }
                }
            },
            AppEvent::LogLoading { .. } => {
                self.log_loading = true;
            },
        }
    }
}


// ── Laws ──────────────────────────────────────────────────────────────────────

/// After data for a repository arrives, its key holds exactly that data, and
/// every other key holds what it held before.
pub proof fn law_fetched_data_is_served(s: Seq<RepoData>, d: RepoData, other: Seq<char>)
    requires
        other != d.key@,
    ensures
        exists|i: int| data_slot(with_repo_data(s, d), d.key@, i) && with_repo_data(s, d)[i] == d,
        forall|i: int| data_slot(s, other, i) <==> data_slot(with_repo_data(s, d), other, i),
        forall|i: int| data_slot(s, other, i) ==> with_repo_data(s, d)[i] == s[i],
{
    let s2 = with_repo_data(s, d);
    let k = d.key@;
    if exists|i: int| data_slot(s, k, i) {
        let w = choose|i: int| data_slot(s, k, i);
        assert(data_slot(s2, k, w)) by {
            assert forall|j: int| 0 <= j < w implies (#[trigger] s2[j]).key@ != k by {
                assert(s2[j] == s[j]);
            }
        }
        assert forall|i: int| data_slot(s, other, i) <==> data_slot(s2, other, i) by {
            if data_slot(s, other, i) {
                assert(i != w);
                assert forall|j: int| 0 <= j < i implies (#[trigger] s2[j]).key@ != other by {
                    if j != w {
                        assert(s2[j] == s[j]);
                    }
                }
            }
            if data_slot(s2, other, i) {
                assert(i != w);
                assert(s2[i] == s[i]);
                assert forall|j: int| 0 <= j < i implies (#[trigger] s[j]).key@ != other by {
                    if j != w {
                        assert(s2[j] == s[j]);
                    }
                }
            }
        }
    } else {
        let w = s.len() as int;
        assert forall|j: int| 0 <= j < s.len() implies (#[trigger] s[j]).key@ != k by {
            if s[j].key@ == k {
                lemma_first_data_slot(s, k, j);
            }
        }
        assert(data_slot(s2, k, w)) by {
            assert forall|j: int| 0 <= j < w implies (#[trigger] s2[j]).key@ != k by {
                assert(s2[j] == s[j]);
            }
        }
        assert forall|i: int| data_slot(s, other, i) <==> data_slot(s2, other, i) by {
            if data_slot(s, other, i) {
                assert forall|j: int| 0 <= j < i implies (#[trigger] s2[j]).key@ != other by {
                    assert(s2[j] == s[j]);
                }
            }
            if data_slot(s2, other, i) {
                assert(i != w);
                assert(s2[i] == s[i]);
                assert forall|j: int| 0 <= j < i implies (#[trigger] s[j]).key@ != other by {
                    assert(s2[j] == s[j]);
                }
            }
        }
    }
}

proof fn lemma_first_data_slot(s: Seq<RepoData>, k: Seq<char>, j: int)
    requires
        0 <= j < s.len(),
        s[j].key@ == k,
    ensures
        exists|i: int| data_slot(s, k, i),
    decreases j,
{
    if exists|m: int| 0 <= m < j && (#[trigger] s[m]).key@ == k {
        let m = choose|m: int| 0 <= m < j && (#[trigger] s[m]).key@ == k;
        lemma_first_data_slot(s, k, m);
    } else {
        assert(data_slot(s, k, j));
    }
}

/// Storing fetched data keeps one entry per repository.
pub proof fn law_repo_keys_stay_distinct(s: Seq<RepoData>, d: RepoData)
    requires
        data_keys_distinct(s),
    ensures
        data_keys_distinct(with_repo_data(s, d)),
{
    let s2 = with_repo_data(s, d);
    let k = d.key@;
    if exists|i: int| data_slot(s, k, i) {
        let w = choose|i: int| data_slot(s, k, i);
        assert forall|i: int, j: int| 0 <= i < j < s2.len() implies (#[trigger] s2[i]).key@ != (#[trigger] s2[j]).key@ by {
            if i != w && j != w {
                assert(s2[i] == s[i] && s2[j] == s[j]);
            } else if i == w {
                assert(s2[j] == s[j]);
                assert(s[w].key@ == k);
            } else {
                assert(s2[i] == s[i]);
                assert(s[w].key@ == k);
            }
        }
    } else {
        assert forall|i: int, j: int| 0 <= i < j < s2.len() implies (#[trigger] s2[i]).key@ != (#[trigger] s2[j]).key@ by {
            assert(s2[i] == s[i]);
            if j == s.len() {
                if s[i].key@ == k {
                    lemma_first_data_slot(s, k, i);
                }
            } else {
                assert(s2[j] == s[j]);
            }
        }
    }
}

/// A key press never empties the view stack: the back key pops only above the root.
pub proof fn law_keys_keep_a_view(vs: Seq<View>, vs2: Seq<View>, key: KeyInput, q: bool, q2: bool)
    requires
        vs.len() >= 1,
        key_effect_on_views(vs, vs2, key, q, q2),
    ensures
        vs2.len() >= 1,
{
}

/// Quitting takes confirmation: a key other than Ctrl-C never stops the app
/// unless a quit was pending, and `y` after the request stops it.
pub proof fn law_quit_needs_confirmation(before: AppState, after: AppState, key: KeyInput)
    requires
        term_event_effect(before, after, TermEvent::Key(key)),
    ensures
        !before.pending_quit && !(key.code == KeyCode::Char('c') && key.ctrl) ==> after.running
            == before.running,
        before.pending_quit && key.code == KeyCode::Char('y') ==> !after.running,
        before.pending_quit && key.code != KeyCode::Char('y') && key.code != KeyCode::Char('Y')
            ==> after.running == before.running && !after.pending_quit,
{
}

/// The back key on the dashboard at the root asks for confirmation instead of quitting.
pub proof fn law_back_at_root_asks_to_quit(before: AppState, after: AppState, key: KeyInput)
    requires
        term_event_effect(before, after, TermEvent::Key(key)),
        !before.pending_quit,
        is_back_key(key.code),
        before.views.views().len() == 1,
        before.views.views().last() matches View::Dashboard(d) && !d.filter.active,
    ensures
        after.running == before.running,
        after.pending_quit,
{
}


/// A rate limit holds until the first tick at or after its reset time: after
/// `RateLimited { reset_at: t }` and any later events without another rate
/// limit, the reset time is still `t`, and the client is blocked exactly when
/// no tick at `t` or later has come.
pub proof fn law_rate_limit_holds_until_tick(
    r: RateLimitState,
    t: u64,
    at: u64,
    evs: Seq<(AppEvent, u64)>,
)
    requires
        forall|i: int| 0 <= i < evs.len() ==> !((#[trigger] evs[i]).0 is RateLimited),
    ensures
        rate_through(rate_after(r, AppEvent::RateLimited { reset_at: t }, at), evs).reset_at == Some(t),
        rate_through(rate_after(r, AppEvent::RateLimited { reset_at: t }, at), evs).is_blocked
            == !(exists|i: int| 0 <= i < evs.len() && (#[trigger] evs[i]).0 is Tick && evs[i].1 >= t),
    decreases evs.len(),
{
    let r0 = rate_after(r, AppEvent::RateLimited { reset_at: t }, at);
    if evs.len() > 0 {
        let prev = evs.drop_last();
        assert forall|i: int| 0 <= i < prev.len() implies !((#[trigger] prev[i]).0 is RateLimited) by {
            assert(prev[i] == evs[i]);
        }
        law_rate_limit_holds_until_tick(r, t, at, prev);
        let last = evs.last();
        assert(!(last.0 is RateLimited));
        let ticked_before = exists|i: int| 0 <= i < prev.len() && (#[trigger] prev[i]).0 is Tick && prev[i].1 >= t;
        let ticked = exists|i: int| 0 <= i < evs.len() && (#[trigger] evs[i]).0 is Tick && evs[i].1 >= t;
        if ticked_before {
            let i = choose|i: int| 0 <= i < prev.len() && (#[trigger] prev[i]).0 is Tick && prev[i].1 >= t;
            assert(evs[i] == prev[i]);
            assert(ticked);
        } else if last.0 is Tick && last.1 >= t {
            assert(evs[evs.len() - 1] == last);
            assert(ticked);
        } else {
            assert forall|i: int| 0 <= i < evs.len() implies !((#[trigger] evs[i]).0 is Tick && evs[i].1 >= t) by {
                if i < prev.len() {
                    assert(prev[i] == evs[i]);
                } else {
                    assert(evs[i] == last);
                }
            }
        }
    }
}

/// A pending quit takes the next key as its answer, and Ctrl-C stops the app
/// at once; in both cases no view sees the key and the data stays.
pub proof fn law_quit_answer_and_ctrl_c(before: AppState, after: AppState, key: KeyInput)
    requires
        term_event_effect(before, after, TermEvent::Key(key)),
        before.pending_quit || (key.code == KeyCode::Char('c') && key.ctrl),
    ensures
        after.views == before.views,
        same_data(before, after),
        before.pending_quit && (key.code == KeyCode::Char('y') || key.code == KeyCode::Char('Y'))
            ==> !after.running,
        before.pending_quit && !(key.code == KeyCode::Char('y') || key.code == KeyCode::Char('Y'))
            ==> !after.pending_quit && after.running == before.running,
        !before.pending_quit ==> !after.running && !after.pending_quit,
{
}

/// `q`, Esc and Backspace leave a view above the dashboard: the top view is
/// popped and the breadcrumb loses its last part; `q` and Esc on the
/// dashboard at the root ask to quit and keep its selection and filter.
pub proof fn law_leave_keys(before: AppState, after: AppState, key: KeyInput)
    requires
        term_event_effect(before, after, TermEvent::Key(key)),
        before.views.views().len() >= 1,
        !before.pending_quit,
        is_leave_key(key.code),
    ensures
        same_data(before, after),
        after.running == before.running,
        !(before.views.views().last() is Dashboard) && before.views.views().len() > 1 ==> {
            &&& after.views.views() == before.views.views().drop_last()
            &&& !after.pending_quit
            &&& crate::navigation::breadcrumb_of(before.views.views()) == crate::navigation::breadcrumb_of(
                after.views.views(),
            ) + " > "@ + crate::navigation::label_of(before.views.views().last())
        },
        is_back_key(key.code) && before.views.views().len() == 1 && (before.views.views().last() matches View::Dashboard(d) && !d.filter.active) ==> {
            &&& after.views.views().len() == 1
            &&& after.views.views()[0] is Dashboard
            &&& after.views.views()[0]->Dashboard_0.selected == before.views.views()[0]->Dashboard_0.selected
            &&& after.views.views()[0]->Dashboard_0.filter == before.views.views()[0]->Dashboard_0.filter
            &&& after.pending_quit
        },
{
    let vs = before.views.views();
    if !(vs.last() is Dashboard) && vs.len() > 1 {
        crate::navigation::law_breadcrumb_after_push(vs.drop_last(), vs.last());
        assert(vs.drop_last().push(vs.last()) =~= vs);
    }
}

/// The dashboard keys: while the filter takes input, Esc closes and clears
/// it, Backspace deletes its last character and any other character is
/// appended; otherwise `/` opens it, `j`/Down and `k`/Up move the selection
/// by one (saturating), `G` goes past the end, `g g` goes to the first row,
/// and `q`/Esc at the root ask to quit.
pub proof fn law_dashboard_keys(
    before: DashboardState,
    after: DashboardState,
    key: KeyInput,
    is_root: bool,
    quit_before: bool,
    quit_after: bool,
)
    requires
        dashboard_key_done(before, after, key, is_root, quit_before, quit_after),
    ensures
        before.filter.active ==> after.selected == before.selected && quit_after == quit_before,
        before.filter.active && key.code == KeyCode::Esc ==> !after.filter.active && after.filter.text@ == Seq::<char>::empty(),
        before.filter.active && key.code == KeyCode::Backspace ==> after.filter.text@ == (if before.filter.text@.len() > 0 {
            before.filter.text@.drop_last()
        } else {
            before.filter.text@
        }),
        forall|c: char| before.filter.active && key.code == KeyCode::Char(c) ==> after.filter.text@ == before.filter.text@.push(c),
        !before.filter.active ==> after.filter.text == before.filter.text,
        !before.filter.active && key.code == KeyCode::Char('/') ==> after.filter.active,
        !before.filter.active && is_down_key(key.code) ==> after.selected == (if before.selected < usize::MAX {
            before.selected + 1
        } else {
            before.selected as int
        }),
        !before.filter.active && is_up_key(key.code) ==> after.selected == (if before.selected > 0 {
            before.selected - 1
        } else {
            0
        }),
        !before.filter.active && key.code == KeyCode::Char('G') ==> after.selected == usize::MAX,
        !before.filter.active && key.code == KeyCode::Char('g') && before.last_g ==> after.selected == 0 && !after.last_g,
        !before.filter.active && key.code == KeyCode::Char('g') && !before.last_g ==> after.selected == before.selected && after.last_g,
        key.code != KeyCode::Char('g') ==> !after.last_g,
        !before.filter.active && is_back_key(key.code) && is_root ==> quit_after,
        !before.filter.active && !is_back_key(key.code) ==> quit_after == quit_before,
{
}

/// The line moves of the log viewer: `G` goes to the last line and follows
/// new lines, `j`/Down and `k`/Up move one line (saturating) and stop
/// following; the step starts, the current step and the line count stay.
pub proof fn law_log_line_moves(s: LogViewerState, code: KeyCode)
    requires
        code == KeyCode::Char('G') || is_down_key(code) || is_up_key(code),
    ensures
        log_view_after(s, code).step_starts == s.step_starts,
        log_view_after(s, code).current_step == s.current_step,
        log_view_after(s, code).total_lines == s.total_lines,
        code == KeyCode::Char('G') ==> log_view_after(s, code).at_bottom && log_view_after(s, code).scroll == (if s.total_lines > 0 {
            s.total_lines - 1
        } else {
            0
        }),
        is_down_key(code) ==> !log_view_after(s, code).at_bottom && log_view_after(s, code).scroll == (if s.scroll < usize::MAX {
            s.scroll + 1
        } else {
            s.scroll as int
        }),
        is_up_key(code) ==> !log_view_after(s, code).at_bottom && log_view_after(s, code).scroll == (if s.scroll > 0 {
            s.scroll - 1
        } else {
            0
        }),
{
}

proof fn lemma_first_above_exists(v: Seq<usize>, x: usize, k: int)
    requires
        0 <= k < v.len(),
        v[k] > x,
    ensures
        exists|i: int| first_above(v, x, i),
    decreases k,
{
    if exists|j: int| 0 <= j < k && #[trigger] v[j] > x {
        let j = choose|j: int| 0 <= j < k && #[trigger] v[j] > x;
        lemma_first_above_exists(v, x, j);
    } else {
        assert(first_above(v, x, k));
    }
}

proof fn lemma_last_below_exists(v: Seq<usize>, x: usize, k: int)
    requires
        0 <= k < v.len(),
        v[k] < x,
    ensures
        exists|i: int| last_below(v, x, i),
    decreases v.len() - k,
{
    if exists|j: int| k < j < v.len() && #[trigger] v[j] < x {
        let j = choose|j: int| k < j < v.len() && #[trigger] v[j] < x;
        lemma_last_below_exists(v, x, j);
    } else {
        assert(last_below(v, x, k));
    }
}

/// Over strictly increasing step starts, `]`/`n` jump to the nearest step
/// start after the current line and `[`/`p` to the nearest one before it,
/// with the current step set to its index; without such a step start the
/// viewer stays as it is. The step starts, the line count and following the
/// bottom never change.
pub proof fn law_step_jumps(s: LogViewerState, code: KeyCode)
    requires
        forall|a: int, b: int|
            0 <= a < b < s.step_starts@.len() ==> #[trigger] s.step_starts@[a] < #[trigger] s.step_starts@[b],
        code == KeyCode::Char(']') || code == KeyCode::Char('n') || code == KeyCode::Char('[')
            || code == KeyCode::Char('p'),
    ensures
        log_view_after(s, code).step_starts == s.step_starts,
        log_view_after(s, code).total_lines == s.total_lines,
        log_view_after(s, code).at_bottom == s.at_bottom,
        (code == KeyCode::Char(']') || code == KeyCode::Char('n')) && (exists|k: int|
            0 <= k < s.step_starts@.len() && #[trigger] s.step_starts@[k] > s.scroll) ==> {
            let t = log_view_after(s, code);
            &&& t.current_step < s.step_starts@.len()
            &&& t.scroll == s.step_starts@[t.current_step as int]
            &&& t.scroll > s.scroll
            &&& forall|k: int| 0 <= k < s.step_starts@.len() && #[trigger] s.step_starts@[k] > s.scroll ==> t.scroll <= s.step_starts@[k]
        },
        (code == KeyCode::Char('[') || code == KeyCode::Char('p')) && (exists|k: int|
            0 <= k < s.step_starts@.len() && #[trigger] s.step_starts@[k] < s.scroll) ==> {
            let t = log_view_after(s, code);
            &&& t.current_step < s.step_starts@.len()
            &&& t.scroll == s.step_starts@[t.current_step as int]
            &&& t.scroll < s.scroll
            &&& forall|k: int| 0 <= k < s.step_starts@.len() && #[trigger] s.step_starts@[k] < s.scroll ==> s.step_starts@[k] <= t.scroll
        },
        !(exists|k: int| 0 <= k < s.step_starts@.len() && #[trigger] s.step_starts@[k] > s.scroll)
            && (code == KeyCode::Char(']') || code == KeyCode::Char('n')) ==> log_view_after(s, code) == s,
        !(exists|k: int| 0 <= k < s.step_starts@.len() && #[trigger] s.step_starts@[k] < s.scroll)
            && (code == KeyCode::Char('[') || code == KeyCode::Char('p')) ==> log_view_after(s, code) == s,
{
    let v = s.step_starts@;
    if code == KeyCode::Char(']') || code == KeyCode::Char('n') {
        if exists|k: int| 0 <= k < v.len() && #[trigger] v[k] > s.scroll {
            let k = choose|k: int| 0 <= k < v.len() && #[trigger] v[k] > s.scroll;
            lemma_first_above_exists(v, s.scroll, k);
            let i = choose|i: int| first_above(v, s.scroll, i);
            assert(v.len() == s.step_starts.len());
            let t = log_view_after(s, code);
            assert(t.scroll == v[i]);
            assert(t.current_step == i);
            assert forall|k: int| 0 <= k < v.len() && #[trigger] v[k] > s.scroll implies v[i] <= v[k] by {
                if k < i {
                    assert(v[k] <= s.scroll);
                } else if i < k {
                    assert(v[i] < v[k]);
                }
            }
        } else {
            assert(!exists|i: int| first_above(v, s.scroll, i));
        }
    } else {
        if exists|k: int| 0 <= k < v.len() && #[trigger] v[k] < s.scroll {
            let k = choose|k: int| 0 <= k < v.len() && #[trigger] v[k] < s.scroll;
            lemma_last_below_exists(v, s.scroll, k);
            let i = choose|i: int| last_below(v, s.scroll, i);
            let target = v[i];
            assert forall|j: int| 0 <= j < i implies #[trigger] v[j] != target by {
                assert(v[j] < v[i]);
            }
            assert(first_equal(v, target, i));
            let f = choose|f: int| first_equal(v, target, f);
            lemma_first_equal_unique(v, target, i, f);
            assert(v.len() == s.step_starts.len());
            let t = log_view_after(s, code);
            assert(t.scroll == v[i]);
            assert(t.current_step == i);
            assert forall|k: int| 0 <= k < v.len() && #[trigger] v[k] < s.scroll implies v[k] <= v[i] by {
                if k > i {
                    assert(v[k] >= s.scroll);
                } else if k < i {
                    assert(v[k] < v[i]);
                }
            }
        } else {
            assert(!exists|i: int| last_below(v, s.scroll, i));
        }
    }
}

/// `r` refreshes: every repository is loading again and none counts as
/// refreshed, while the views, the data shown and the quit state stay.
pub proof fn law_r_refreshes(before: AppState, after: AppState, key: KeyInput)
    requires
        term_event_effect(before, after, TermEvent::Key(key)),
        refresh_key(before, key),
    ensures
        after.fetch_state@.len() == before.fetch_state@.len(),
        forall|i: int| 0 <= i < after.fetch_state@.len() ==> (#[trigger] after.fetch_state@[i]).1.loading
            && after.fetch_state@[i].1.last_refreshed is None && after.fetch_state@[i].0 == before.fetch_state@[i].0,
        after.last_refreshed is None,
        after.repo_data == before.repo_data,
        after.views == before.views,
        after.running == before.running,
        after.pending_quit == before.pending_quit,
{
    assert forall|i: int| 0 <= i < after.fetch_state@.len() implies (#[trigger] after.fetch_state@[i]).1.loading
        && after.fetch_state@[i].1.last_refreshed is None && after.fetch_state@[i].0 == before.fetch_state@[i].0 by {
        assert(after.fetch_state@[i] == reloading(before.fetch_state@[i]));
    }
}

/// Enter on the dashboard opens the repository of the selected row: its view
/// is pushed on the stack, with owner and repository split at the first `/`.
pub proof fn law_enter_opens_repo(before: AppState, after: AppState, key: KeyInput)
    requires
        term_event_effect(before, after, TermEvent::Key(key)),
        !before.pending_quit,
        key.code == KeyCode::Enter,
        before.views.views().len() >= 1,
        before.views.views().last() is Dashboard,
        !before.views.views().last()->Dashboard_0.filter.active,
        before.repo_data@.len() > 0,
    ensures
        ({
            let i = row_of(before.views.views().last()->Dashboard_0.selected, before.repo_data@.len())->0;
            let k = before.repo_data@[i].key@;
            (exists|j: int| 0 <= j < k.len() && k[j] == '/') ==> {
                &&& after.views.views().len() == before.views.views().len() + 1
                &&& repo_view_of(after.views.views().last(), k)
            }
        }),
        after.running == before.running,
        !after.pending_quit,
{
}

/// A successful fetch clears the failure of the one before: after data for
/// repository `k` arrives at `now`, its fetch state is loaded, holds no error
/// and was refreshed at `now`, whatever it held before; the fetch state of
/// every other repository stays as it was.
pub proof fn law_fetch_success_clears_error(
    s: Seq<(String, RepoFetchState)>,
    k: Seq<char>,
    now: u64,
    i: int,
)
    requires
        fetch_slot(s, k, i),
    ensures
        with_fetch_state(s, k, fetched_at(now)).len() == s.len(),
        with_fetch_state(s, k, fetched_at(now))[i].0 == s[i].0,
        !with_fetch_state(s, k, fetched_at(now))[i].1.loading,
        with_fetch_state(s, k, fetched_at(now))[i].1.error is None,
        with_fetch_state(s, k, fetched_at(now))[i].1.last_refreshed == Some(now),
        forall|j: int| 0 <= j < s.len() && j != i ==> #[trigger] with_fetch_state(s, k, fetched_at(now))[j] == s[j],
{
    let c = choose|c: int| fetch_slot(s, k, c);
    lemma_fetch_slot_unique(s, k, i, c);
}

/// Tab in the pull request view cycles through its three panels: from a
/// panel it always moves to another one, from the first to the second, and
/// three presses come back to where they started; nothing else changes.
pub proof fn law_tab_cycles_three_panels(s: PrViewState)
    requires
        s.focused_panel < 3,
    ensures
        pr_view_after(s, KeyCode::Tab).focused_panel < 3,
        pr_view_after(s, KeyCode::Tab).focused_panel != s.focused_panel,
        s.focused_panel == 0 ==> pr_view_after(s, KeyCode::Tab).focused_panel == 1,
        pr_view_after(
            pr_view_after(pr_view_after(s, KeyCode::Tab), KeyCode::Tab),
            KeyCode::Tab,
        ) == s,
        pr_view_after(s, KeyCode::Tab).body_scroll == s.body_scroll,
        pr_view_after(s, KeyCode::Tab).files_scroll == s.files_scroll,
        pr_view_after(s, KeyCode::Tab).pr_number == s.pr_number,
{
}

/// A log that arrives while the reader has scrolled away from the bottom
/// leaves the reader where they are, whatever the new log holds; a reader at
/// the bottom follows the log to its last line.
pub proof fn law_log_refresh_keeps_reader_place(
    s: LogViewerState,
    t1: LogViewerState,
    lines1: Seq<String>,
    t2: LogViewerState,
    lines2: Seq<String>,
)
    requires
        log_view_refreshed(s, t1, lines1),
        log_view_refreshed(s, t2, lines2),
    ensures
        !s.at_bottom ==> t1.scroll == s.scroll && !t1.at_bottom,
        !s.at_bottom ==> t1.scroll == t2.scroll,
        s.at_bottom ==> t1.at_bottom && (lines1.len() > 0 ==> t1.scroll == lines1.len() - 1),
        t1.total_lines == lines1.len(),
        t1.job_id == s.job_id,
{
}

/// A failed fetch records its message and stops loading, but keeps the time
/// of the last successful refresh; other repositories are untouched.
pub proof fn law_fetch_failure_records_error(
    s: Seq<(String, RepoFetchState)>,
    k: Seq<char>,
    message: String,
    i: int,
)
    requires
        fetch_slot(s, k, i),
    ensures
        with_fetch_state(s, k, failed_with(message)).len() == s.len(),
        with_fetch_state(s, k, failed_with(message))[i].0 == s[i].0,
        !with_fetch_state(s, k, failed_with(message))[i].1.loading,
        with_fetch_state(s, k, failed_with(message))[i].1.error == Some(message),
        with_fetch_state(s, k, failed_with(message))[i].1.last_refreshed == s[i].1.last_refreshed,
        forall|j: int| 0 <= j < s.len() && j != i ==> #[trigger] with_fetch_state(s, k, failed_with(message))[j] == s[j],
{
    let c = choose|c: int| fetch_slot(s, k, c);
    lemma_fetch_slot_unique(s, k, i, c);
}

} // verus!
