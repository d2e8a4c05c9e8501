//! GitHub API client state: in-memory TTL cache, rate limit tracking, the
//! retry policy, and the mapping of API records onto the models.
//!
//! The network requests themselves are asynchronous and are made by the
//! program around this library with the client's `Octocrab` handle; this
//! module decides what is served from the cache, what is stored, when to
//! retry and how a response becomes a model value.

use vstd::prelude::*;

use super::models::{
    conclusion_named, parse_run_conclusion, parse_run_status, status_named, ChangedFile, CheckRun,
    CommitSummary, FileChangeType, JobSummary, MergeableState, PrDetail, PrSummary, RateLimitState,
    RepoSummary, ReviewerStatus, WorkflowRunSummary,
};
use crate::text::{
    contains_seq, decimal, first_line, first_line_of, push_decimal, push_str, str_contains,
    string_of,
};

verus! {

#[verifier::external_type_specification]
#[verifier::external_body]
pub struct ExOctocrab(octocrab::Octocrab);

#[verifier::external_type_specification]
#[verifier::external_body]
pub struct ExRuntimeHandle(tokio::runtime::Handle);

/// `c` may stand in an HTTP header value: tab, visible ASCII, or any
/// character beyond ASCII (whose UTF-8 bytes are all 128 or more).
pub open spec fn header_char(c: char) -> bool {
    c == '\t' || (c as u32 >= 32 && c as u32 != 127)
}

/// Every character of `token` may stand in an HTTP header value.
pub open spec fn fits_header(token: Seq<char>) -> bool {
    forall|i: int| 0 <= i < token.len() ==> header_char(#[trigger] token[i])
}

/// Calls `Octocrab::builder().personal_token(token).build()` inside the
/// context of the Tokio runtime `runtime` (the client spawns its request
/// worker there). `build` turns `Bearer {token}` into a header value and
/// unwraps the result, so the token must hold no control character but tab;
/// that is the `requires`. Nothing is claimed of the outcome: building the
/// HTTP stack depends on the machine (TLS roots); an error is handed back as
/// its display text. Entering the runtime context fails only while the
/// thread's own storage is being torn down, which the code here never does.
#[verifier::external_body]
fn build_octocrab(token: String, runtime: &tokio::runtime::Handle) -> (r: Result<octocrab::Octocrab, String>)
    requires
        fits_header(token@),
{
    let _context = runtime.enter();
    match octocrab::Octocrab::builder().personal_token(token).build() {
        Ok(o) => Ok(o),
        Err(e) => Err(e.to_string()),
    }
}

/// Whether `token` can be sent as a bearer token: no control character but tab.
pub fn token_fits_header(token: &str) -> (r: bool)
    ensures
        r == fits_header(token@),
{
    let v = crate::text::chars_of(token);
    let mut i: usize = 0;
    while i < v.len()
        invariant
            v@ == token@,
            i <= v@.len(),
            forall|j: int| 0 <= j < i ==> header_char(#[trigger] v@[j]),
        decreases v.len() - i,
    {
        let c = v[i];
        let u = c as u32;
        if !(c == '\t' || (u >= 32 && u != 127)) {
            assert(!header_char(token@[i as int]));
            return false;
        }
        i = i + 1;
    }
    true
}

// ── Errors ────────────────────────────────────────────────────────────────────

/// Errors from the GitHub client.
#[derive(Debug)]
pub enum ClientError {
    Api(String),
    RateLimited { reset_secs: u64 },
    Network { attempts: u8, detail: String },
    Parse(String),
}

/// The message of a client error.
pub open spec fn client_error_text(e: ClientError) -> Seq<char> {
    match e {
        ClientError::Api(m) => "GitHub API error: "@ + m@,
        ClientError::RateLimited { reset_secs } => "Rate limited \u{2014} resets in "@ + decimal(
            reset_secs as nat,
        ) + "s"@,
        ClientError::Network { attempts, detail } => "Network error after "@ + decimal(
            attempts as nat,
        ) + " attempts: "@ + detail@,
        ClientError::Parse(m) => "Response parse error: "@ + m@,
    }
}

impl ClientError {
    /// The message of this error: its kind, then its details.
    pub fn describe(&self) -> (r: String)
        ensures
            r@ == client_error_text(*self),
    {
        match self {
            ClientError::Api(m) => {
                let mut r = string_of("GitHub API error: ");
                push_str(&mut r, m.as_str());
                r
            },
            ClientError::RateLimited { reset_secs } => {
                let mut r = string_of("Rate limited \u{2014} resets in ");
                push_decimal(&mut r, *reset_secs);
                push_str(&mut r, "s");
                r
            },
            ClientError::Network { attempts, detail } => {
                let mut r = string_of("Network error after ");
                push_decimal(&mut r, *attempts as u64);
                push_str(&mut r, " attempts: ");
                push_str(&mut r, detail.as_str());
                r
            },
            ClientError::Parse(m) => {
                let mut r = string_of("Response parse error: ");
                push_str(&mut r, m.as_str());
                r
            },
        }
    }
}

// ── Cache keys and entries ────────────────────────────────────────────────────

/// Cache key identifying a specific resource.
#[derive(Debug, Clone)]
pub enum CacheKey {
    RepoSummary { owner: String, repo: String },
    RecentCommits { owner: String, repo: String, branch: String },
    OpenPrs { owner: String, repo: String },
    PrDetail { owner: String, repo: String, number: u64 },
    WorkflowRuns { owner: String, repo: String },
    WorkflowRunJobs { owner: String, repo: String, run_id: u64 },
}

/// What identifies a cache key: its kind, the texts it holds and its number.
pub struct KeyText {
    pub kind: u8,
    pub owner: Seq<char>,
    pub repo: Seq<char>,
    pub branch: Seq<char>,
    pub number: u64,
}

/// The identity of a key; two keys name the same resource when these agree.
pub open spec fn key_text(k: CacheKey) -> KeyText {
    match k {
        CacheKey::RepoSummary { owner, repo } => KeyText {
            kind: 0,
            owner: owner@,
            repo: repo@,
            branch: Seq::empty(),
            number: 0,
        },
        CacheKey::RecentCommits { owner, repo, branch } => KeyText {
            kind: 1,
            owner: owner@,
            repo: repo@,
            branch: branch@,
            number: 0,
        },
        CacheKey::OpenPrs { owner, repo } => KeyText {
            kind: 2,
            owner: owner@,
            repo: repo@,
            branch: Seq::empty(),
            number: 0,
        },
        CacheKey::PrDetail { owner, repo, number } => KeyText {
            kind: 3,
            owner: owner@,
            repo: repo@,
            branch: Seq::empty(),
            number,
        },
        CacheKey::WorkflowRuns { owner, repo } => KeyText {
            kind: 4,
            owner: owner@,
            repo: repo@,
            branch: Seq::empty(),
            number: 0,
        },
        CacheKey::WorkflowRunJobs { owner, repo, run_id } => KeyText {
            kind: 5,
            owner: owner@,
            repo: repo@,
            branch: Seq::empty(),
            number: run_id,
        },
    }
}

impl CacheKey {
    /// Whether `self` and `other` name the same resource.
    pub fn same_as(&self, other: &CacheKey) -> (r: bool)
        ensures
            r == (key_text(*self) == key_text(*other)),
    {
        match (self, other) {
            (
                CacheKey::RepoSummary { owner: a, repo: b },
                CacheKey::RepoSummary { owner: c, repo: d },
            ) => *a == *c && *b == *d,
            (
                CacheKey::RecentCommits { owner: a, repo: b, branch: e },
                CacheKey::RecentCommits { owner: c, repo: d, branch: f },
            ) => *a == *c && *b == *d && *e == *f,
            (CacheKey::OpenPrs { owner: a, repo: b }, CacheKey::OpenPrs { owner: c, repo: d }) => {
                *a == *c && *b == *d
            },
            (
                CacheKey::PrDetail { owner: a, repo: b, number: x },
                CacheKey::PrDetail { owner: c, repo: d, number: y },
            ) => *a == *c && *b == *d && *x == *y,
            (
                CacheKey::WorkflowRuns { owner: a, repo: b },
                CacheKey::WorkflowRuns { owner: c, repo: d },
            ) => *a == *c && *b == *d,
            (
                CacheKey::WorkflowRunJobs { owner: a, repo: b, run_id: x },
                CacheKey::WorkflowRunJobs { owner: c, repo: d, run_id: y },
            ) => *a == *c && *b == *d && *x == *y,
            _ => false,
        }
    }
}

/// A cached value with its expiry time (milliseconds of the monotonic clock).
pub struct CacheEntry<T> {
    pub value: T,
    pub expires_at: u64,
}

impl<T> CacheEntry<T> {
    /// The entry may still be served at time `now`.
    pub fn is_valid(&self, now: u64) -> (r: bool)
        ensures
            r == (now < self.expires_at),
    {
        now < self.expires_at
    }
}

/// TTL durations per resource class, in milliseconds.
#[derive(Debug, Clone, Copy)]
pub struct CacheTtls {
    pub repo_summary: u64,
    pub commits: u64,
    pub prs: u64,
    pub workflow_runs: u64,
    pub jobs: u64,
}

/// The TTLs a new client starts with.
pub open spec fn default_ttls() -> CacheTtls {
    CacheTtls {
        repo_summary: 60_000,
        commits: 60_000,
        prs: 30_000,
        workflow_runs: 30_000,
        jobs: 15_000,
    }
}

impl Default for CacheTtls {
    fn default() -> (r: Self)
        ensures
            r == default_ttls(),
    {
        CacheTtls {
            repo_summary: 60_000,
            commits: 60_000,
            prs: 30_000,
            workflow_runs: 30_000,
            jobs: 15_000,
        }
    }
}

// ── TTL cache ─────────────────────────────────────────────────────────────────

/// `i` is the first slot of `s` that holds key `t`.
pub open spec fn slot_of<T>(s: Seq<(CacheKey, CacheEntry<T>)>, t: KeyText, i: int) -> bool {
    &&& 0 <= i < s.len()
    &&& key_text(s[i].0) == t
    &&& forall|j: int| 0 <= j < i ==> key_text(#[trigger] s[j].0) != t
}

/// No slot of `s` holds key `t`.
pub open spec fn absent<T>(s: Seq<(CacheKey, CacheEntry<T>)>, t: KeyText) -> bool {
    forall|j: int| 0 <= j < s.len() ==> key_text(#[trigger] s[j].0) != t
}

/// What a lookup of key `t` at time `now` serves: the value of its entry
/// while that entry has not expired.
pub open spec fn cached<T>(s: Seq<(CacheKey, CacheEntry<T>)>, t: KeyText, now: u64) -> Option<T> {
    if exists|i: int| slot_of(s, t, i) {
        let i = choose|i: int| slot_of(s, t, i);
        if now < s[i].1.expires_at {
            Some(s[i].1.value)
        } else {
            None
        }
    } else {
        None
    }
}

/// `after` is `before` with entry `e` stored under key `t`: the first slot
/// that holds the key is overwritten, or a slot is added at the end.
pub open spec fn stored_under<T>(
    after: Seq<(CacheKey, CacheEntry<T>)>,
    before: Seq<(CacheKey, CacheEntry<T>)>,
    t: KeyText,
    e: CacheEntry<T>,
) -> bool {
    if exists|i: int| slot_of(before, t, i) {
        let i = choose|i: int| slot_of(before, t, i);
        &&& after.len() == before.len()
        &&& key_text(after[i].0) == t
        &&& after[i].1 == e
        &&& forall|j: int| 0 <= j < before.len() && j != i ==> #[trigger] after[j] == before[j]
    } else {
        &&& after.len() == before.len() + 1
        &&& forall|j: int| 0 <= j < before.len() ==> #[trigger] after[j] == before[j]
        &&& key_text(after[before.len() as int].0) == t
        &&& after[before.len() as int].1 == e
    }
}

proof fn lemma_slot_unique<T>(s: Seq<(CacheKey, CacheEntry<T>)>, t: KeyText, i: int, j: int)
    requires
        slot_of(s, t, i),
        slot_of(s, t, j),
    ensures
        i == j,
{
    if i < j {
        assert(key_text(s[i].0) != t);
    } else if j < i {
        assert(key_text(s[j].0) != t);
    }
}

proof fn lemma_first_slot<T>(s: Seq<(CacheKey, CacheEntry<T>)>, t: KeyText, j: int)
    requires
        0 <= j < s.len(),
        key_text(s[j].0) == t,
    ensures
        exists|i: int| slot_of(s, t, i),
    decreases j,
{
    if exists|k: int| 0 <= k < j && key_text(#[trigger] s[k].0) == t {
        let k = choose|k: int| 0 <= k < j && key_text(#[trigger] s[k].0) == t;
        lemma_first_slot(s, t, k);
    } else {
        assert(slot_of(s, t, j));
    }
}

/// A cache of values of type `T`, each stored under a key until it expires.
pub struct TtlCache<T> {
    entries: Vec<(CacheKey, CacheEntry<T>)>,
}

impl<T> TtlCache<T> {
    /// The slots of the cache, in the order they were added.
    pub closed spec fn slots(self) -> Seq<(CacheKey, CacheEntry<T>)> {
        self.entries@
    }

    /// An empty cache.
    pub fn new() -> (r: Self)
        ensures
            r.slots() == Seq::<(CacheKey, CacheEntry<T>)>::empty(),
    {
        TtlCache { entries: Vec::new() }
    }

    /// The first slot holding `key`, if any.
    fn find(&self, key: &CacheKey) -> (r: Option<usize>)
        ensures
            r matches Some(i) ==> slot_of(self.slots(), key_text(*key), i as int),
            r is None ==> absent(self.slots(), key_text(*key)),
    {
        let mut i: usize = 0;
        while i < self.entries.len()
            invariant
                i <= self.entries@.len(),
                forall|j: int| 0 <= j < i ==> key_text(#[trigger] self.entries@[j].0) != key_text(
                    *key,
                ),
            decreases self.entries.len() - i,
        {
            if self.entries[i].0.same_as(key) {
                return Some(i);
            }
            i = i + 1;
        }
        None
    }

    /// The value stored under `key`, if its entry has not expired at `now`.
    pub fn lookup(&self, key: &CacheKey, now: u64) -> (r: Option<&T>)
        ensures
            match r {
                Some(v) => cached(self.slots(), key_text(*key), now) == Some(*v),
                None => cached(self.slots(), key_text(*key), now) is None,
            },
    {
        match self.find(key) {
            Some(i) => {
                proof {
                    let t = key_text(*key);
                    let c = choose|c: int| slot_of(self.slots(), t, c);
                    lemma_slot_unique(self.slots(), t, i as int, c);
                }
                if self.entries[i].1.is_valid(now) {
                    Some(&self.entries[i].1.value)
                } else {
                    None
                }
            },
            None => None,
        }
    }

    /// Store `entry` under `key`, replacing what the key held.
    pub fn insert(&mut self, key: CacheKey, entry: CacheEntry<T>)
        ensures
            stored_under(final(self).slots(), old(self).slots(), key_text(key), entry),
    {
        match self.find(&key) {
            Some(i) => {
                proof {
                    let t = key_text(key);
                    let c = choose|c: int| slot_of(old(self).slots(), t, c);
                    lemma_slot_unique(old(self).slots(), t, i as int, c);
                }
                self.entries.set(i, (key, entry));
            },
            None => {
                self.entries.push((key, entry));
            },
        }
    }

    /// Drop every entry.
    pub fn clear(&mut self)
        ensures
            final(self).slots() == Seq::<(CacheKey, CacheEntry<T>)>::empty(),
    {
        self.entries.clear();
    }
}

/// A value stored under a key is what a lookup of that key gives back until
/// it expires, and nothing after.
pub proof fn law_lookup_after_store<T>(
    after: Seq<(CacheKey, CacheEntry<T>)>,
    before: Seq<(CacheKey, CacheEntry<T>)>,
    t: KeyText,
    e: CacheEntry<T>,
    now: u64,
)
    requires
        stored_under(after, before, t, e),
    ensures
        cached(after, t, now) == (if now < e.expires_at {
            Some(e.value)
        } else {
            None
        }),
{
    let i = if exists|i: int| slot_of(before, t, i) {
        choose|i: int| slot_of(before, t, i)
    } else {
        before.len() as int
    };
    assert forall|j: int| 0 <= j < i implies key_text(#[trigger] after[j].0) != t by {
        assert(after[j] == before[j]);
        if key_text(before[j].0) == t {
            lemma_first_slot(before, t, j);
        }
    }
    assert(slot_of(after, t, i));
    let c = choose|c: int| slot_of(after, t, c);
    lemma_slot_unique(after, t, i, c);
}

/// Storing under one key leaves what every other key serves unchanged.
pub proof fn law_store_keeps_other_keys<T>(
    after: Seq<(CacheKey, CacheEntry<T>)>,
    before: Seq<(CacheKey, CacheEntry<T>)>,
    t: KeyText,
    e: CacheEntry<T>,
    other: KeyText,
    now: u64,
)
    requires
        stored_under(after, before, t, e),
        other != t,
    ensures
        cached(after, other, now) == cached(before, other, now),
{
    let w = if exists|i: int| slot_of(before, t, i) {
        choose|i: int| slot_of(before, t, i)
    } else {
        before.len() as int
    };
    assert forall|j: int| 0 <= j < after.len() && j != w implies #[trigger] after[j] == before[j] by {}
    assert(key_text(after[w].0) == t);
    assert forall|i: int| slot_of(before, other, i) implies slot_of(after, other, i) by {
        assert(i != w);
        assert forall|j: int| 0 <= j < i implies key_text(#[trigger] after[j].0) != other by {
            if j != w {
                assert(after[j] == before[j]);
            }
        }
    }
    assert forall|i: int| slot_of(after, other, i) implies slot_of(before, other, i) by {
        assert(i != w);
        assert(i < before.len());
        assert(after[i] == before[i]);
        assert forall|j: int| 0 <= j < i implies key_text(#[trigger] before[j].0) != other by {
            if j != w {
                assert(after[j] == before[j]);
            } else {
                assert(key_text(before[j].0) == t);
            }
        }
    }
    if exists|i: int| slot_of(before, other, i) {
        let i = choose|i: int| slot_of(before, other, i);
        assert(slot_of(after, other, i));
        let c = choose|c: int| slot_of(after, other, c);
        lemma_slot_unique(after, other, i, c);
        assert(after[i] == before[i]);
    }
}

/// Pull request details are cached per number: the keys of two different
/// pull requests of a repository differ, so storing the detail of PR `n`
/// leaves what a lookup of any other PR `m` serves as it was (nothing, on a
/// cache that held nothing), while PR `n` itself serves what was stored.
pub proof fn law_pr_details_cached_per_number(
    after: Seq<(CacheKey, CacheEntry<PrDetail>)>,
    before: Seq<(CacheKey, CacheEntry<PrDetail>)>,
    owner: Seq<char>,
    repo: Seq<char>,
    n: u64,
    m: u64,
    e: CacheEntry<PrDetail>,
    now: u64,
)
    requires
        stored_under(after, before, pr_detail_key(owner, repo, n), e),
        n != m,
    ensures
        pr_detail_key(owner, repo, n) != pr_detail_key(owner, repo, m),
        cached(after, pr_detail_key(owner, repo, m), now) == cached(before, pr_detail_key(owner, repo, m), now),
        before.len() == 0 ==> cached(after, pr_detail_key(owner, repo, m), now) is None,
        now < e.expires_at ==> cached(after, pr_detail_key(owner, repo, n), now) == Some(e.value),
{
    law_store_keeps_other_keys(after, before, pr_detail_key(owner, repo, n), e, pr_detail_key(owner, repo, m), now);
    law_lookup_after_store(after, before, pr_detail_key(owner, repo, n), e, now);
}

/// Each cache key names one resource: keys made for different resources, or
/// for the same kind of resource with any argument different, never agree.
pub proof fn law_cache_keys_name_one_resource(
    o1: Seq<char>,
    r1: Seq<char>,
    b1: Seq<char>,
    x1: u64,
    o2: Seq<char>,
    r2: Seq<char>,
    b2: Seq<char>,
    x2: u64,
)
    ensures
        repo_summary_key(o1, r1) == repo_summary_key(o2, r2) ==> o1 == o2 && r1 == r2,
        commits_key(o1, r1, b1) == commits_key(o2, r2, b2) ==> o1 == o2 && r1 == r2 && b1 == b2,
        open_prs_key(o1, r1) == open_prs_key(o2, r2) ==> o1 == o2 && r1 == r2,
        pr_detail_key(o1, r1, x1) == pr_detail_key(o2, r2, x2) ==> o1 == o2 && r1 == r2 && x1 == x2,
        workflow_runs_key(o1, r1) == workflow_runs_key(o2, r2) ==> o1 == o2 && r1 == r2,
        jobs_key(o1, r1, x1) == jobs_key(o2, r2, x2) ==> o1 == o2 && r1 == r2 && x1 == x2,
        repo_summary_key(o1, r1) != commits_key(o2, r2, b2),
        repo_summary_key(o1, r1) != open_prs_key(o2, r2),
        repo_summary_key(o1, r1) != pr_detail_key(o2, r2, x2),
        repo_summary_key(o1, r1) != workflow_runs_key(o2, r2),
        repo_summary_key(o1, r1) != jobs_key(o2, r2, x2),
        commits_key(o1, r1, b1) != open_prs_key(o2, r2),
        commits_key(o1, r1, b1) != pr_detail_key(o2, r2, x2),
        commits_key(o1, r1, b1) != workflow_runs_key(o2, r2),
        commits_key(o1, r1, b1) != jobs_key(o2, r2, x2),
        open_prs_key(o1, r1) != pr_detail_key(o2, r2, x2),
        open_prs_key(o1, r1) != workflow_runs_key(o2, r2),
        open_prs_key(o1, r1) != jobs_key(o2, r2, x2),
        pr_detail_key(o1, r1, x1) != workflow_runs_key(o2, r2),
        pr_detail_key(o1, r1, x1) != jobs_key(o2, r2, x2),
        workflow_runs_key(o1, r1) != jobs_key(o2, r2, x2),
{
}

/// An emptied cache serves nothing.
pub proof fn law_cleared_cache_serves_nothing<T>(t: KeyText, now: u64)
    ensures
        cached(Seq::<(CacheKey, CacheEntry<T>)>::empty(), t, now) is None,
{
}

// ── Retry policy ──────────────────────────────────────────────────────────────

/// How many times a request is tried before the client gives up.
pub const MAX_ATTEMPTS: u8 = 3;

/// What to do after a failed attempt.
#[derive(Debug)]
pub enum RetryStep {
    /// Wait this many seconds, then try again.
    Backoff { secs: u64 },
    /// Stop and report this error.
    GiveUp(ClientError),
}

/// An error text that signals rate limiting.
pub open spec fn signals_rate_limit(e: Seq<char>) -> bool {
    contains_seq(e, "rate limit"@) || contains_seq(e, "403"@) || contains_seq(e, "429"@)
}

/// The wait after failed attempt `a` (counting from 0): 1, 2, 4, ... seconds.
pub open spec fn backoff_secs(a: nat) -> nat
    decreases a,
{
    if a == 0 {
        1
    } else {
        2 * backoff_secs((a - 1) as nat)
    }
}

proof fn lemma_backoff_monotone(a: nat, b: nat)
    requires
        a <= b,
    ensures
        backoff_secs(a) <= backoff_secs(b),
    decreases b - a,
{
    if a < b {
        lemma_backoff_monotone(a, (b - 1) as nat);
    }
}

proof fn lemma_backoff_62()
    ensures
        backoff_secs(62) == 0x4000_0000_0000_0000,
{
    reveal_with_fuel(backoff_secs, 63);
}

/// The decision after attempt `attempt` (counting from 0) of `max` failed
/// with an error whose text is `error`.
pub fn retry_step(attempt: u8, max: u8, error: &str) -> (r: RetryStep)
    requires
        attempt < max <= 64,
    ensures
        signals_rate_limit(error@) ==> r == RetryStep::GiveUp(
            ClientError::RateLimited { reset_secs: 60 },
        ),
        !signals_rate_limit(error@) && attempt + 1 < max ==> r == (RetryStep::Backoff {
            secs: backoff_secs(attempt as nat) as u64,
        }),
        !signals_rate_limit(error@) && attempt + 1 == max ==> (r matches RetryStep::GiveUp(
            ClientError::Network { attempts, detail },
        ) && attempts == max && detail@ == error@),
{
    if str_contains(error, "rate limit") || str_contains(error, "403") || str_contains(
        error,
        "429",
    ) {
        return RetryStep::GiveUp(ClientError::RateLimited { reset_secs: 60 });
    }
    if attempt + 1 < max {
        let mut secs: u64 = 1;
        let mut k: u8 = 0;
        while k < attempt
            invariant
                k <= attempt <= 62,
                secs == backoff_secs(k as nat),
            decreases attempt - k,
        {
            proof {
                lemma_backoff_monotone((k + 1) as nat, 62);
                lemma_backoff_62();
            }
            secs = secs * 2;
            k = k + 1;
        }
        RetryStep::Backoff { secs }
    } else {
        RetryStep::GiveUp(ClientError::Network { attempts: max, detail: string_of(error) })
    }
}

// ── Mapping API records onto models ───────────────────────────────────────────

/// `o`'s text, or `d` when there is none.
pub open spec fn text_or(o: Option<String>, d: Seq<char>) -> Seq<char> {
    match o {
        Some(s) => s@,
        None => d,
    }
}

/// A repository summary from the fields of GitHub's repository record.
pub fn repo_summary_from(
    owner_login: Option<String>,
    name: String,
    description: Option<String>,
    default_branch: Option<String>,
    stars: Option<u32>,
    forks: Option<u32>,
    open_issues: Option<u32>,
    language: Option<String>,
    visibility: Option<String>,
) -> (r: RepoSummary)
    ensures
        r.owner@ == text_or(owner_login, Seq::empty()),
        r.name == name,
        r.description == description,
        r.default_branch@ == text_or(default_branch, "main"@),
        r.stars == (match stars {
            Some(n) => n,
            None => 0,
        }),
        r.forks == (match forks {
            Some(n) => n,
            None => 0,
        }),
        r.open_pr_count == 0,
        r.open_issue_count == (match open_issues {
            Some(n) => n,
            None => 0,
        }),
        r.language == language,
        r.visibility@ == text_or(visibility, "public"@),
{
    RepoSummary {
        owner: match owner_login {
            Some(s) => s,
            None => String::new(),
        },
        name,
        description,
        default_branch: match default_branch {
            Some(s) => s,
            None => string_of("main"),
        },
        stars: match stars {
            Some(n) => n,
            None => 0,
        },
        forks: match forks {
            Some(n) => n,
            None => 0,
        },
        open_pr_count: 0,
        open_issue_count: match open_issues {
            Some(n) => n,
            None => 0,
        },
        language,
        visibility: match visibility {
            Some(s) => s,
            None => string_of("public"),
        },
    }
}

/// The first `n` characters of `s` (all of them when it is shorter).
pub open spec fn prefix_of(s: Seq<char>, n: nat) -> Seq<char> {
    if n <= s.len() {
        s.take(n as int)
    } else {
        s
    }
}

/// A commit summary from the fields of GitHub's commit record; `now` stands
/// in for a missing date.
pub fn commit_summary_from(
    sha: String,
    message: &str,
    author: Option<String>,
    date: Option<i64>,
    now: i64,
) -> (r: CommitSummary)
    ensures
        r.sha == sha,
        r.short_sha@ == prefix_of(sha@, 7),
        r.message@ == first_line_of(message@),
        r.author@ == text_or(author, "unknown"@),
        r.timestamp == (match date {
            Some(d) => d,
            None => now,
        }),
{
    let short_sha = crate::text::take_chars(sha.as_str(), 7);
    CommitSummary {
        sha,
        short_sha,
        message: first_line(message),
        author: match author {
            Some(a) => a,
            None => string_of("unknown"),
        },
        timestamp: match date {
            Some(d) => d,
            None => now,
        },
    }
}

/// A pull request summary from the fields of GitHub's pull request record;
/// `now` stands in for a missing update time.
pub fn pr_summary_from(
    number: u64,
    title: Option<String>,
    author: Option<String>,
    head_branch: String,
    updated_at: Option<i64>,
    now: i64,
) -> (r: PrSummary)
    ensures
        r.number == number,
        r.title@ == text_or(title, Seq::empty()),
        r.author@ == text_or(author, Seq::empty()),
        r.head_branch == head_branch,
        r.updated_at == (match updated_at {
            Some(d) => d,
            None => now,
        }),
{
    PrSummary {
        number,
        title: match title {
            Some(t) => t,
            None => String::new(),
        },
        author: match author {
            Some(a) => a,
            None => String::new(),
        },
        head_branch,
        updated_at: match updated_at {
            Some(d) => d,
            None => now,
        },
    }
}

/// The mergeable state GitHub's `mergeable` flag stands for.
pub fn mergeable_state_of(mergeable: Option<bool>) -> (r: MergeableState)
    ensures
        r == (match mergeable {
            Some(true) => MergeableState::Mergeable,
            Some(false) => MergeableState::Conflicting,
            None => MergeableState::Unknown,
        }),
{
    match mergeable {
        Some(true) => MergeableState::Mergeable,
        Some(false) => MergeableState::Conflicting,
        None => MergeableState::Unknown,
    }
}

/// A changed file from GitHub's diff entry; the line counts are kept to 32 bits.
pub fn changed_file_from(
    filename: String,
    change_type: FileChangeType,
    additions: u64,
    deletions: u64,
) -> (r: ChangedFile)
    ensures
        r.filename == filename,
        r.change_type == change_type,
        r.additions == additions as u32,
        r.deletions == deletions as u32,
{
    ChangedFile {
        filename,
        change_type,
        additions: additions as u32,
        deletions: deletions as u32,
    }
}

/// The most changed files a pull request detail lists.
pub const MAX_CHANGED_FILES: usize = 50;

/// A pull request detail from the fields of GitHub's pull request record and
/// its changed files; `now` stands in for missing times, and only the first
/// `MAX_CHANGED_FILES` files are kept.
pub fn pr_detail_from(
    number: u64,
    title: Option<String>,
    author: Option<String>,
    head_branch: String,
    base_branch: String,
    body: Option<String>,
    created_at: Option<i64>,
    updated_at: Option<i64>,
    mergeable: Option<bool>,
    files: Vec<ChangedFile>,
    now: i64,
) -> (r: PrDetail)
    ensures
        r.number == number,
        r.title@ == text_or(title, Seq::empty()),
        r.author@ == text_or(author, Seq::empty()),
        r.head_branch == head_branch,
        r.base_branch == base_branch,
        r.body == body,
        r.created_at == (match created_at {
            Some(d) => d,
            None => now,
        }),
        r.updated_at == (match updated_at {
            Some(d) => d,
            None => now,
        }),
        r.mergeable_state == (match mergeable {
            Some(true) => MergeableState::Mergeable,
            Some(false) => MergeableState::Conflicting,
            None => MergeableState::Unknown,
        }),
        r.reviewers@ == Seq::<ReviewerStatus>::empty(),
        r.check_runs@ == Seq::<CheckRun>::empty(),
        r.changed_files@ == (if files@.len() <= MAX_CHANGED_FILES {
            files@
        } else {
            files@.take(MAX_CHANGED_FILES as int)
        }),
{
    let mut files = files;
    files.truncate(MAX_CHANGED_FILES);
    PrDetail {
        number,
        title: match title {
            Some(t) => t,
            None => String::new(),
        },
        author: match author {
            Some(a) => a,
            None => String::new(),
        },
        head_branch,
        base_branch,
        body,
        created_at: match created_at {
            Some(d) => d,
            None => now,
        },
        updated_at: match updated_at {
            Some(d) => d,
            None => now,
        },
        mergeable_state: mergeable_state_of(mergeable),
        reviewers: Vec::new(),
        check_runs: Vec::new(),
        changed_files: files,
    }
}

/// A workflow run summary from the fields of GitHub's run record, for the
/// repository `owner/repo`.
pub fn workflow_run_from(
    id: u64,
    workflow_name: String,
    run_number: i64,
    event: String,
    actor: Option<String>,
    head_branch: String,
    head_commit_message: &str,
    status: &str,
    conclusion: Option<&str>,
    created_at: i64,
    updated_at: i64,
    owner: &str,
    repo: &str,
) -> (r: WorkflowRunSummary)
    ensures
        r.id == id,
        r.workflow_name == workflow_name,
        r.run_number == run_number as u64,
        r.event == event,
        r.actor@ == text_or(actor, Seq::empty()),
        r.head_branch == head_branch,
        r.head_commit_message@ == first_line_of(head_commit_message@),
        r.status == status_named(status@),
        conclusion is None ==> r.conclusion is None,
        (conclusion matches Some(c) ==> r.conclusion matches Some(rc) && conclusion_named(c@, rc)),
        r.created_at == created_at,
        r.updated_at == updated_at,
        (r.repo matches Some(k) && k@ == owner@ + "/"@ + repo@),
{
    let mut key = string_of(owner);
    push_str(&mut key, "/");
    push_str(&mut key, repo);
    WorkflowRunSummary {
        id,
        workflow_name,
        run_number: run_number as u64,
        event,
        actor: match actor {
            Some(a) => a,
            None => String::new(),
        },
        head_branch,
        head_commit_message: first_line(head_commit_message),
        status: parse_run_status(status),
        conclusion: match conclusion {
            Some(c) => Some(parse_run_conclusion(c)),
            None => None,
        },
        created_at,
        updated_at,
        repo: Some(key),
    }
}

// ── The client ────────────────────────────────────────────────────────────────

/// The GitHub API client with in-memory TTL cache and rate limit tracking.
pub struct GitHubClient {
    octocrab: octocrab::Octocrab,
    ttls: CacheTtls,
    cache_repo_summary: TtlCache<RepoSummary>,
    cache_commits: TtlCache<Vec<CommitSummary>>,
    cache_prs: TtlCache<Vec<PrSummary>>,
    cache_pr_detail: TtlCache<PrDetail>,
    cache_workflow_runs: TtlCache<Vec<WorkflowRunSummary>>,
    cache_jobs: TtlCache<Vec<JobSummary>>,
    /// Current rate limit state (updated after every API response).
    pub rate_limit: RateLimitState,
}

/// The key text of a repository summary.
pub open spec fn repo_summary_key(owner: Seq<char>, repo: Seq<char>) -> KeyText {
    KeyText { kind: 0, owner, repo, branch: Seq::empty(), number: 0 }
}

/// The key text of the recent commits of a branch.
pub open spec fn commits_key(owner: Seq<char>, repo: Seq<char>, branch: Seq<char>) -> KeyText {
    KeyText { kind: 1, owner, repo, branch, number: 0 }
}

/// The key text of the open pull requests of a repository.
pub open spec fn open_prs_key(owner: Seq<char>, repo: Seq<char>) -> KeyText {
    KeyText { kind: 2, owner, repo, branch: Seq::empty(), number: 0 }
}

/// The key text of a pull request detail.
pub open spec fn pr_detail_key(owner: Seq<char>, repo: Seq<char>, number: u64) -> KeyText {
    KeyText { kind: 3, owner, repo, branch: Seq::empty(), number }
}

/// The key text of the workflow runs of a repository.
pub open spec fn workflow_runs_key(owner: Seq<char>, repo: Seq<char>) -> KeyText {
    KeyText { kind: 4, owner, repo, branch: Seq::empty(), number: 0 }
}

/// The key text of the jobs of a workflow run.
pub open spec fn jobs_key(owner: Seq<char>, repo: Seq<char>, run_id: u64) -> KeyText {
    KeyText { kind: 5, owner, repo, branch: Seq::empty(), number: run_id }
}

/// The client is rate limited at `now`: blocked, and the reset time is still ahead.
pub open spec fn rate_limited_at(r: RateLimitState, now: u64) -> bool {
    match r.reset_at {
        Some(t) => r.is_blocked && now < t,
        None => false,
    }
}

impl GitHubClient {
    /// The rate limit state.
    pub closed spec fn rate_limit_view(self) -> RateLimitState {
        self.rate_limit
    }

    /// The API handle the client was built with.
    pub closed spec fn api_handle(self) -> octocrab::Octocrab {
        self.octocrab
    }

    /// The cache TTLs.
    pub closed spec fn ttl_settings(self) -> CacheTtls {
        self.ttls
    }

    /// Slots of the repository summary cache.
    pub closed spec fn repo_summaries(self) -> Seq<(CacheKey, CacheEntry<RepoSummary>)> {
        self.cache_repo_summary.slots()
    }

    /// Slots of the recent commits cache.
    pub closed spec fn commit_lists(self) -> Seq<(CacheKey, CacheEntry<Vec<CommitSummary>>)> {
        self.cache_commits.slots()
    }

    /// Slots of the open pull requests cache.
    pub closed spec fn pr_lists(self) -> Seq<(CacheKey, CacheEntry<Vec<PrSummary>>)> {
        self.cache_prs.slots()
    }

    /// Slots of the pull request detail cache.
    pub closed spec fn pr_details(self) -> Seq<(CacheKey, CacheEntry<PrDetail>)> {
        self.cache_pr_detail.slots()
    }

    /// Slots of the workflow runs cache.
    pub closed spec fn run_lists(self) -> Seq<(CacheKey, CacheEntry<Vec<WorkflowRunSummary>>)> {
        self.cache_workflow_runs.slots()
    }

    /// Slots of the jobs cache.
    pub closed spec fn job_lists(self) -> Seq<(CacheKey, CacheEntry<Vec<JobSummary>>)> {
        self.cache_jobs.slots()
    }

    /// All caches hold nothing.
    pub open spec fn caches_empty(self) -> bool {
        &&& self.repo_summaries().len() == 0
        &&& self.commit_lists().len() == 0
        &&& self.pr_lists().len() == 0
        &&& self.pr_details().len() == 0
        &&& self.run_lists().len() == 0
        &&& self.job_lists().len() == 0
    }

    /// Create a new client authenticated with the given PAT.
    /// The token must fit an HTTP header (building the client panics
    /// otherwise); the client's request worker runs on `runtime`. A failed
    /// build hands back the text of the builder's error.
    pub fn new(token: String, runtime: &tokio::runtime::Handle) -> (r: Result<Self, String>)
        requires
            fits_header(token@),
        ensures
            r matches Ok(c) ==> c.caches_empty() && c.ttl_settings() == default_ttls()
                && c.rate_limit_view() == (RateLimitState {
                remaining: None,
                limit: None,
                reset_at: None,
                is_blocked: false,
            }),
    {
        match build_octocrab(token, runtime) {
            Ok(octocrab) => Ok(GitHubClient {
                octocrab,
                ttls: CacheTtls::default(),
                cache_repo_summary: TtlCache::new(),
                cache_commits: TtlCache::new(),
                cache_prs: TtlCache::new(),
                cache_pr_detail: TtlCache::new(),
                cache_workflow_runs: TtlCache::new(),
                cache_jobs: TtlCache::new(),
                rate_limit: RateLimitState::default(),
            }),
            Err(detail) => Err(detail),
        }
    }

    /// The cache TTLs.
    pub fn ttls(&self) -> (r: CacheTtls)
        ensures
            r == self.ttl_settings(),
    {
        self.ttls
    }

    /// The API handle the requests are made with.
    pub fn octocrab(&self) -> (r: &octocrab::Octocrab)
        ensures
            *r == self.api_handle(),
    {
        &self.octocrab
    }

    /// Invalidate all cache entries (used on manual refresh).
    pub fn invalidate_cache(&mut self)
        ensures
            final(self).caches_empty(),
            final(self).ttl_settings() == old(self).ttl_settings(),
            final(self).rate_limit_view() == old(self).rate_limit_view(),
    {
        self.cache_repo_summary.clear();
        self.cache_commits.clear();
        self.cache_prs.clear();
        self.cache_pr_detail.clear();
        self.cache_workflow_runs.clear();
        self.cache_jobs.clear();
    }

    /// Check whether the client is rate-limited at time `now`.
    pub fn is_rate_limited(&self, now: u64) -> (r: bool)
        ensures
            r == rate_limited_at(self.rate_limit_view(), now),
    {
        match self.rate_limit.reset_at {
            Some(reset_at) => self.rate_limit.is_blocked && now < reset_at,
            None => false,
        }
    }

    /// The repository summary the cache serves at `now`.
    pub fn cached_repo_summary(&self, owner: &str, repo: &str, now: u64) -> (r: Option<&RepoSummary>)
        ensures
            match r {
                Some(v) => cached(self.repo_summaries(), repo_summary_key(owner@, repo@), now) == Some(*v),
                None => cached(self.repo_summaries(), repo_summary_key(owner@, repo@), now) is None,
            },
    {
        let key = CacheKey::RepoSummary { owner: string_of(owner), repo: string_of(repo) };
        self.cache_repo_summary.lookup(&key, now)
    }

    /// Store a fetched repository summary at `now`; it expires after its TTL.
    pub fn store_repo_summary(&mut self, owner: &str, repo: &str, value: RepoSummary, now: u64)
        requires
            now + old(self).ttl_settings().repo_summary <= u64::MAX,
        ensures
            stored_under(
                final(self).repo_summaries(),
                old(self).repo_summaries(),
                repo_summary_key(owner@, repo@),
                CacheEntry { value, expires_at: (now + old(self).ttl_settings().repo_summary) as u64 },
            ),
            final(self).commit_lists() == old(self).commit_lists(),
            final(self).pr_lists() == old(self).pr_lists(),
            final(self).pr_details() == old(self).pr_details(),
            final(self).run_lists() == old(self).run_lists(),
            final(self).job_lists() == old(self).job_lists(),
            final(self).ttl_settings() == old(self).ttl_settings(),
            final(self).rate_limit_view() == old(self).rate_limit_view(),
    {
        let key = CacheKey::RepoSummary { owner: string_of(owner), repo: string_of(repo) };
        let expires_at = now + self.ttls.repo_summary;
        self.cache_repo_summary.insert(key, CacheEntry { value, expires_at });
    }

    /// The recent commits of a branch the cache serves at `now`.
    pub fn cached_recent_commits(&self, owner: &str, repo: &str, branch: &str, now: u64) -> (r:
        Option<&Vec<CommitSummary>>)
        ensures
            match r {
                Some(v) => cached(self.commit_lists(), commits_key(owner@, repo@, branch@), now) == Some(*v),
                None => cached(self.commit_lists(), commits_key(owner@, repo@, branch@), now) is None,
            },
    {
        let key = CacheKey::RecentCommits {
            owner: string_of(owner),
            repo: string_of(repo),
            branch: string_of(branch),
        };
        self.cache_commits.lookup(&key, now)
    }

    /// Store fetched recent commits at `now`; they expire after their TTL.
    pub fn store_recent_commits(
        &mut self,
        owner: &str,
        repo: &str,
        branch: &str,
        value: Vec<CommitSummary>,
        now: u64,
    )
        requires
            now + old(self).ttl_settings().commits <= u64::MAX,
        ensures
            stored_under(
                final(self).commit_lists(),
                old(self).commit_lists(),
                commits_key(owner@, repo@, branch@),
                CacheEntry { value, expires_at: (now + old(self).ttl_settings().commits) as u64 },
            ),
            final(self).repo_summaries() == old(self).repo_summaries(),
            final(self).pr_lists() == old(self).pr_lists(),
            final(self).pr_details() == old(self).pr_details(),
            final(self).run_lists() == old(self).run_lists(),
            final(self).job_lists() == old(self).job_lists(),
            final(self).ttl_settings() == old(self).ttl_settings(),
            final(self).rate_limit_view() == old(self).rate_limit_view(),
    {
        let key = CacheKey::RecentCommits {
            owner: string_of(owner),
            repo: string_of(repo),
            branch: string_of(branch),
        };
        let expires_at = now + self.ttls.commits;
        self.cache_commits.insert(key, CacheEntry { value, expires_at });
    }

    /// The open pull requests the cache serves at `now`.
    pub fn cached_open_prs(&self, owner: &str, repo: &str, now: u64) -> (r: Option<&Vec<PrSummary>>)
        ensures
            match r {
                Some(v) => cached(self.pr_lists(), open_prs_key(owner@, repo@), now) == Some(*v),
                None => cached(self.pr_lists(), open_prs_key(owner@, repo@), now) is None,
            },
    {
        let key = CacheKey::OpenPrs { owner: string_of(owner), repo: string_of(repo) };
        self.cache_prs.lookup(&key, now)
    }

    /// Store fetched open pull requests at `now`; they expire after their TTL.
    pub fn store_open_prs(&mut self, owner: &str, repo: &str, value: Vec<PrSummary>, now: u64)
        requires
            now + old(self).ttl_settings().prs <= u64::MAX,
        ensures
            stored_under(
                final(self).pr_lists(),
                old(self).pr_lists(),
                open_prs_key(owner@, repo@),
                CacheEntry { value, expires_at: (now + old(self).ttl_settings().prs) as u64 },
            ),
            final(self).repo_summaries() == old(self).repo_summaries(),
            final(self).commit_lists() == old(self).commit_lists(),
            final(self).pr_details() == old(self).pr_details(),
            final(self).run_lists() == old(self).run_lists(),
            final(self).job_lists() == old(self).job_lists(),
            final(self).ttl_settings() == old(self).ttl_settings(),
            final(self).rate_limit_view() == old(self).rate_limit_view(),
    {
        let key = CacheKey::OpenPrs { owner: string_of(owner), repo: string_of(repo) };
        let expires_at = now + self.ttls.prs;
        self.cache_prs.insert(key, CacheEntry { value, expires_at });
    }

    /// The pull request detail the cache serves at `now`.
    pub fn cached_pr_detail(&self, owner: &str, repo: &str, number: u64, now: u64) -> (r: Option<&PrDetail>)
        ensures
            match r {
                Some(v) => cached(self.pr_details(), pr_detail_key(owner@, repo@, number), now) == Some(*v),
                None => cached(self.pr_details(), pr_detail_key(owner@, repo@, number), now) is None,
            },
    {
        let key = CacheKey::PrDetail { owner: string_of(owner), repo: string_of(repo), number };
        self.cache_pr_detail.lookup(&key, now)
    }

    /// Store a fetched pull request detail at `now`; it expires after the PR TTL.
    pub fn store_pr_detail(&mut self, owner: &str, repo: &str, number: u64, value: PrDetail, now: u64)
        requires
            now + old(self).ttl_settings().prs <= u64::MAX,
        ensures
            stored_under(
                final(self).pr_details(),
                old(self).pr_details(),
                pr_detail_key(owner@, repo@, number),
                CacheEntry { value, expires_at: (now + old(self).ttl_settings().prs) as u64 },
            ),
            final(self).repo_summaries() == old(self).repo_summaries(),
            final(self).commit_lists() == old(self).commit_lists(),
            final(self).pr_lists() == old(self).pr_lists(),
            final(self).run_lists() == old(self).run_lists(),
            final(self).job_lists() == old(self).job_lists(),
            final(self).ttl_settings() == old(self).ttl_settings(),
            final(self).rate_limit_view() == old(self).rate_limit_view(),
    {
        let key = CacheKey::PrDetail { owner: string_of(owner), repo: string_of(repo), number };
        let expires_at = now + self.ttls.prs;
        self.cache_pr_detail.insert(key, CacheEntry { value, expires_at });
    }

    /// The workflow runs the cache serves at `now`.
    pub fn cached_workflow_runs(&self, owner: &str, repo: &str, now: u64) -> (r: Option<
        &Vec<WorkflowRunSummary>,
    >)
        ensures
            match r {
                Some(v) => cached(self.run_lists(), workflow_runs_key(owner@, repo@), now) == Some(*v),
                None => cached(self.run_lists(), workflow_runs_key(owner@, repo@), now) is None,
            },
    {
        let key = CacheKey::WorkflowRuns { owner: string_of(owner), repo: string_of(repo) };
        self.cache_workflow_runs.lookup(&key, now)
    }

    /// Store fetched workflow runs at `now`; they expire after their TTL.
    pub fn store_workflow_runs(
        &mut self,
        owner: &str,
        repo: &str,
        value: Vec<WorkflowRunSummary>,
        now: u64,
    )
        requires
            now + old(self).ttl_settings().workflow_runs <= u64::MAX,
        ensures
            stored_under(
                final(self).run_lists(),
                old(self).run_lists(),
                workflow_runs_key(owner@, repo@),
                CacheEntry { value, expires_at: (now + old(self).ttl_settings().workflow_runs) as u64, },
            ),
            final(self).repo_summaries() == old(self).repo_summaries(),
            final(self).commit_lists() == old(self).commit_lists(),
            final(self).pr_lists() == old(self).pr_lists(),
            final(self).pr_details() == old(self).pr_details(),
            final(self).job_lists() == old(self).job_lists(),
            final(self).ttl_settings() == old(self).ttl_settings(),
            final(self).rate_limit_view() == old(self).rate_limit_view(),
    {
        let key = CacheKey::WorkflowRuns { owner: string_of(owner), repo: string_of(repo) };
        let expires_at = now + self.ttls.workflow_runs;
        self.cache_workflow_runs.insert(key, CacheEntry { value, expires_at });
    }

    /// The jobs of a workflow run the cache serves at `now`.
    pub fn cached_workflow_run_jobs(&self, owner: &str, repo: &str, run_id: u64, now: u64) -> (r:
        Option<&Vec<JobSummary>>)
        ensures
            match r {
                Some(v) => cached(self.job_lists(), jobs_key(owner@, repo@, run_id), now) == Some(*v),
                None => cached(self.job_lists(), jobs_key(owner@, repo@, run_id), now) is None,
            },
    {
        let key = CacheKey::WorkflowRunJobs { owner: string_of(owner), repo: string_of(repo), run_id };
        self.cache_jobs.lookup(&key, now)
    }

    /// Store fetched jobs of a workflow run at `now`; they expire after their TTL.
    pub fn store_workflow_run_jobs(
        &mut self,
        owner: &str,
        repo: &str,
        run_id: u64,
        value: Vec<JobSummary>,
        now: u64,
    )
        requires
            now + old(self).ttl_settings().jobs <= u64::MAX,
        ensures
            stored_under(
                final(self).job_lists(),
                old(self).job_lists(),
                jobs_key(owner@, repo@, run_id),
                CacheEntry { value, expires_at: (now + old(self).ttl_settings().jobs) as u64 },
            ),
            final(self).repo_summaries() == old(self).repo_summaries(),
            final(self).commit_lists() == old(self).commit_lists(),
            final(self).pr_lists() == old(self).pr_lists(),
            final(self).pr_details() == old(self).pr_details(),
            final(self).run_lists() == old(self).run_lists(),
            final(self).ttl_settings() == old(self).ttl_settings(),
            final(self).rate_limit_view() == old(self).rate_limit_view(),
    {
        let key = CacheKey::WorkflowRunJobs { owner: string_of(owner), repo: string_of(repo), run_id };
        let expires_at = now + self.ttls.jobs;
        self.cache_jobs.insert(key, CacheEntry { value, expires_at });
    }
}

} // verus!
