use xrepotui::github::client::{
    changed_file_from, commit_summary_from, mergeable_state_of, pr_detail_from, pr_summary_from,
    repo_summary_from, retry_step, workflow_run_from, CacheEntry, CacheKey, CacheTtls, ClientError,
    RetryStep, TtlCache, MAX_ATTEMPTS, token_fits_header,
};
use xrepotui::github::models::{
    parse_run_conclusion, parse_run_status, FileChangeType, MergeableState, RateLimitState,
    RunConclusion, RunStatus,
};
use xrepotui::github::GitHubClient;

fn key(owner: &str, repo: &str) -> CacheKey {
    CacheKey::RepoSummary { owner: owner.to_string(), repo: repo.to_string() }
}

#[test]
fn cache_serves_until_expiry() {
    let mut cache: TtlCache<u32> = TtlCache::new();
    assert_eq!(cache.lookup(&key("a", "b"), 0), None);
    cache.insert(key("a", "b"), CacheEntry { value: 7, expires_at: 1_000 });
    assert_eq!(cache.lookup(&key("a", "b"), 999), Some(&7));
    assert_eq!(cache.lookup(&key("a", "b"), 1_000), None);
    assert_eq!(cache.lookup(&key("a", "c"), 10), None);
}

#[test]
fn cache_store_replaces_and_keeps_others() {
    let mut cache: TtlCache<&'static str> = TtlCache::new();
    cache.insert(key("a", "b"), CacheEntry { value: "first", expires_at: 100 });
    cache.insert(key("x", "y"), CacheEntry { value: "other", expires_at: 100 });
    cache.insert(key("a", "b"), CacheEntry { value: "second", expires_at: 200 });
    assert_eq!(cache.lookup(&key("a", "b"), 150), Some(&"second"));
    assert_eq!(cache.lookup(&key("x", "y"), 50), Some(&"other"));
    // Different kinds of keys do not collide.
    let prs = CacheKey::OpenPrs { owner: "a".to_string(), repo: "b".to_string() };
    assert_eq!(cache.lookup(&prs, 50), None);
    cache.clear();
    assert_eq!(cache.lookup(&key("x", "y"), 50), None);
}

#[test]
fn cache_key_identity() {
    let a = CacheKey::PrDetail { owner: "o".into(), repo: "r".into(), number: 1 };
    let b = CacheKey::PrDetail { owner: "o".into(), repo: "r".into(), number: 2 };
    assert!(a.same_as(&a.clone()));
    assert!(!a.same_as(&b));
}

#[test]
fn cache_entry_validity() {
    let e = CacheEntry { value: (), expires_at: 10 };
    assert!(e.is_valid(9));
    assert!(!e.is_valid(10));
}

#[test]
fn default_ttls() {
    let t = CacheTtls::default();
    assert_eq!(
        (t.repo_summary, t.commits, t.prs, t.workflow_runs, t.jobs),
        (60_000, 60_000, 30_000, 30_000, 15_000)
    );
}

#[test]
fn retry_policy() {
    match retry_step(0, MAX_ATTEMPTS, "HTTP 500") {
        RetryStep::Backoff { secs } => assert_eq!(secs, 1),
        other => panic!("unexpected {:?}", other),
    }
    match retry_step(1, MAX_ATTEMPTS, "HTTP 500") {
        RetryStep::Backoff { secs } => assert_eq!(secs, 2),
        other => panic!("unexpected {:?}", other),
    }
    match retry_step(2, MAX_ATTEMPTS, "HTTP 500") {
        RetryStep::GiveUp(ClientError::Network { attempts, detail }) => {
            assert_eq!(attempts, 3);
            assert_eq!(detail, "HTTP 500");
        }
        other => panic!("unexpected {:?}", other),
    }
    for text in ["API rate limit exceeded", "status 403", "got 429"] {
        match retry_step(0, MAX_ATTEMPTS, text) {
            RetryStep::GiveUp(ClientError::RateLimited { reset_secs }) => assert_eq!(reset_secs, 60),
            other => panic!("unexpected {:?}", other),
        }
    }
    match retry_step(5, 10, "timeout") {
        RetryStep::Backoff { secs } => assert_eq!(secs, 32),
        other => panic!("unexpected {:?}", other),
    }
}

#[test]
fn client_error_messages() {
    assert_eq!(ClientError::Api("boom".into()).describe(), "GitHub API error: boom");
    assert_eq!(
        ClientError::RateLimited { reset_secs: 60 }.describe(),
        "Rate limited \u{2014} resets in 60s"
    );
    assert_eq!(
        ClientError::Network { attempts: 3, detail: "x".into() }.describe(),
        "Network error after 3 attempts: x"
    );
    assert_eq!(ClientError::Parse("y".into()).describe(), "Response parse error: y");
}

#[test]
fn parse_statuses_and_conclusions() {
    assert_eq!(parse_run_status("queued"), RunStatus::Queued);
    assert_eq!(parse_run_status("in_progress"), RunStatus::InProgress);
    assert_eq!(parse_run_status("completed"), RunStatus::Completed);
    assert_eq!(parse_run_status("waiting"), RunStatus::Waiting);
    assert_eq!(parse_run_status("pending"), RunStatus::Unknown);
    assert_eq!(parse_run_conclusion("success"), RunConclusion::Success);
    assert_eq!(parse_run_conclusion("timed_out"), RunConclusion::TimedOut);
    assert_eq!(parse_run_conclusion("action_required"), RunConclusion::ActionRequired);
    assert_eq!(parse_run_conclusion("stale"), RunConclusion::Other("stale".to_string()));
}

#[test]
fn status_text_round_trip() {
    for s in [
        RunStatus::Queued,
        RunStatus::InProgress,
        RunStatus::Completed,
        RunStatus::Waiting,
        RunStatus::Unknown,
    ] {
        assert_eq!(parse_run_status(&s.to_text()), s);
    }
    for c in [
        RunConclusion::Success,
        RunConclusion::Failure,
        RunConclusion::Cancelled,
        RunConclusion::Skipped,
        RunConclusion::TimedOut,
        RunConclusion::ActionRequired,
        RunConclusion::Neutral,
        RunConclusion::Other("startup_failure".to_string()),
    ] {
        assert_eq!(parse_run_conclusion(&c.to_text()), c);
    }
}

#[test]
fn map_commit_record() {
    let c = commit_summary_from(
        "0123456789abcdef".to_string(),
        "Fix bug\r\n\nLonger description",
        None,
        None,
        1_700_000_000,
    );
    assert_eq!(c.short_sha, "0123456");
    assert_eq!(c.message, "Fix bug");
    assert_eq!(c.author, "unknown");
    assert_eq!(c.timestamp, 1_700_000_000);
    let c = commit_summary_from("abc".to_string(), "", Some("Ada".into()), Some(5), 9);
    assert_eq!(c.short_sha, "abc");
    assert_eq!(c.message, "");
    assert_eq!(c.author, "Ada");
    assert_eq!(c.timestamp, 5);
}

#[test]
fn map_repo_and_pr_records() {
    let r = repo_summary_from(None, "repo".into(), None, None, Some(5), None, Some(2), None, None);
    assert_eq!(r.owner, "");
    assert_eq!(r.default_branch, "main");
    assert_eq!(r.visibility, "public");
    assert_eq!((r.stars, r.forks, r.open_pr_count, r.open_issue_count), (5, 0, 0, 2));

    let p = pr_summary_from(7, None, Some("bob".into()), "feature".into(), None, 42);
    assert_eq!((p.number, p.title.as_str(), p.author.as_str(), p.updated_at), (7, "", "bob", 42));

    assert_eq!(mergeable_state_of(Some(true)), MergeableState::Mergeable);
    assert_eq!(mergeable_state_of(Some(false)), MergeableState::Conflicting);
    assert_eq!(mergeable_state_of(None), MergeableState::Unknown);

    let f = changed_file_from("a.rs".into(), FileChangeType::Added, (1u64 << 32) + 3, 4);
    assert_eq!((f.additions, f.deletions), (3, 4));

    let files: Vec<_> = (0..60)
        .map(|i| changed_file_from(format!("f{i}"), FileChangeType::Modified, 1, 1))
        .collect();
    let d = pr_detail_from(
        1,
        Some("T".into()),
        None,
        "h".into(),
        "main".into(),
        None,
        None,
        Some(3),
        None,
        files,
        100,
    );
    assert_eq!(d.changed_files.len(), 50);
    assert_eq!(d.created_at, 100);
    assert_eq!(d.updated_at, 3);
    assert_eq!(d.mergeable_state, MergeableState::Unknown);
}

#[test]
fn map_workflow_run_record() {
    let r = workflow_run_from(
        11,
        "CI".into(),
        -1,
        "push".into(),
        None,
        "main".into(),
        "Merge pull request\nbody",
        "in_progress",
        Some("weird"),
        10,
        20,
        "owner",
        "repo",
    );
    assert_eq!(r.run_number, u64::MAX);
    assert_eq!(r.head_commit_message, "Merge pull request");
    assert_eq!(r.status, RunStatus::InProgress);
    assert_eq!(r.conclusion, Some(RunConclusion::Other("weird".into())));
    assert_eq!(r.repo.as_deref(), Some("owner/repo"));
}

#[test]
fn rate_limit_default_is_unblocked() {
    let r = RateLimitState::default();
    assert!(!r.is_blocked);
    assert!(r.reset_at.is_none());
}

#[test]
fn client_cache_and_rate_limit() {
    let rt = tokio::runtime::Runtime::new().unwrap();
    assert!(token_fits_header("token"));
    match GitHubClient::new("token".to_string(), rt.handle()) {
        Ok(mut c) => {
            assert!(!c.is_rate_limited(0));
            c.rate_limit.is_blocked = true;
            c.rate_limit.reset_at = Some(500);
            assert!(c.is_rate_limited(499));
            assert!(!c.is_rate_limited(500));
            assert!(c.cached_open_prs("o", "r", 0).is_none());
            c.store_open_prs("o", "r", vec![], 1_000);
            assert!(c.cached_open_prs("o", "r", 30_999).is_some());
            assert!(c.cached_open_prs("o", "r", 31_000).is_none());
            c.invalidate_cache();
            assert!(c.cached_open_prs("o", "r", 1_001).is_none());
        }
        Err(e) => assert!(!e.is_empty()),
    }
}

#[test]
fn tokens_that_fit_a_header() {
    assert!(token_fits_header("ghp_abc123"));
    assert!(token_fits_header("with\ttab and \u{e9}"));
    assert!(token_fits_header(""));
    assert!(!token_fits_header("line\nbreak"));
    assert!(!token_fits_header("del\u{7f}"));
    assert!(!token_fits_header("\u{1}"));
}
