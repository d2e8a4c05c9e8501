use xrepotui::app_state::{
    commits_branch, parse_step_boundaries, poll_event, selected_row, parse_step_boundaries_v2, AppEvent, AppState, KeyCode, KeyInput,
    RepoData, TermEvent,
};
use xrepotui::github::client::ClientError;
use xrepotui::github::models::{PrSummary, RepoSummary};
use xrepotui::navigation::{ActionsViewState, LogViewerState, PrViewState, RepoViewState, View};

fn key(c: KeyCode) -> AppEvent {
    AppEvent::TerminalEvent(TermEvent::Key(KeyInput { code: c, ctrl: false }))
}

fn repos(names: &[&str]) -> Vec<String> {
    names.iter().map(|s| s.to_string()).collect()
}

#[test]
fn new_state_has_one_loading_entry_per_repo() {
    let st = AppState::new(&repos(&["a/b", "c/d", "a/b"]));
    assert_eq!(st.repo_data.len(), 2);
    assert_eq!(st.fetch_state.len(), 2);
    assert!(st.fetch_state.iter().all(|(_, f)| f.loading && f.error.is_none()));
    assert!(st.running);
    assert!(st.views.is_root());
}

#[test]
fn data_fetched_and_fetch_error() {
    let mut st = AppState::new(&repos(&["a/b"]));
    let mut d = RepoData::new("a/b".to_string());
    d.commits = vec![];
    st.handle_event(AppEvent::DataFetched(Box::new(d)), 1_000);
    assert_eq!(st.last_refreshed, Some(1_000));
    assert!(!st.fetch_state[0].1.loading);
    assert_eq!(st.fetch_state[0].1.last_refreshed, Some(1_000));

    st.handle_event(
        AppEvent::FetchError { repo: "a/b".into(), message: "boom".into() },
        2_000,
    );
    assert_eq!(st.fetch_state[0].1.error.as_deref(), Some("boom"));
    assert_eq!(st.fetch_state[0].1.last_refreshed, Some(1_000));

    // Data for a repository that was not configured is added.
    st.handle_event(AppEvent::DataFetched(Box::new(RepoData::new("x/y".into()))), 3_000);
    assert_eq!(st.repo_data.len(), 2);
    assert_eq!(st.fetch_state.len(), 1);
}

#[test]
fn rate_limit_block_and_unblock() {
    let mut st = AppState::new(&repos(&[]));
    st.handle_event(AppEvent::RateLimited { reset_at: 5_000 }, 1_000);
    assert!(st.rate_limit.is_blocked);
    st.handle_event(AppEvent::Tick, 4_999);
    assert!(st.rate_limit.is_blocked);
    st.handle_event(AppEvent::Tick, 5_000);
    assert!(!st.rate_limit.is_blocked);
}

#[test]
fn quit_needs_confirmation() {
    let mut st = AppState::new(&repos(&[]));
    st.handle_event(key(KeyCode::Char('q')), 0);
    assert!(st.running);
    assert!(st.pending_quit);
    st.handle_event(key(KeyCode::Char('n')), 0);
    assert!(st.running);
    assert!(!st.pending_quit);
    st.handle_event(key(KeyCode::Esc), 0);
    st.handle_event(key(KeyCode::Char('y')), 0);
    assert!(!st.running);

    let mut st = AppState::new(&repos(&[]));
    st.handle_event(
        AppEvent::TerminalEvent(TermEvent::Key(KeyInput { code: KeyCode::Char('c'), ctrl: true })),
        0,
    );
    assert!(!st.running);
}

#[test]
fn dashboard_keys_and_filter() {
    let mut st = AppState::new(&repos(&["a/b"]));
    st.handle_event(key(KeyCode::Char('j')), 0);
    st.handle_event(key(KeyCode::Down), 0);
    st.handle_event(key(KeyCode::Char('k')), 0);
    match st.views.current() {
        View::Dashboard(d) => assert_eq!(d.selected, 1),
        _ => panic!("not on the dashboard"),
    }
    st.handle_event(key(KeyCode::Char('G')), 0);
    st.handle_event(key(KeyCode::Char('/')), 0);
    st.handle_event(key(KeyCode::Char('a')), 0);
    st.handle_event(key(KeyCode::Char('b')), 0);
    st.handle_event(key(KeyCode::Backspace), 0);
    st.handle_event(key(KeyCode::Char('q')), 0);
    match st.views.current() {
        View::Dashboard(d) => {
            assert_eq!(d.selected, usize::MAX);
            assert!(d.filter.active);
            assert_eq!(d.filter.text, "aq");
        }
        _ => panic!("not on the dashboard"),
    }
    assert!(!st.pending_quit);
    st.handle_event(key(KeyCode::Esc), 0);
    match st.views.current() {
        View::Dashboard(d) => {
            assert!(!d.filter.active);
            assert_eq!(d.filter.text, "");
        }
        _ => panic!("not on the dashboard"),
    }
}

#[test]
fn pr_view_keys_and_back() {
    let mut st = AppState::new(&repos(&[]));
    st.views.push(View::Pr(PrViewState::new("o".into(), "r".into(), 1)));
    st.handle_event(key(KeyCode::Char('j')), 0);
    st.handle_event(key(KeyCode::Tab), 0);
    st.handle_event(key(KeyCode::Tab), 0);
    st.handle_event(key(KeyCode::Tab), 0);
    match st.views.current() {
        View::Pr(p) => {
            assert_eq!(p.body_scroll, 1);
            assert_eq!(p.focused_panel, 0);
        }
        _ => panic!("not on the PR view"),
    }
    st.handle_event(key(KeyCode::Char('q')), 0);
    assert!(st.views.is_root());
    assert!(!st.pending_quit);
}

#[test]
fn log_fetched_follows_the_bottom_and_steps() {
    let mut st = AppState::new(&repos(&[]));
    st.views.push(View::LogViewer(LogViewerState::new("o".into(), "r".into(), 9, "build".into())));
    let content = "setup\n##[group]Run checkout\nok\n##[endgroup]\n##[group]Run tests\npass\n";
    st.handle_event(AppEvent::LogLoading { job_id: 9 }, 0);
    assert!(st.log_loading);
    st.handle_event(
        AppEvent::LogFetched { job_id: 9, content: content.into(), is_complete: false },
        0,
    );
    assert!(!st.log_loading);
    assert_eq!(st.log_content.get(&9).map(|v| v.len()), Some(6));
    match st.views.current() {
        View::LogViewer(s) => {
            assert_eq!(s.total_lines, 6);
            assert_eq!(s.step_starts, vec![1, 4]);
            assert_eq!(s.scroll, 5);
            assert!(s.at_bottom);
        }
        _ => panic!("not on the log viewer"),
    }
    st.handle_event(key(KeyCode::Char('p')), 0);
    st.handle_event(key(KeyCode::Char('[')), 0);
    match st.views.current() {
        View::LogViewer(s) => {
            assert_eq!(s.scroll, 1);
            assert_eq!(s.current_step, 0);
        }
        _ => panic!("not on the log viewer"),
    }
    st.handle_event(key(KeyCode::Char('n')), 0);
    match st.views.current() {
        View::LogViewer(s) => {
            assert_eq!(s.scroll, 4);
            assert_eq!(s.current_step, 1);
        }
        _ => panic!("not on the log viewer"),
    }
    st.handle_event(key(KeyCode::Char('k')), 0);
    st.handle_event(key(KeyCode::Char('G')), 0);
    match st.views.current() {
        View::LogViewer(s) => {
            assert_eq!(s.scroll, 5);
            assert!(s.at_bottom);
        }
        _ => panic!("not on the log viewer"),
    }
}

#[test]
fn invalidate_cache_marks_everything_loading() {
    let mut st = AppState::new(&repos(&["a/b"]));
    st.handle_event(AppEvent::DataFetched(Box::new(RepoData::new("a/b".into()))), 10);
    st.invalidate_cache();
    assert!(st.fetch_state[0].1.loading);
    assert_eq!(st.fetch_state[0].1.last_refreshed, None);
    assert_eq!(st.last_refreshed, None);
}

#[test]
fn step_boundaries() {
    let lines: Vec<String> = vec![
        "a".into(),
        "2024-01-01T00:00:00Z ##[group]Run actions/checkout@v4".into(),
        "##[endgroup]".into(),
        "##[group]x ##[endgroup]".into(),
    ];
    assert_eq!(parse_step_boundaries(&lines), vec![1]);
    assert_eq!(parse_step_boundaries_v2(&lines), vec![1, 3]);
}

fn summary(name: &str) -> RepoSummary {
    RepoSummary {
        owner: "o".to_string(),
        name: name.to_string(),
        description: None,
        default_branch: "main".to_string(),
        stars: 1,
        forks: 2,
        open_pr_count: 3,
        open_issue_count: 4,
        language: None,
        visibility: "public".to_string(),
    }
}

#[test]
fn poll_event_from_request_results() {
    let pr = PrSummary {
        number: 5,
        title: "t".to_string(),
        author: "a".to_string(),
        head_branch: "b".to_string(),
        updated_at: 0,
    };
    let ev = poll_event(
        "o/r".to_string(),
        Ok(summary("r")),
        Err(ClientError::Parse("x".to_string())),
        Ok(vec![pr]),
        Err(ClientError::Api("y".to_string())),
    );
    match ev {
        AppEvent::DataFetched(d) => {
            assert_eq!(d.key, "o/r");
            assert_eq!(d.summary.as_ref().map(|s| s.name.as_str()), Some("r"));
            assert!(d.commits.is_empty());
            assert_eq!(d.open_prs.len(), 1);
            assert_eq!(d.open_prs[0].number, 5);
            assert!(d.workflow_runs.is_empty());
        }
        other => panic!("unexpected event {other:?}"),
    }

    let ev = poll_event(
        "o/r".to_string(),
        Err(ClientError::Network { attempts: 3, detail: "down".to_string() }),
        Ok(vec![]),
        Ok(vec![]),
        Ok(vec![]),
    );
    match ev {
        AppEvent::FetchError { repo, message } => {
            assert_eq!(repo, "o/r");
            assert_eq!(message, "Network error after 3 attempts: down");
        }
        other => panic!("unexpected event {other:?}"),
    }
}

#[test]
fn lookups_by_repository_key() {
    let mut st = AppState::new(&repos(&["a/b", "c/d"]));
    let mut d = RepoData::new("c/d".to_string());
    d.summary = Some(summary("d"));
    st.handle_event(AppEvent::DataFetched(Box::new(d)), 7);
    let found = st.repo_data_of(&"c/d".to_string()).expect("data for c/d");
    assert_eq!(found.summary.as_ref().map(|s| s.name.as_str()), Some("d"));
    assert!(st.repo_data_of(&"x/y".to_string()).is_none());
    let f = st.fetch_state_of(&"c/d".to_string()).expect("fetch state for c/d");
    assert!(!f.loading);
    assert_eq!(f.last_refreshed, Some(7));
    assert!(st.fetch_state_of(&"a/b".to_string()).unwrap().loading);
    assert!(st.fetch_state_of(&"x/y".to_string()).is_none());
}

#[test]
fn backspace_goes_back_from_every_view_above_the_dashboard() {
    let mut st = AppState::new(&repos(&[]));
    st.views.push(View::Repo(RepoViewState::new("o".into(), "r".into())));
    st.views.push(View::Pr(PrViewState::new("o".into(), "r".into(), 1)));
    st.views.push(View::ActionsRun(ActionsViewState::new_run("o".into(), "r".into(), 3)));
    st.views.push(View::LogViewer(LogViewerState::new("o".into(), "r".into(), 9, "build".into())));
    assert_eq!(st.views.breadcrumb(), "Dashboard > o/r > PR #1 > Run #3 > Log: build");
    for expected in ["Dashboard > o/r > PR #1 > Run #3", "Dashboard > o/r > PR #1", "Dashboard > o/r", "Dashboard"] {
        st.handle_event(key(KeyCode::Backspace), 0);
        assert_eq!(st.views.breadcrumb(), expected);
    }
    // On the dashboard Backspace neither goes anywhere nor asks to quit.
    st.handle_event(key(KeyCode::Backspace), 0);
    assert!(st.views.is_root());
    assert!(!st.pending_quit);
    assert!(st.running);
}

#[test]
fn r_refreshes_everything_but_filter_typing() {
    let mut st = AppState::new(&repos(&["a/b", "c/d"]));
    st.handle_event(AppEvent::DataFetched(Box::new(RepoData::new("a/b".into()))), 10);
    st.handle_event(AppEvent::DataFetched(Box::new(RepoData::new("c/d".into()))), 20);
    assert!(!st.refresh_requested(&TermEvent::Resize(1, 1)));
    let r = TermEvent::Key(KeyInput { code: KeyCode::Char('r'), ctrl: false });
    assert!(st.refresh_requested(&r));
    st.handle_event(AppEvent::TerminalEvent(r), 30);
    assert!(st.fetch_state.iter().all(|(_, f)| f.loading && f.last_refreshed.is_none()));
    assert_eq!(st.last_refreshed, None);
    assert_eq!(st.repo_data.len(), 2);
    assert!(st.views.is_root());

    // While typing into the filter, `r` is a letter of the filter.
    st.handle_event(AppEvent::DataFetched(Box::new(RepoData::new("a/b".into()))), 40);
    st.handle_event(key(KeyCode::Char('/')), 0);
    assert!(!st.refresh_requested(&r));
    st.handle_event(AppEvent::TerminalEvent(r), 50);
    assert_eq!(st.last_refreshed, Some(40));
    match st.views.current() {
        View::Dashboard(d) => assert_eq!(d.filter.text, "r"),
        _ => panic!("not on the dashboard"),
    }

    // A pending quit takes `r` as "no".
    st.handle_event(key(KeyCode::Esc), 0);
    st.handle_event(key(KeyCode::Esc), 0);
    assert!(st.pending_quit);
    assert!(!st.refresh_requested(&r));
    st.handle_event(AppEvent::TerminalEvent(r), 60);
    assert!(!st.pending_quit);
    assert_eq!(st.last_refreshed, Some(40));
}

#[test]
fn g_g_and_enter_on_the_dashboard() {
    let mut st = AppState::new(&repos(&["a/b", "c/d", "e/f"]));
    st.handle_event(key(KeyCode::Char('G')), 0);
    assert_eq!(selected_row(usize::MAX, st.repo_data.len()), Some(2));
    st.handle_event(key(KeyCode::Char('g')), 0);
    match st.views.current() {
        View::Dashboard(d) => assert_eq!(d.selected, usize::MAX),
        _ => panic!("not on the dashboard"),
    }
    st.handle_event(key(KeyCode::Char('g')), 0);
    match st.views.current() {
        View::Dashboard(d) => {
            assert_eq!(d.selected, 0);
            assert!(!d.last_g);
        }
        _ => panic!("not on the dashboard"),
    }
    // A key between the two presses cancels the jump.
    st.handle_event(key(KeyCode::Char('j')), 0);
    st.handle_event(key(KeyCode::Char('g')), 0);
    st.handle_event(key(KeyCode::Char('j')), 0);
    st.handle_event(key(KeyCode::Char('g')), 0);
    match st.views.current() {
        View::Dashboard(d) => assert_eq!(d.selected, 2),
        _ => panic!("not on the dashboard"),
    }
    st.handle_event(key(KeyCode::Enter), 0);
    assert_eq!(st.views.breadcrumb(), "Dashboard > e/f");
    match st.views.current() {
        View::Repo(r) => {
            assert_eq!(r.owner, "e");
            assert_eq!(r.repo, "f");
            assert_eq!(r.focused_panel, 0);
        }
        _ => panic!("not on the repository view"),
    }
    st.handle_event(key(KeyCode::Esc), 0);
    assert!(st.views.is_root());

    // After `G` the last row is the one opened.
    st.handle_event(key(KeyCode::Char('G')), 0);
    st.handle_event(key(KeyCode::Enter), 0);
    assert_eq!(st.views.breadcrumb(), "Dashboard > e/f");
}

#[test]
fn enter_with_nothing_to_open() {
    let mut st = AppState::new(&repos(&[]));
    st.handle_event(key(KeyCode::Enter), 0);
    assert!(st.views.is_root());
    assert_eq!(selected_row(0, 0), None);
    assert_eq!(selected_row(1, 3), Some(1));
}

#[test]
fn commits_come_from_the_default_branch() {
    let ok: Result<RepoSummary, ClientError> = Ok(summary("r"));
    assert_eq!(commits_branch(&ok).map(|b| b.as_str()), Some("main"));
    let err: Result<RepoSummary, ClientError> = Err(ClientError::Api("x".to_string()));
    assert_eq!(commits_branch(&err), None);
}
