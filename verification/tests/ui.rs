use xrepotui::app_state::{RepoData, RepoFetchState};
use xrepotui::github::client::{commit_summary_from, pr_detail_from, workflow_run_from};
use xrepotui::github::models::{MergeableState, PrSummary, RateLimitState, RunConclusion, RunStatus};
use xrepotui::navigation::LogViewerState;
use xrepotui::ui::{
    active_run_lines, centered_origin, ci_conclusion_tone, ci_status_indicator, dashboard_row,
    fits_minimum, format_pr, format_relative_time, format_run_status, log_viewer_title,
    status_bar_texts, too_small_message, CiTone, RowTone, mergeable_label, pr_body_text,
    pr_header_lines, visible_log_lines,
};

fn run(status: &str, conclusion: Option<&str>) -> xrepotui::github::models::WorkflowRunSummary {
    workflow_run_from(
        1, "CI".into(), 3, "push".into(), None, "main".into(), "msg", status, conclusion, 100, 100,
        "o", "r",
    )
}

#[test]
fn run_status_labels() {
    assert_eq!(format_run_status(&RunStatus::InProgress, &None), "in_progress");
    assert_eq!(format_run_status(&RunStatus::Completed, &None), "completed");
    assert_eq!(
        format_run_status(&RunStatus::Completed, &Some(RunConclusion::TimedOut)),
        "timed_out"
    );
    assert_eq!(format_run_status(&RunStatus::Waiting, &None), "waiting");
}

#[test]
fn ci_indicator_and_tone() {
    assert_eq!(ci_status_indicator(&[]), "  -  ");
    assert_eq!(ci_status_indicator(&[run("queued", None)]), " ... ");
    assert_eq!(ci_status_indicator(&[run("completed", Some("success"))]), "  \u{2713}  ");
    assert_eq!(ci_status_indicator(&[run("completed", Some("failure"))]), "  \u{2717}  ");
    assert_eq!(ci_status_indicator(&[run("completed", Some("cancelled"))]), "  \u{2205}  ");
    assert_eq!(ci_conclusion_tone(&[run("completed", Some("success"))]), CiTone::Success);
    assert_eq!(ci_conclusion_tone(&[run("in_progress", None)]), CiTone::Warning);
    assert_eq!(ci_conclusion_tone(&[]), CiTone::Muted);
}

#[test]
fn relative_times() {
    assert_eq!(format_relative_time(100, 100), "0s ago");
    assert_eq!(format_relative_time(100, 110), "-10s ago");
    assert_eq!(format_relative_time(200, 100), "1m ago");
    assert_eq!(format_relative_time(7_300, 100), "2h ago");
    assert_eq!(format_relative_time(3 * 86_400 + 5, 0), "3d ago");
}

#[test]
fn dashboard_rows() {
    let mut data = RepoData::new("o/r".into());
    let loading = dashboard_row(&data, None, 0);
    assert_eq!(loading.cells, vec!["o/r", "...", "...", "...", "Loading..."]);
    assert_eq!(loading.tone, RowTone::Loading);

    let failed = RepoFetchState {
        loading: false,
        error: Some("x".repeat(40)),
        last_refreshed: None,
    };
    let row = dashboard_row(&data, Some(&failed), 0);
    assert_eq!(row.cells[1], "ERR");
    assert_eq!(row.cells[4], "x".repeat(30));
    assert_eq!(row.tone, RowTone::Error);

    let done = RepoFetchState { loading: false, error: None, last_refreshed: Some(1) };
    assert_eq!(dashboard_row(&data, Some(&done), 0).cells, vec!["o/r", "-", "-", "-", "-"]);

    data.summary = Some(xrepotui::github::client::repo_summary_from(
        Some("o".into()),
        "r".into(),
        None,
        None,
        None,
        None,
        Some(4),
        None,
        None,
    ));
    data.commits = vec![commit_summary_from("abc".into(), "m", None, Some(0), 0)];
    data.workflow_runs = vec![run("completed", Some("success"))];
    let row = dashboard_row(&data, Some(&done), 120);
    assert_eq!(row.cells, vec!["r", "  \u{2713}  ", "0", "4", "2m ago"]);
    assert_eq!(row.tone, RowTone::Normal(CiTone::Success));
}

#[test]
fn active_runs_panel() {
    let mut a = RepoData::new("o/r".into());
    assert_eq!(active_run_lines(&vec![a.clone()], 0), vec!["  No active runs"]);
    a.workflow_runs = vec![run("in_progress", None), run("completed", Some("success"))];
    let mut b = RepoData::new("p/q".into());
    b.workflow_runs = vec![run("queued", None)];
    let lines = active_run_lines(&vec![a, b], 160);
    assert_eq!(lines, vec!["  o/r  CI  push  (1m ago)", "  o/r  CI  push  (1m ago)"]);
}

#[test]
fn list_lines_and_status_bar() {
    let p = PrSummary {
        number: 42,
        title: "t".repeat(50),
        author: "ann".into(),
        head_branch: "b".into(),
        updated_at: 0,
    };
    assert_eq!(format_pr(&p), format!("#42 {} (ann)", "t".repeat(40)));

    let rate = RateLimitState { remaining: Some(10), limit: Some(5000), reset_at: None, is_blocked: false };
    assert_eq!(
        status_bar_texts(&rate, Some(3)),
        vec![" API: 10/5000 ", " refreshed 3s ago ", " r:refresh  ?:help  q:back "]
    );
    let blocked = RateLimitState { is_blocked: true, ..rate };
    assert_eq!(status_bar_texts(&blocked, None)[0], " [RATE LIMITED] ");
}

#[test]
fn log_title_and_layout() {
    let mut v = LogViewerState::new("o".into(), "r".into(), 1, "build".into());
    assert_eq!(log_viewer_title(&v), " Log: build");
    v.step_starts = vec![0, 5];
    v.current_step = 1;
    assert_eq!(log_viewer_title(&v), " Log: build Step 2/2 ");
    assert!(fits_minimum(100, 30));
    assert!(!fits_minimum(99, 30));
    assert_eq!(too_small_message(80, 24), "Terminal too small (80 x 24). Minimum: 100 x 30.");
    assert_eq!(centered_origin(100, 30, 36, 3), (32, 13));
    assert_eq!(centered_origin(10, 2, 36, 3), (0, 0));
}

#[test]
fn pr_view_texts() {
    let d = pr_detail_from(
        12,
        Some("Fix it".to_string()),
        Some("ann".to_string()),
        "feature".to_string(),
        "main".to_string(),
        None,
        None,
        None,
        Some(false),
        vec![],
        0,
    );
    assert_eq!(
        pr_header_lines(&d),
        vec!["PR #12: Fix it", "Author: ann  feature\u{2192}main", "\u{2717} Conflicts"]
    );
    assert_eq!(pr_body_text(&d), "(no description)");
    assert_eq!(mergeable_label(MergeableState::Mergeable), "\u{2713} Mergeable");
    assert_eq!(mergeable_label(MergeableState::Unknown), "? Unknown");
    let mut d2 = d.clone();
    d2.body = Some("details".to_string());
    assert_eq!(pr_body_text(&d2), "details");
}

#[test]
fn visible_log_window() {
    let lines: Vec<String> = (0..5).map(|i| format!("l{i}")).collect();
    assert_eq!(visible_log_lines(&lines, 1, 2), vec!["l1", "l2"]);
    assert_eq!(visible_log_lines(&lines, 3, 10), vec!["l3", "l4"]);
    assert!(visible_log_lines(&lines, 9, 3).is_empty());
    assert!(visible_log_lines(&lines, 0, 0).is_empty());
}
