use xrepotui::navigation::{
    FilterState, ListState, PrViewState, RepoViewState, ScrollState, View, ViewStack,
};

#[test]
fn view_stack_starts_with_dashboard() {
    let stack = ViewStack::new();
    assert!(matches!(stack.current(), View::Dashboard(_)));
    assert!(stack.is_root());
}

#[test]
fn view_stack_push_and_pop() {
    let mut stack = ViewStack::new();
    stack.push(View::Repo(RepoViewState::new("owner".into(), "repo".into())));
    assert!(!stack.is_root());
    assert!(matches!(stack.current(), View::Repo(_)));

    stack.pop();
    assert!(stack.is_root());
    assert!(matches!(stack.current(), View::Dashboard(_)));
}

#[test]
fn view_stack_pop_at_root_returns_none() {
    let mut stack = ViewStack::new();
    assert!(stack.pop().is_none());
    assert!(stack.is_root());
}

#[test]
fn breadcrumb_reflects_stack() {
    let mut stack = ViewStack::new();
    assert_eq!(stack.breadcrumb(), "Dashboard");

    stack.push(View::Repo(RepoViewState::new("owner".into(), "repo".into())));
    assert_eq!(stack.breadcrumb(), "Dashboard > owner/repo");

    stack.push(View::Pr(PrViewState::new("owner".into(), "repo".into(), 42)));
    assert_eq!(stack.breadcrumb(), "Dashboard > owner/repo > PR #42");
}

#[test]
fn filter_state_matches_case_insensitive() {
    let f = FilterState { active: true, text: "foo".to_string() };
    assert!(f.matches("foobar"));
    assert!(f.matches("FOO"));
    assert!(!f.matches("bar"));
}

#[test]
fn filter_state_empty_matches_all() {
    let f = FilterState::default();
    assert!(f.matches("anything"));
    assert!(f.matches(""));
}

#[test]
fn list_state_vim_navigation() {
    let mut ls = ListState::new(5);
    ls.move_down();
    ls.move_down();
    assert_eq!(ls.selected, 2);
    ls.move_up();
    assert_eq!(ls.selected, 1);
    ls.jump_to_last();
    assert_eq!(ls.selected, 4);
}

#[test]
fn list_state_g_g_jumps_to_first() {
    let mut ls = ListState::new(5);
    ls.selected = 4;
    ls.handle_g(); // first g
    let jumped = ls.handle_g(); // second g
    assert!(jumped);
    assert_eq!(ls.selected, 0);
}

#[test]
fn scroll_page_down_stops_at_bottom() {
    let mut s = ScrollState { offset: 0, total_lines: 25, viewport_height: 10 };
    s.page_down();
    assert_eq!(s.offset, 5);
    s.page_down();
    s.page_down();
    s.page_down();
    assert_eq!(s.offset, 15);
    assert!(s.is_at_bottom());
    s.page_up();
    assert_eq!(s.offset, 10);
}
