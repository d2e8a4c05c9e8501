//! Navigation model: view stack, breadcrumbs, filter input, and vim-style
//! list and scroll state.

use vstd::prelude::*;
use vstd::view::View as _;

use crate::text::{
    contains_seq, decimal, lowercase, push_decimal, push_str, str_contains, string_of,
    to_lowercase,
};

verus! {

// ── View State Types ──────────────────────────────────────────────────────────

/// State for the dashboard view.
#[derive(Debug, Clone)]
pub struct DashboardState {
    /// Index of the selected repository row.
    pub selected: usize,
    /// Filter state for the repo list.
    pub filter: FilterState,
    /// Whether the last key was a first `g` (for `g g`).
    pub last_g: bool,
}

impl Default for DashboardState {
    fn default() -> (r: Self)
        ensures
            r.selected == 0,
            !r.filter.active,
            r.filter.text@ == Seq::<char>::empty(),
            !r.last_g,
    {
        DashboardState { selected: 0, filter: FilterState::default(), last_g: false }
    }
}

/// State for the repository drill-down view.
#[derive(Debug, Clone)]
pub struct RepoViewState {
    pub owner: String,
    pub repo: String,
    /// Which panel currently has focus (0 = commits+PRs, 1 = Actions runs).
    pub focused_panel: usize,
    /// Selected index in the commits list.
    pub selected_commit: usize,
    /// Selected index in the PRs list.
    pub selected_pr: usize,
    /// Selected index in the Actions runs list.
    pub selected_run: usize,
}

impl RepoViewState {
    pub fn new(owner: String, repo: String) -> (r: Self)
        ensures
            r.owner == owner,
            r.repo == repo,
            r.focused_panel == 0,
            r.selected_commit == 0,
            r.selected_pr == 0,
            r.selected_run == 0,
    {
        RepoViewState {
            owner,
            repo,
            focused_panel: 0,
            selected_commit: 0,
            selected_pr: 0,
            selected_run: 0,
        }
    }
}

/// State for the pull request detail view.
#[derive(Debug, Clone)]
pub struct PrViewState {
    pub owner: String,
    pub repo: String,
    pub pr_number: u64,
    /// Scroll offset for the PR body.
    pub body_scroll: usize,
    /// Scroll offset for the files-changed list.
    pub files_scroll: usize,
    /// Which panel has focus.
    pub focused_panel: usize,
}

impl PrViewState {
    pub fn new(owner: String, repo: String, pr_number: u64) -> (r: Self)
        ensures
            r.owner == owner,
            r.repo == repo,
            r.pr_number == pr_number,
            r.body_scroll == 0,
            r.files_scroll == 0,
            r.focused_panel == 0,
    {
        PrViewState { owner, repo, pr_number, body_scroll: 0, files_scroll: 0, focused_panel: 0 }
    }
}

/// State for the Actions run view.
#[derive(Debug, Clone)]
pub struct ActionsViewState {
    /// Some(repo) if viewing a specific repo's run, None for cross-repo list.
    pub repo_context: Option<(String, String)>,
    pub run_id: Option<u64>,
    /// Selected job index.
    pub selected_job: usize,
    /// Which panel has focus (0 = jobs, 1 = steps).
    pub focused_panel: usize,
    /// Filter for cross-repo list.
    pub filter: FilterState,
}

impl ActionsViewState {
    pub fn new_run(owner: String, repo: String, run_id: u64) -> (r: Self)
        ensures
            r.repo_context == Some((owner, repo)),
            r.run_id == Some(run_id),
            r.selected_job == 0,
            r.focused_panel == 0,
            !r.filter.active,
            r.filter.text@ == Seq::<char>::empty(),
    {
        ActionsViewState {
            repo_context: Some((owner, repo)),
            run_id: Some(run_id),
            selected_job: 0,
            focused_panel: 0,
            filter: FilterState::default(),
        }
    }

    pub fn new_cross_repo() -> (r: Self)
        ensures
            r.repo_context is None,
            r.run_id is None,
            r.selected_job == 0,
            r.focused_panel == 0,
            !r.filter.active,
            r.filter.text@ == Seq::<char>::empty(),
    {
        ActionsViewState {
            repo_context: None,
            run_id: None,
            selected_job: 0,
            focused_panel: 0,
            filter: FilterState::default(),
        }
    }
}

/// State for the log viewer.
#[derive(Debug, Clone)]
pub struct LogViewerState {
    pub owner: String,
    pub repo: String,
    pub job_id: u64,
    pub job_name: String,
    /// Current vertical scroll offset (line index).
    pub scroll: usize,
    /// Whether the viewport was at the bottom before the last update.
    pub at_bottom: bool,
    /// Indices of step boundary lines.
    pub step_starts: Vec<usize>,
    /// Currently active step index (0-based).
    pub current_step: usize,
    /// Total number of log lines loaded.
    pub total_lines: usize,
}

impl LogViewerState {
    pub fn new(owner: String, repo: String, job_id: u64, job_name: String) -> (r: Self)
        ensures
            r.owner == owner,
            r.repo == repo,
            r.job_id == job_id,
            r.job_name == job_name,
            r.scroll == 0,
            r.at_bottom,
            r.step_starts@ == Seq::<usize>::empty(),
            r.current_step == 0,
            r.total_lines == 0,
    {
        LogViewerState {
            owner,
            repo,
            job_id,
            job_name,
            scroll: 0,
            at_bottom: true,
            step_starts: Vec::new(),
            current_step: 0,
            total_lines: 0,
        }
    }
}

// ── Filter State ──────────────────────────────────────────────────────────────

/// State for the inline list filter input.
#[derive(Debug, Clone)]
pub struct FilterState {
    pub active: bool,
    pub text: String,
}

impl Default for FilterState {
    fn default() -> (r: Self)
        ensures
            !r.active,
            r.text@ == Seq::<char>::empty(),
    {
        FilterState { active: false, text: String::new() }
    }
}

/// Whether `name` passes a filter holding `text`: an empty filter passes
/// everything, otherwise the lowercased text must occur in the lowercased name.
pub open spec fn filter_matches(text: Seq<char>, name: Seq<char>) -> bool {
    text.len() == 0 || contains_seq(lowercase(name), lowercase(text))
}

impl FilterState {
    /// Returns true if the given name matches the current filter (case-insensitive).
    pub fn matches(&self, name: &str) -> (r: bool)
        ensures
            r == filter_matches(self.text@, name@),
    {
        if self.text.as_str().is_empty() {
            return true;
        }
        let hay = to_lowercase(name);
        let needle = to_lowercase(self.text.as_str());
        str_contains(hay.as_str(), needle.as_str())
    }
}

// ── View Enum ─────────────────────────────────────────────────────────────────

/// A single entry in the navigation stack.
#[derive(Debug, Clone)]
pub enum View {
    Dashboard(DashboardState),
    Repo(RepoViewState),
    Pr(PrViewState),
    ActionsRun(ActionsViewState),
    LogViewer(LogViewerState),
}

/// The breadcrumb label of a view.
pub open spec fn label_of(v: View) -> Seq<char> {
    match v {
        View::Dashboard(_) => "Dashboard"@,
        View::Repo(s) => s.owner@ + "/"@ + s.repo@,
        View::Pr(s) => "PR #"@ + decimal(s.pr_number as nat),
        View::ActionsRun(s) => match s.run_id {
            Some(id) => "Run #"@ + decimal(id as nat),
            None => "Actions"@,
        },
        View::LogViewer(s) => "Log: "@ + s.job_name@,
    }
}

/// `parts` joined with `sep` between consecutive parts.
pub open spec fn joined(parts: Seq<Seq<char>>, sep: Seq<char>) -> Seq<char>
    decreases parts.len(),
{
    if parts.len() == 0 {
        Seq::empty()
    } else if parts.len() == 1 {
        parts[0]
    } else {
        joined(parts.drop_last(), sep) + sep + parts.last()
    }
}

/// The breadcrumb of a stack of views: their labels joined by ` > `.
pub open spec fn breadcrumb_of(views: Seq<View>) -> Seq<char> {
    joined(views.map_values(|v: View| label_of(v)), " > "@)
}

impl View {
    /// Human-readable label for the breadcrumb.
    pub fn breadcrumb_label(&self) -> (r: String)
        ensures
            r@ == label_of(*self),
    {
        match self {
            View::Dashboard(_) => string_of("Dashboard"),
            View::Repo(s) => {
                let mut r = s.owner.clone();
                push_str(&mut r, "/");
                push_str(&mut r, s.repo.as_str());
                r
            },
            View::Pr(s) => {
                let mut r = string_of("PR #");
                push_decimal(&mut r, s.pr_number);
                r
            },
            View::ActionsRun(s) => {
                if let Some(id) = s.run_id {
                    let mut r = string_of("Run #");
                    push_decimal(&mut r, id);
                    r
                } else {
                    string_of("Actions")
                }
            },
            View::LogViewer(s) => {
                let mut r = string_of("Log: ");
                push_str(&mut r, s.job_name.as_str());
                r
            },
        }
    }
}

// ── ViewStack ─────────────────────────────────────────────────────────────────

/// The stack after a pop, and the view popped: the root is never popped.
pub open spec fn popped(views: Seq<View>) -> (Seq<View>, Option<View>) {
    if views.len() > 1 {
        (views.drop_last(), Some(views.last()))
    } else {
        (views, None)
    }
}

/// The navigation stack. Always has at least one entry (the dashboard).
#[derive(Debug, Clone)]
pub struct ViewStack {
    stack: Vec<View>,
}

impl ViewStack {
    /// The views on the stack, bottom first.
    pub closed spec fn views(self) -> Seq<View> {
        self.stack@
    }

    /// Create a new stack with the dashboard as the root.
    pub fn new() -> (r: Self)
        ensures
            r.views().len() == 1,
            r.views()[0] matches View::Dashboard(d) && d.selected == 0 && !d.filter.active
                && d.filter.text@.len() == 0,
    {
        let mut stack: Vec<View> = Vec::new();
        stack.push(View::Dashboard(DashboardState::default()));
        ViewStack { stack }
    }

    /// Push a new view onto the stack.
    pub fn push(&mut self, view: View)
        ensures
            final(self).views() == old(self).views().push(view),
    {
        self.stack.push(view);
    }

    /// Pop the top view. Returns the popped view if the stack has more than one entry.
    pub fn pop(&mut self) -> (r: Option<View>)
        ensures
            (final(self).views(), r) == popped(old(self).views()),
    {
        if self.stack.len() > 1 {
            self.stack.pop()
        } else {
            None
        }
    }

    /// Return a reference to the current (top) view.
    pub fn current(&self) -> (r: &View)
        requires
            self.views().len() >= 1,
        ensures
            *r == self.views().last(),
    {
        &self.stack[self.stack.len() - 1]
    }

    /// Return a mutable reference to the current (top) view.
    pub fn current_mut(&mut self) -> (r: &mut View)
        requires
            old(self).views().len() >= 1,
        ensures
            *r == old(self).views().last(),
            final(self).views() == old(self).views().update(
                old(self).views().len() - 1,
                *final(r),
            ),
    {
        let n = self.stack.len();
        &mut self.stack[n - 1]
    }

    /// Returns true if this is the root (dashboard) view.
    pub fn is_root(&self) -> (r: bool)
        ensures
            r == (self.views().len() == 1),
    {
        self.stack.len() == 1
    }

    /// Generate the breadcrumb string from the current stack.
    pub fn breadcrumb(&self) -> (r: String)
        ensures
            r@ == breadcrumb_of(self.views()),
    {
        let ghost labels = self.stack@.map_values(|v: View| label_of(v));
        let mut r = String::new();
        let mut i: usize = 0;
        while i < self.stack.len()
            invariant
                i <= self.stack@.len(),
                labels == self.stack@.map_values(|v: View| label_of(v)),
                r@ == joined(labels.take(i as int), " > "@),
            decreases self.stack.len() - i,
        {
            let label = self.stack[i].breadcrumb_label();
            assert(labels.take(i + 1).drop_last() =~= labels.take(i as int));
            if i > 0 {
                push_str(&mut r, " > ");
            } else {
                assert(labels.take(1) =~= seq![labels[0]]);
                assert(r@ =~= Seq::<char>::empty());
            }
            push_str(&mut r, label.as_str());
            if i == 0 {
                assert(r@ =~= labels.take(1)[0]);
            }
            i = i + 1;
        }
        assert(labels.take(self.stack@.len() as int) =~= labels);
        r
    }
}

impl Default for ViewStack {
    fn default() -> (r: Self)
        ensures
            r.views().len() == 1,
            r.views()[0] is Dashboard,
    {
        Self::new()
    }
}

// ── Vim-style List State ──────────────────────────────────────────────────────

/// Tracks selection in a list with vim-style navigation and `g g` detection.
#[derive(Debug, Clone, Copy)]
pub struct ListState {
    pub selected: usize,
    pub len: usize,
    /// Whether the last key press was `g` (for `g g` detection).
    pub last_g: bool,
}

/// The list state after `j`: one item down unless already on the last item.
pub open spec fn moved_down(s: ListState) -> ListState {
    ListState {
        selected: if s.len > 0 && s.selected < s.len - 1 {
            (s.selected + 1) as usize
        } else {
            s.selected
        },
        len: s.len,
        last_g: false,
    }
}

/// The list state after `k`: one item up unless already on the first item.
pub open spec fn moved_up(s: ListState) -> ListState {
    ListState {
        selected: if s.selected > 0 {
            (s.selected - 1) as usize
        } else {
            s.selected
        },
        len: s.len,
        last_g: false,
    }
}

/// The list state after `G`: on the last item, if there is one.
pub open spec fn jumped_to_last(s: ListState) -> ListState {
    ListState {
        selected: if s.len > 0 {
            (s.len - 1) as usize
        } else {
            s.selected
        },
        len: s.len,
        last_g: false,
    }
}

/// The list state after a `g` press, and whether it jumped to the first item.
pub open spec fn after_g(s: ListState) -> (ListState, bool) {
    if s.last_g {
        (ListState { selected: 0, len: s.len, last_g: false }, true)
    } else {
        (ListState { selected: s.selected, len: s.len, last_g: true }, false)
    }
}

/// The list state after its length becomes `n`: the selection is pulled
/// back onto the last item when it fell off the end.
pub open spec fn with_len(s: ListState, n: usize) -> ListState {
    ListState {
        selected: if s.selected >= n && n > 0 {
            (n - 1) as usize
        } else {
            s.selected
        },
        len: n,
        last_g: s.last_g,
    }
}

impl Default for ListState {
    fn default() -> (r: Self)
        ensures
            r == (ListState { selected: 0, len: 0, last_g: false }),
    {
        ListState { selected: 0, len: 0, last_g: false }
    }
}

impl ListState {
    pub fn new(len: usize) -> (r: Self)
        ensures
            r == (ListState { selected: 0, len, last_g: false }),
    {
        ListState { selected: 0, len, last_g: false }
    }

    /// Move selection down one item.
    pub fn move_down(&mut self)
        ensures
            *final(self) == moved_down(*old(self)),
    {
        self.last_g = false;
        if self.len > 0 && self.selected < self.len - 1 {
            self.selected += 1;
        }
    }

    /// Move selection up one item.
    pub fn move_up(&mut self)
        ensures
            *final(self) == moved_up(*old(self)),
    {
        self.last_g = false;
        if self.selected > 0 {
            self.selected -= 1;
        }
    }

    /// Jump to the last item (`G`).
    pub fn jump_to_last(&mut self)
        ensures
            *final(self) == jumped_to_last(*old(self)),
    {
        self.last_g = false;
        if self.len > 0 {
            self.selected = self.len - 1;
        }
    }

    /// Handle a `g` key press. On second consecutive `g`, jump to first item.
    /// Returns true if a jump occurred.
    pub fn handle_g(&mut self) -> (r: bool)
        ensures
            (*final(self), r) == after_g(*old(self)),
    {
        if self.last_g {
            self.selected = 0;
            self.last_g = false;
            true
        } else {
            self.last_g = true;
            false
        }
    }

    /// Update the list length (e.g., after filtering).
    pub fn update_len(&mut self, new_len: usize)
        ensures
            *final(self) == with_len(*old(self), new_len),
    {
        self.len = new_len;
        if self.selected >= new_len && new_len > 0 {
            self.selected = new_len - 1;
        }
    }
}

// ── Scroll State ──────────────────────────────────────────────────────────────

/// Scroll state for vertically scrollable content.
#[derive(Debug, Clone, Copy)]
pub struct ScrollState {
    pub offset: usize,
    pub total_lines: usize,
    pub viewport_height: usize,
}

/// The largest offset at which the viewport is still filled with content.
pub open spec fn max_offset(s: ScrollState) -> int {
    if s.total_lines > s.viewport_height {
        s.total_lines - s.viewport_height
    } else {
        0
    }
}

/// The viewport shows the last line.
pub open spec fn at_bottom(s: ScrollState) -> bool {
    s.total_lines <= s.viewport_height || s.offset >= s.total_lines - s.viewport_height
}

/// The scroll state after one line down.
pub open spec fn scrolled_down(s: ScrollState) -> ScrollState {
    ScrollState {
        offset: if s.total_lines > s.viewport_height && s.offset < max_offset(s) {
            (s.offset + 1) as usize
        } else {
            s.offset
        },
        ..s
    }
}

/// The scroll state after one line up.
pub open spec fn scrolled_up(s: ScrollState) -> ScrollState {
    ScrollState {
        offset: if s.offset > 0 {
            (s.offset - 1) as usize
        } else {
            s.offset
        },
        ..s
    }
}

/// Half a viewport, and at least one line.
pub open spec fn half_page(s: ScrollState) -> int {
    if s.viewport_height / 2 >= 1 {
        (s.viewport_height / 2) as int
    } else {
        1
    }
}

/// The scroll state after half a page down: as far as `max_offset` allows.
pub open spec fn paged_down(s: ScrollState) -> ScrollState {
    ScrollState {
        offset: if s.offset >= max_offset(s) {
            s.offset
        } else if s.offset + half_page(s) <= max_offset(s) {
            (s.offset + half_page(s)) as usize
        } else {
            max_offset(s) as usize
        },
        ..s
    }
}

/// The scroll state after half a page up: not above the first line.
pub open spec fn paged_up(s: ScrollState) -> ScrollState {
    ScrollState {
        offset: if s.offset >= half_page(s) {
            (s.offset - half_page(s)) as usize
        } else {
            0
        },
        ..s
    }
}

/// The scroll state after a jump to the end.
pub open spec fn jumped_to_end(s: ScrollState) -> ScrollState {
    ScrollState {
        offset: if s.total_lines > s.viewport_height {
            max_offset(s) as usize
        } else {
            s.offset
        },
        ..s
    }
}

impl Default for ScrollState {
    fn default() -> (r: Self)
        ensures
            r == (ScrollState { offset: 0, total_lines: 0, viewport_height: 0 }),
    {
        ScrollState { offset: 0, total_lines: 0, viewport_height: 0 }
    }
}

impl ScrollState {
    /// Returns true if the viewport is at the last line.
    pub fn is_at_bottom(&self) -> (r: bool)
        ensures
            r == at_bottom(*self),
    {
        if self.total_lines <= self.viewport_height {
            return true;
        }
        self.offset >= self.total_lines - self.viewport_height
    }

    /// Scroll down one line.
    pub fn scroll_down(&mut self)
        ensures
            *final(self) == scrolled_down(*old(self)),
    {
        if self.total_lines > self.viewport_height {
            let max = self.total_lines - self.viewport_height;
            if self.offset < max {
                self.offset += 1;
            }
        }
    }

    /// Scroll up one line.
    pub fn scroll_up(&mut self)
        ensures
            *final(self) == scrolled_up(*old(self)),
    {
        if self.offset > 0 {
            self.offset -= 1;
        }
    }

    /// Scroll down half a page.
    pub fn page_down(&mut self)
        ensures
            *final(self) == paged_down(*old(self)),
    {
        let half = if self.viewport_height / 2 >= 1 {
            self.viewport_height / 2
        } else {
            1
        };
        let ghost start = *self;
        let mut k: usize = 0;
        while k < half
            invariant
                k <= half,
                half == half_page(start),
                self.total_lines == start.total_lines,
                self.viewport_height == start.viewport_height,
                self.offset == (if start.offset >= max_offset(start) {
                    start.offset as int
                } else if start.offset + k <= max_offset(start) {
                    start.offset + k
                } else {
                    max_offset(start)
                }),
            decreases half - k,
        {
            self.scroll_down();
            k = k + 1;
        }
    }

    /// Scroll up half a page.
    pub fn page_up(&mut self)
        ensures
            *final(self) == paged_up(*old(self)),
    {
        let half = if self.viewport_height / 2 >= 1 {
            self.viewport_height / 2
        } else {
            1
        };
        let ghost start = *self;
        let mut k: usize = 0;
        while k < half
            invariant
                k <= half,
                half == half_page(start),
                self.total_lines == start.total_lines,
                self.viewport_height == start.viewport_height,
                self.offset == (if start.offset >= k {
                    start.offset - k
                } else {
                    0
                }),
            decreases half - k,
        {
            self.scroll_up();
            k = k + 1;
        }
    }

    /// Jump to the last line.
    pub fn jump_to_end(&mut self)
        ensures
            *final(self) == jumped_to_end(*old(self)),
    {
        if self.total_lines > self.viewport_height {
            self.offset = self.total_lines - self.viewport_height;
        }
    }

    /// Jump to the first line.
    pub fn jump_to_start(&mut self)
        ensures
            *final(self) == (ScrollState { offset: 0, ..*old(self) }),
    {
        self.offset = 0;
    }

    /// Advance offset to follow new lines appended at the bottom.
    pub fn follow_to_end(&mut self)
        ensures
            *final(self) == jumped_to_end(*old(self)),
    {
        self.jump_to_end();
    }
}

// ── Laws ──────────────────────────────────────────────────────────────────────

/// A stack that is not empty stays non-empty under push and pop.
pub proof fn law_stack_never_empty(views: Seq<View>, view: View)
    requires
        views.len() >= 1,
    ensures
        views.push(view).len() >= 1,
        popped(views).0.len() >= 1,
{
}

/// Popping right after a push gives back the pushed view and the stack as it was.
pub proof fn law_pop_undoes_push(views: Seq<View>, view: View)
    requires
        views.len() >= 1,
    ensures
        popped(views.push(view)) == (views, Some(view)),
{
    assert(views.push(view).drop_last() =~= views);
}

/// Popping at the root returns nothing and leaves the stack as it is.
pub proof fn law_pop_at_root_keeps_root(views: Seq<View>)
    requires
        views.len() == 1,
    ensures
        popped(views) == (views, None::<View>),
{
}

/// Pushing a view extends the breadcrumb by ` > ` and the view's label.
pub proof fn law_breadcrumb_after_push(views: Seq<View>, view: View)
    requires
        views.len() >= 1,
    ensures
        breadcrumb_of(views.push(view)) == breadcrumb_of(views) + " > "@ + label_of(view),
{
    let f = |v: View| label_of(v);
    assert(views.push(view).map_values(f).drop_last() =~= views.map_values(f));
}

/// An empty filter lets every name through.
pub proof fn law_empty_filter_matches_all(name: Seq<char>)
    ensures
        filter_matches(Seq::empty(), name),
{
}

/// Moving up right after moving down returns to the same item, unless the
/// selection was already on the last item.
pub proof fn law_move_up_undoes_move_down(s: ListState)
    requires
        s.len > 0,
        s.selected < s.len - 1,
    ensures
        moved_up(moved_down(s)) == (ListState { last_g: false, ..s }),
{
}

/// Two consecutive `g` presses jump to the first item; the first press alone does not.
pub proof fn law_g_g_jumps_to_first(s: ListState)
    requires
        !s.last_g,
    ensures
        !after_g(s).1,
        after_g(s).0.selected == s.selected,
        after_g(after_g(s).0).1,
        after_g(after_g(s).0).0.selected == 0,
        !after_g(after_g(s).0).0.last_g,
{
}

/// A selection inside a non-empty list stays inside it under every list
/// operation, and a length update always leaves it inside a non-empty list.
pub proof fn law_selection_stays_in_list(s: ListState, n: usize)
    requires
        s.selected < s.len,
    ensures
        moved_down(s).selected < moved_down(s).len,
        moved_up(s).selected < moved_up(s).len,
        jumped_to_last(s).selected < jumped_to_last(s).len,
        after_g(s).0.selected < after_g(s).0.len,
        n > 0 ==> with_len(s, n).selected < n,
{
}

/// An offset that shows a full viewport keeps doing so under every scroll
/// operation.
pub proof fn law_offset_stays_in_range(s: ScrollState)
    requires
        s.offset <= max_offset(s),
    ensures
        scrolled_down(s).offset <= max_offset(scrolled_down(s)),
        scrolled_up(s).offset <= max_offset(scrolled_up(s)),
        paged_down(s).offset <= max_offset(paged_down(s)),
        paged_up(s).offset <= max_offset(paged_up(s)),
        jumped_to_end(s).offset <= max_offset(jumped_to_end(s)),
{
}

/// After a jump to the end the viewport is at the bottom.
pub proof fn law_jump_to_end_reaches_bottom(s: ScrollState)
    ensures
        at_bottom(jumped_to_end(s)),
{
}

/// Scrolling up right after scrolling down restores the offset, unless the
/// viewport was already at the bottom.
pub proof fn law_scroll_up_undoes_scroll_down(s: ScrollState)
    requires
        s.offset < max_offset(s),
    ensures
        scrolled_up(scrolled_down(s)) == s,
{
}

} // verus!
