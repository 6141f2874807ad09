//! The JQL tabs of an issue list and the moves between them.
use vstd::prelude::*;

verus! {

/// A named JQL filter.
#[derive(Debug, Clone, PartialEq, Eq)]
pub struct JqlTab {
    pub name: String,
    pub jql: String,
    pub description: Option<String>,
}

impl JqlTab {
    /// A tab with a name and a filter, and no description.
    pub fn new(name: &str, jql: &str) -> (r: Self)
        ensures
            r.name@ == name@,
            r.jql@ == jql@,
            r.description is None,
    {
        JqlTab { name: name.to_string(), jql: jql.to_string(), description: None }
    }

    /// This tab with a description.
    pub fn with_description(self, description: &str) -> (r: Self)
        ensures
            r.name == self.name,
            r.jql == self.jql,
            r.description matches Some(d) && d@ == description@,
    {
        JqlTab { name: self.name, jql: self.jql, description: Some(description.to_string()) }
    }
}

/// What a move between tabs did.
#[derive(Debug, Clone, Copy, PartialEq, Eq, Structural)]
pub enum TabAction {
    TabChanged,
    NoAction,
}

/// The tabs of a list and the selected one.
#[derive(Debug, Clone)]
pub struct TabBar {
    pub tabs: Vec<JqlTab>,
    pub selected_index: usize,
}

/// The selected index after a move left among `n` tabs: the previous tab, or the
/// last from the first.
pub open spec fn left_index(i: usize, n: usize) -> usize {
    if i > 0 {
        (i - 1) as usize
    } else if n > 0 {
        (n - 1) as usize
    } else {
        0
    }
}

/// The selected index after a move right among `n` tabs: the next tab, or the first
/// from the last.
pub open spec fn right_index(i: usize, n: usize) -> usize {
    if i + 1 < n {
        (i + 1) as usize
    } else {
        0
    }
}

/// The index reached by `k` moves right.
pub open spec fn right_n(i: usize, n: usize, k: nat) -> usize
    decreases k,
{
    if k == 0 {
        i
    } else {
        right_index(right_n(i, n, (k - 1) as nat), n)
    }
}

/// Whether `t` is a tab with this name, filter and description.
pub open spec fn tab_is(t: JqlTab, name: Seq<char>, jql: Seq<char>, description: Seq<char>) -> bool {
    &&& t.name@ == name
    &&& t.jql@ == jql
    &&& t.description matches Some(d) && d@ == description
}

/// Whether `s` is the default tabs: all issues, assigned, recent, in progress, to do,
/// high priority.
pub open spec fn is_default_tabs(s: Seq<JqlTab>) -> bool {
    &&& s.len() == 6
    &&& tab_is(s[0], "All"@, ""@, "All issues in current project"@)
    &&& tab_is(s[1], "Assigned"@, "assignee = currentUser()"@, "Issues assigned to you"@)
    &&& tab_is(s[2], "Recent"@, "updated >= -7d"@, "Updated in last 7 days"@)
    &&& tab_is(s[3], "In Progress"@, "status in ('In Progress', 'In Development')"@, "Currently in progress"@)
    &&& tab_is(s[4], "To Do"@, "status = 'To Do'"@, "Ready to start"@)
    &&& tab_is(s[5], "High Priority"@, "priority in (Highest, High)"@, "High priority issues"@)
}

impl TabBar {
    /// A bar with no tabs.
    pub fn new() -> (r: Self)
        ensures
            r.tabs@.len() == 0,
            r.selected_index == 0,
    {
        TabBar { tabs: Vec::new(), selected_index: 0 }
    }

    /// A bar of the given tabs, the first selected.
    pub fn with_tabs(tabs: Vec<JqlTab>) -> (r: Self)
        ensures
            r.tabs == tabs,
            r.selected_index == 0,
    {
        TabBar { tabs, selected_index: 0 }
    }

    /// Adds a tab at the end.
    pub fn add_tab(&mut self, tab: JqlTab)
        ensures
            final(self).tabs@ == old(self).tabs@.push(tab),
            final(self).selected_index == old(self).selected_index,
    {
        self.tabs.push(tab);
    }

    /// The selected tab, if the index names one.
    pub fn current_tab(&self) -> (r: Option<&JqlTab>)
        ensures
            r is Some <==> self.selected_index < self.tabs@.len(),
            r matches Some(t) ==> *t == self.tabs@[self.selected_index as int],
    {
        if self.selected_index < self.tabs.len() {
            Some(&self.tabs[self.selected_index])
        } else {
            None
        }
    }

    /// The filter of the selected tab.
    pub fn current_jql(&self) -> (r: Option<&str>)
        ensures
            r is Some <==> self.selected_index < self.tabs@.len(),
            r matches Some(j) ==> j@ == self.tabs@[self.selected_index as int].jql@,
    {
        match self.current_tab() {
            Some(tab) => Some(tab.jql.as_str()),
            None => None,
        }
    }

    /// Selects the previous tab, or the last one from the first.
    pub fn move_left(&mut self)
        ensures
            final(self).selected_index == left_index(old(self).selected_index, old(self).tabs@.len() as usize),
            final(self).tabs == old(self).tabs,
    {
        if self.selected_index > 0 {
            self.selected_index -= 1;
        } else {
            self.selected_index = self.tabs.len().saturating_sub(1);
        }
    }

    /// Selects the next tab, or the first one from the last.
    pub fn move_right(&mut self)
        ensures
            final(self).selected_index == right_index(old(self).selected_index, old(self).tabs@.len() as usize),
            final(self).tabs == old(self).tabs,
    {
        if self.selected_index < self.tabs.len() && self.selected_index + 1 < self.tabs.len() {
            self.selected_index += 1;
        } else {
            self.selected_index = 0;
        }
    }

    /// Selects tab `index` where there is one; says whether it did.
    pub fn select_tab(&mut self, index: usize) -> (r: bool)
        ensures
            r == (index < old(self).tabs@.len()),
            final(self).selected_index == (if r { index } else { old(self).selected_index }),
            final(self).tabs == old(self).tabs,
    {
        if index < self.tabs.len() {
            self.selected_index = index;
            true
        } else {
            false
        }
    }

    /// The tabs of common queries: all, assigned, recent, in progress, to do, high
    /// priority.
    pub fn default_tabs() -> (r: Vec<JqlTab>)
        ensures
            is_default_tabs(r@),
    {
        let mut v: Vec<JqlTab> = Vec::new();
        v.push(JqlTab::new("All", "").with_description("All issues in current project"));
        v.push(JqlTab::new("Assigned", "assignee = currentUser()").with_description("Issues assigned to you"));
        v.push(JqlTab::new("Recent", "updated >= -7d").with_description("Updated in last 7 days"));
        v.push(
            JqlTab::new("In Progress", "status in ('In Progress', 'In Development')").with_description(
                "Currently in progress",
            ),
        );
        v.push(JqlTab::new("To Do", "status = 'To Do'").with_description("Ready to start"));
        v.push(JqlTab::new("High Priority", "priority in (Highest, High)").with_description("High priority issues"));
        v
    }
}

impl Default for TabBar {
    /// The bar of the default tabs.
    fn default() -> (r: Self)
        ensures
            is_default_tabs(r.tabs@),
            r.selected_index == 0,
    {
        TabBar::with_tabs(TabBar::default_tabs())
    }
}

/// Among tabs, a move right undoes a move left and a move left undoes a move right.
pub proof fn lemma_left_right_inverse(i: usize, n: usize)
    requires
        i < n,
    ensures
        right_index(left_index(i, n), n) == i,
        left_index(right_index(i, n), n) == i,
{
}

/// A move in either direction keeps a selected index among the tabs.
pub proof fn lemma_moves_keep_index(i: usize, n: usize)
    requires
        i < n,
    ensures
        left_index(i, n) < n,
        right_index(i, n) < n,
{
}

/// Moving right once per tab comes back to the tab where it started.
pub proof fn lemma_right_cycle(i: usize, n: usize)
    requires
        i < n,
    ensures
        right_n(i, n, n as nat) == i,
{
    lemma_right_n_shift(i, n, (n - i) as nat);
    lemma_right_n_from_zero(n, i as nat);
    lemma_right_n_add(i, n, (n - i) as nat, i as nat);
}

proof fn lemma_right_n_shift(i: usize, n: usize, k: nat)
    requires
        i < n,
        i + k <= n,
    ensures
        right_n(i, n, k) == (if i + k == n { 0 } else { i + k }),
    decreases k,
{
    if k > 0 {
        lemma_right_n_shift(i, n, (k - 1) as nat);
    }
}

proof fn lemma_right_n_from_zero(n: usize, k: nat)
    requires
        k < n,
    ensures
        right_n(0, n, k) == k,
    decreases k,
{
    if k > 0 {
        lemma_right_n_from_zero(n, (k - 1) as nat);
    }
}

proof fn lemma_right_n_add(i: usize, n: usize, a: nat, b: nat)
    ensures
        right_n(i, n, a + b) == right_n(right_n(i, n, a), n, b),
    decreases b,
{
    if b > 0 {
        lemma_right_n_add(i, n, a, (b - 1) as nat);
        assert((a + b - 1) as nat == a + (b - 1) as nat);
    }
}

} // verus!
