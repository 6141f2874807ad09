//! The state of the application: three issue lists, the detail pane, the active list,
//! search, help and the flags of the event loop.
use vstd::prelude::*;
use crate::app::navigator::{ActiveList, Navigator};
use crate::services::sort::SortMode;
use crate::ui::components::issue_detail::{DetailField, IssueDetail};
use crate::ui::components::issue_list::{IssueList, JqlTab};
use crate::ui::components::issue_list::tabs::tab_is;

verus! {

/// Where the help view is.
#[derive(Debug, Clone, Copy, PartialEq, Eq, Structural)]
pub struct HelpState {
    pub selected_index: usize,
    pub scroll_offset: usize,
}

impl Default for HelpState {
    /// At the top, on the first entry.
    fn default() -> (r: Self)
        ensures
            r.selected_index == 0 && r.scroll_offset == 0,
    {
        HelpState { selected_index: 0, scroll_offset: 0 }
    }
}

/// The application.
#[derive(Debug)]
pub struct App {
    pub detail_view: IssueDetail,
    pub items_sprint: IssueList,
    pub items_recently_updated: IssueList,
    pub items_backlog: IssueList,
    pub show_help: bool,
    pub help_state: HelpState,
    pub navigator: Navigator,
    pub search_mode: bool,
    pub search_query: String,
    pub loading: bool,
    pub should_quit: bool,
    pub pending_detail_key: Option<String>,
}

/// The list `l` of `app`.
pub open spec fn list_of(app: App, l: ActiveList) -> IssueList {
    match l {
        ActiveList::Sprint => app.items_sprint,
        ActiveList::RecentlyUpdated => app.items_recently_updated,
        ActiveList::Backlog => app.items_backlog,
    }
}

/// `app` with its list `l` replaced by `list`.
pub open spec fn with_list(app: App, l: ActiveList, list: IssueList) -> App {
    match l {
        ActiveList::Sprint => App { items_sprint: list, ..app },
        ActiveList::RecentlyUpdated => App { items_recently_updated: list, ..app },
        ActiveList::Backlog => App { items_backlog: list, ..app },
    }
}

/// The active list of `app`.
pub open spec fn active_of(app: App) -> IssueList {
    list_of(app, app.navigator.active)
}

impl App {
    /// The application at start: three empty lists (the sprint list with its four tabs,
    /// by priority; the backlog by key, descending; the recently updated list in summary
    /// mode, by update), the sprint list active, nothing focused, searched or loading.
    pub fn new() -> (r: Self)
        ensures
            r.items_sprint.title@ == "Sprint Issues"@,
            r.items_sprint.sort_mode == SortMode::PriorityDesc,
            !r.items_sprint.summary_mode && r.items_sprint.tabs_enabled,
            r.items_sprint.tab_bar.tabs@.len() == 4 && r.items_sprint.tab_bar.selected_index == 0,
            tab_is(r.items_sprint.tab_bar.tabs@[0], "My Issues"@, "assignee = currentUser()"@,
                "Issues assigned to you in this sprint"@),
            tab_is(r.items_sprint.tab_bar.tabs@[1], "In Progress"@, "status=\"In Progress\""@,
                "Sprint issues currently being worked on"@),
            tab_is(r.items_sprint.tab_bar.tabs@[2], "Unassigned"@, "assignee is EMPTY"@,
                "Sprint issues currently being worked on"@),
            tab_is(r.items_sprint.tab_bar.tabs@[3], "All"@, ""@,
                "Sprint issues currently being worked on"@),
            r.items_backlog.title@ == "Backlog"@,
            r.items_backlog.sort_mode == SortMode::KeyDesc,
            !r.items_backlog.summary_mode && !r.items_backlog.tabs_enabled,
            r.items_recently_updated.title@ == "Recently updated"@,
            r.items_recently_updated.sort_mode == SortMode::UpdatedDesc,
            r.items_recently_updated.summary_mode && !r.items_recently_updated.tabs_enabled,
            forall|l: ActiveList| #![auto] list_of(r, l).result.items@.len() == 0 && list_of(r, l).result.page == 1
                && !list_of(r, l).result.has_more && !list_of(r, l).is_loading
                && !list_of(r, l).focused && list_of(r, l).navigator.selected is None,
            r.navigator.active == ActiveList::Sprint,
            r.detail_view.issue is None && !r.detail_view.focused && !r.detail_view.edit_mode,
            r.detail_view.selected_field == DetailField::Key && r.detail_view.scroll_offset == 0,
            !r.show_help && r.help_state.selected_index == 0 && r.help_state.scroll_offset == 0,
            !r.search_mode && r.search_query@.len() == 0,
            !r.loading && !r.should_quit && r.pending_detail_key is None,
    {
        let mut tabs: Vec<JqlTab> = Vec::new();
        tabs.push(JqlTab::new("My Issues", "assignee = currentUser()").with_description(
            "Issues assigned to you in this sprint",
        ));
        tabs.push(JqlTab::new("In Progress", "status=\"In Progress\"").with_description(
            "Sprint issues currently being worked on",
        ));
        tabs.push(JqlTab::new("Unassigned", "assignee is EMPTY").with_description(
            "Sprint issues currently being worked on",
        ));
        tabs.push(JqlTab::new("All", "").with_description("Sprint issues currently being worked on"));
        App {
            detail_view: IssueDetail::new(),
            items_sprint: IssueList::new("Sprint Issues".to_string(), false, SortMode::PriorityDesc).with_tabs(tabs),
            items_backlog: IssueList::new("Backlog".to_string(), false, SortMode::KeyDesc),
            items_recently_updated: IssueList::new("Recently updated".to_string(), true, SortMode::UpdatedDesc),
            navigator: Navigator::new(),
            search_mode: false,
            search_query: String::new(),
            loading: false,
            should_quit: false,
            pending_detail_key: None,
            show_help: false,
            help_state: HelpState::default(),
        }
    }

    /// The list `l`.
    pub fn list(&self, l: ActiveList) -> (r: &IssueList)
        ensures
            *r == list_of(*self, l),
    {
        match l {
            ActiveList::Sprint => &self.items_sprint,
            ActiveList::RecentlyUpdated => &self.items_recently_updated,
            ActiveList::Backlog => &self.items_backlog,
        }
    }

    /// The list `l`, to change.
    pub fn list_mut(&mut self, l: ActiveList) -> (r: &mut IssueList)
        ensures
            *r == list_of(*old(self), l),
            *final(self) == with_list(*old(self), l, *final(r)),
    {
        match l {
            ActiveList::Sprint => &mut self.items_sprint,
            ActiveList::RecentlyUpdated => &mut self.items_recently_updated,
            ActiveList::Backlog => &mut self.items_backlog,
        }
    }

    /// Whether list `l` is drawn focused: it is the active list and the detail pane does
    /// not have the focus.
    pub fn is_list_focused(&self, l: ActiveList) -> (r: bool)
        ensures
            r == (self.navigator.active == l && !self.detail_view.focused),
    {
        self.navigator.active == l && !self.detail_view.focused
    }

    /// The active list.
    pub fn active_list(&self) -> (r: &IssueList)
        ensures
            *r == active_of(*self),
    {
        self.list(self.navigator.active)
    }

    /// The active list, to change.
    pub fn active_list_mut(&mut self) -> (r: &mut IssueList)
        ensures
            *r == active_of(*old(self)),
            *final(self) == with_list(*old(self), old(self).navigator.active, *final(r)),
    {
        let l = self.navigator.active;
        self.list_mut(l)
    }
}

} // verus!
