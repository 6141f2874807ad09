//! How the application reacts: to a key, to a fetched page or issue, and to an action
//! of the event loop. Each reaction changes the state and names the fetch, if any, that
//! the event loop is to start; the fetch itself happens outside this library.
use vstd::prelude::*;
use crate::app::actions::AppAction;
use crate::app::keybinds::{DetailAction, GlobalAction, detail_action_of, find_detail, find_global, global_action_of};
use crate::app::messages::AppMessage;
use crate::app::navigator::{ActiveList, Navigator, left_of, right_of};
use crate::app::state::{App, active_of, list_of, with_list};
use crate::events::{AppEvent, KeyCode};
use crate::services::error::{ApiResult, api_error_text};
use crate::services::sort::{SortMode, next_mode};
use crate::services::types::{JiraIssue, Paginated};
use crate::text::{push_char, str_chars, string_from_range};
use crate::ui::components::issue_detail::{IssueDetail, next_field, prev_field};
use crate::ui::components::issue_list::{
    IssueList, ListAction, ListNavigator, TabAction, down_step, left_index, right_index, up_step,
};

verus! {

/// A fetch of a page of a list: which list, in which order, under which filter, which
/// page, and whether the page is to be appended.
#[derive(Debug, Clone)]
pub struct FetchRequest {
    pub list: ActiveList,
    pub sort: SortMode,
    pub filter: Option<String>,
    pub page: usize,
    pub append: bool,
}

/// A fetch of the full issue behind a list row.
#[derive(Debug, Clone)]
pub struct DetailRequest {
    pub list: ActiveList,
    pub key: String,
}

/// The message that the outcome of a list fetch becomes: a page fetched for appending is
/// loaded, any other page replaces the list's items as a fetch in a new order, and an
/// error is reported with its text for the list.
pub fn fetch_outcome_message(request: &FetchRequest, outcome: ApiResult<Paginated<JiraIssue>>) -> (r: AppMessage)
    ensures
        match outcome {
            Ok(page) => if request.append {
                r == (AppMessage::ItemsLoaded { list: request.list, result: page, append: true })
            } else {
                r == (AppMessage::ItemsSorted { list: request.list, result: page })
            },
            Err(e) => r matches AppMessage::Error { list, message } && list == request.list
                && message@ == api_error_text(e),
        },
{
    match outcome {
        Ok(page) => if request.append {
            AppMessage::ItemsLoaded { list: request.list, result: page, append: true }
        } else {
            AppMessage::ItemsSorted { list: request.list, result: page }
        },
        Err(e) => AppMessage::Error { list: request.list, message: e.to_string() },
    }
}

/// The message that the outcome of a detail fetch becomes: the issue for the detail
/// pane, or the error's text reported for the list the row belongs to.
pub fn detail_outcome_message(request: &DetailRequest, outcome: ApiResult<JiraIssue>) -> (r: AppMessage)
    ensures
        match outcome {
            Ok(item) => r == (AppMessage::ItemDetailLoaded { item }),
            Err(e) => r matches AppMessage::Error { list, message } && list == request.list
                && message@ == api_error_text(e),
        },
{
    match outcome {
        Ok(item) => AppMessage::ItemDetailLoaded { item },
        Err(e) => AppMessage::Error { list: request.list, message: e.to_string() },
    }
}

/// A fetch that the event loop is to start.
#[derive(Debug, Clone)]
pub enum Effect {
    FetchIssues(FetchRequest),
    FetchDetail(DetailRequest),
}

/// Whether `eff` is the fetch of the issue selected in the active list of `app`: there
/// is one exactly when a row of that list is selected.
pub open spec fn detail_effect(app: App, eff: Option<Effect>) -> bool {
    let list = active_of(app);
    match list.navigator.selected {
        Some(i) => if i < list.result.items@.len() {
            eff matches Some(Effect::FetchDetail(d)) && d.list == app.navigator.active
                && d.key@ == list.result.items@[i as int].key@
        } else {
            eff is None
        },
        None => eff is None,
    }
}

/// Whether `q` fetches `list`, list `l` of the application, in its order and under its
/// tab's filter: the next page to append, or the first page anew.
pub open spec fn fetch_request_for(q: FetchRequest, list: IssueList, l: ActiveList, append: bool) -> bool {
    &&& q.list == l
    &&& q.sort == list.sort_mode
    &&& q.page == (if append { list.result.page } else { 0 })
    &&& q.append == append
    &&& match q.filter {
        Some(f) => list.jql_filter() == Some(f@),
        None => list.jql_filter() is None,
    }
}

/// Whether fetching list `l` took `before` to `after` with the effect `eff`: a list that
/// is loading starts no second fetch; another is marked loading and fetched.
pub open spec fn fetch_effect(before: App, after: App, l: ActiveList, append: bool, eff: Option<Effect>) -> bool {
    let list = list_of(before, l);
    if list.is_loading {
        after == before && eff is None
    } else {
        &&& after == with_list(before, l, IssueList { is_loading: true, ..list })
        &&& eff matches Some(Effect::FetchIssues(q)) && fetch_request_for(q, list, l, append)
    }
}

/// The search text after key `k` in search mode: a character is added, backspace takes
/// the last one off, any other key changes nothing.
pub open spec fn typed(q: Seq<char>, k: KeyCode) -> Seq<char> {
    match k {
        KeyCode::Char(c) => q.push(c),
        KeyCode::Backspace => if q.len() > 0 {
            q.drop_last()
        } else {
            q
        },
        _ => q,
    }
}

/// The detail pane after a detail action: up and down move between fields, edit starts
/// editing, escape stops editing or, when not editing, gives the focus back.
pub open spec fn detail_step(d: IssueDetail, a: DetailAction) -> IssueDetail {
    match a {
        DetailAction::Up => IssueDetail { selected_field: prev_field(d.selected_field), ..d },
        DetailAction::Down => IssueDetail { selected_field: next_field(d.selected_field), ..d },
        DetailAction::Edit => IssueDetail { edit_mode: true, ..d },
        DetailAction::Esc => if d.edit_mode {
            IssueDetail { edit_mode: false, ..d }
        } else {
            IssueDetail { focused: false, ..d }
        },
    }
}

/// A move between the tabs of the active list, and what follows: a changed tab fetches
/// the list anew.
pub open spec fn tab_step(old: App, new: App, right: bool, eff: Option<Effect>) -> bool {
    let al = old.navigator.active;
    let list = active_of(old);
    let n = list.tab_bar.tabs@.len() as usize;
    let i = list.tab_bar.selected_index;
    let j = if right { right_index(i, n) } else { left_index(i, n) };
    if list.tabs_enabled {
        let mid = with_list(old, al, list.with_tab_index(j));
        if j != i {
            fetch_effect(mid, new, al, false, eff)
        } else {
            new == mid && eff is None
        }
    } else {
        new == old && eff is None
    }
}

/// What a global action does where no other mode took the key.
pub open spec fn global_step(old: App, new: App, a: GlobalAction, act: Option<AppAction>, eff: Option<Effect>) -> bool {
    let focused = old.detail_view.focused;
    let al = old.navigator.active;
    let list = active_of(old);
    let count = list.result.items@.len() as usize;
    match a {
        GlobalAction::Quit => new == old && act == Some(AppAction::Quit) && eff is None,
        GlobalAction::Search => act is None && eff is None && new.search_query@.len() == 0
            && new == (App { search_mode: true, search_query: new.search_query, ..old }),
        GlobalAction::Help => act is None && eff is None && new == (App { show_help: !old.show_help, ..old }),
        GlobalAction::Enter => act is None && eff is None
            && new == (App { detail_view: IssueDetail { focused: true, ..old.detail_view }, ..old }),
        GlobalAction::Esc => act is None && eff is None && new == (if !focused {
            App { search_mode: false, ..old }
        } else {
            old
        }),
        GlobalAction::TabNext => act is None && tab_step(old, new, true, eff),
        GlobalAction::TabPrev => act is None && tab_step(old, new, false, eff),
        GlobalAction::Up => act is None && if focused {
            new == old && eff is None
        } else {
            let st = up_step(list.navigator.selected, count);
            let mid = with_list(old, al, list.with_selection(st.0));
            new == mid && if st.1 == ListAction::SelectionChanged {
                detail_effect(mid, eff)
            } else {
                eff is None
            }
        },
        GlobalAction::Down => act is None && if focused {
            new == old && eff is None
        } else {
            let st = down_step(list.navigator.selected, count, list.result.has_more, list.is_loading);
            let mid = with_list(old, al, list.with_selection(st.0));
            if st.1 == ListAction::RequestMore {
                fetch_effect(mid, new, al, true, eff)
            } else if st.1 == ListAction::SelectionChanged {
                new == mid && detail_effect(mid, eff)
            } else {
                new == mid && eff is None
            }
        },
        GlobalAction::Left => act is None && if focused {
            new == old && eff is None
        } else {
            let mid = App { navigator: Navigator { active: left_of(al) }, ..old };
            new == mid && detail_effect(mid, eff)
        },
        GlobalAction::Right => act is None && if focused {
            new == old && eff is None
        } else {
            let mid = App { navigator: Navigator { active: right_of(al) }, ..old };
            new == mid && detail_effect(mid, eff)
        },
        GlobalAction::CycleSort => act is None && if focused {
            new == old && eff is None
        } else {
            let mid = with_list(old, al, IssueList { sort_mode: next_mode(list.sort_mode), ..list });
            fetch_effect(mid, new, al, false, eff)
        },
    }
}

/// What an event does: in search mode Esc leaves search mode and any other key edits
/// the search text; in the focused detail pane its keys act on the pane; otherwise the
/// global bindings apply; a tick does nothing.
pub open spec fn handled(old: App, new: App, ev: AppEvent, act: Option<AppAction>, eff: Option<Effect>) -> bool {
    match ev {
        AppEvent::Tick => new == old && act is None && eff is None,
        AppEvent::Key(k) => if old.search_mode && k == KeyCode::Esc {
            &&& act is None
            &&& eff is None
            &&& new == (App { search_mode: false, ..old })
        } else if old.search_mode {
            &&& act is None
            &&& eff is None
            &&& new.search_query@ == typed(old.search_query@, k)
            &&& new == (App { search_query: new.search_query, ..old })
        } else if old.detail_view.focused && detail_action_of(k) is Some {
            &&& act is None
            &&& eff is None
            &&& new == (App { detail_view: detail_step(old.detail_view, detail_action_of(k)->0), ..old })
        } else {
            match global_action_of(k) {
                Some(a) => global_step(old, new, a, act, eff),
                None => new == old && act is None && eff is None,
            }
        },
    }
}

/// `q` without its last character, where it has one.
fn pop_last(q: &String) -> (r: String)
    ensures
        r@ == (if q@.len() > 0 { q@.drop_last() } else { q@ }),
{
    let v = str_chars(q.as_str());
    if v.len() > 0 {
        string_from_range(v.as_slice(), 0, v.len() - 1)
    } else {
        string_from_range(v.as_slice(), 0, 0)
    }
}

/// The order a list is fetched in when none is asked for.
pub open spec fn default_sort_of(l: ActiveList) -> SortMode {
    match l {
        ActiveList::Sprint => SortMode::PriorityDesc,
        ActiveList::RecentlyUpdated => SortMode::UpdatedDesc,
        ActiveList::Backlog => SortMode::KeyDesc,
    }
}

/// The order to fetch list `l` in: the one asked for, else the list's default.
pub fn fetch_sort(l: ActiveList, sort: Option<SortMode>) -> (r: SortMode)
    ensures
        r == (match sort {
            Some(s) => s,
            None => default_sort_of(l),
        }),
{
    match sort {
        Some(s) => s,
        None => match l {
            ActiveList::Sprint => SortMode::PriorityDesc,
            ActiveList::RecentlyUpdated => SortMode::UpdatedDesc,
            ActiveList::Backlog => SortMode::KeyDesc,
        },
    }
}

/// The name of a list as its `Debug` writes it.
pub open spec fn list_name(l: ActiveList) -> Seq<char> {
    match l {
        ActiveList::Sprint => "Sprint"@,
        ActiveList::RecentlyUpdated => "RecentlyUpdated"@,
        ActiveList::Backlog => "Backlog"@,
    }
}

/// Whether `new` is `old` after a page `result` arrived for it: no longer loading; an
/// empty page ends the list; another page is appended or replaces the items, counts as
/// one more page, and selects the first row where none was.
pub open spec fn loaded_list(old: IssueList, new: IssueList, result: Paginated<JiraIssue>, append: bool) -> bool {
    &&& !new.is_loading
    &&& new.title == old.title && new.focused == old.focused && new.sort_mode == old.sort_mode
    &&& new.summary_mode == old.summary_mode && new.tabs_enabled == old.tabs_enabled
    &&& new.spinner == old.spinner && new.tab_bar == old.tab_bar
    &&& if result.items@.len() == 0 {
        &&& new.result.items == old.result.items
        &&& !new.result.has_more
        &&& new.result.page == old.result.page
        &&& new.result.start_at == old.result.start_at && new.result.max_results == old.result.max_results
        &&& new.navigator == old.navigator
    } else {
        &&& if append {
            &&& new.result.items@ == old.result.items@ + result.items@
            &&& new.result.has_more == old.result.has_more
            &&& new.result.page == old.result.page + 1
            &&& new.result.start_at == old.result.start_at && new.result.max_results == old.result.max_results
        } else {
            &&& new.result.items == result.items
            &&& new.result.has_more
            &&& new.result.page == result.page + 1
            &&& new.result.start_at == result.start_at && new.result.max_results == result.max_results
        }
        &&& new.navigator == (if old.navigator.selected is None {
            ListNavigator { selected: Some(0), offset: old.navigator.offset }
        } else {
            old.navigator
        })
    }
}

/// What taking in a message does: a page for a list is merged into it as `loaded_list`
/// says, a sorted page replaces its items from the first page on, an error only ends its
/// loading (and gives the line to report), and a full issue is shown in the detail pane.
pub open spec fn message_taken(old: App, new: App, msg: AppMessage, r: Option<String>) -> bool {
    match msg {
        AppMessage::ItemsLoaded { list, result, append } => {
            &&& loaded_list(list_of(old, list), list_of(new, list), result, append)
            &&& new == with_list(old, list, list_of(new, list))
            &&& r is None
        },
        AppMessage::ItemsSorted { list, result } => {
            &&& new == with_list(old, list, IssueList {
                result: Paginated { page: 1, has_more: true, ..result },
                is_loading: false,
                ..list_of(old, list)
            })
            &&& r is None
        },
        AppMessage::Error { list, message } => {
            &&& new == with_list(old, list, IssueList {
                is_loading: false,
                ..list_of(old, list)
            })
            &&& r matches Some(t) && t@ == "Error for "@ + list_name(list) + ": "@ + message@
        },
        AppMessage::ItemDetailLoaded { item } => {
            &&& new == (App {
                detail_view: IssueDetail {
                    issue: Some(item),
                    scroll_offset: 0,
                    selected_field: crate::ui::components::issue_detail::DetailField::Key,
                    edit_mode: false,
                    ..old.detail_view
                },
                ..old
            })
            &&& r is None
        },
    }
}

/// Whether a message can be taken in without a page number overflowing.
pub open spec fn message_fits(app: App, msg: AppMessage) -> bool {
    match msg {
        AppMessage::ItemsLoaded { list, result, append } => result.items@.len() > 0 ==> (if append {
            list_of(app, list).result.page
        } else {
            result.page
        }) < usize::MAX,
        _ => true,
    }
}

impl App {
    /// Edits the search text with key `k`.
    fn type_key(&mut self, k: KeyCode)
        ensures
            final(self).search_query@ == typed(old(self).search_query@, k),
            *final(self) == (App { search_query: final(self).search_query, ..*old(self) }),
    {
        match k {
            KeyCode::Char(c) => push_char(&mut self.search_query, c),
            KeyCode::Backspace => {
                let q = pop_last(&self.search_query);
                self.search_query = q;
            },
            _ => {},
        }
    }

    /// Carries out a detail action on the pane.
    fn apply_detail_action(&mut self, a: DetailAction)
        ensures
            *final(self) == (App { detail_view: detail_step(old(self).detail_view, a), ..*old(self) }),
    {
        match a {
            DetailAction::Up => self.detail_view.move_up(),
            DetailAction::Down => self.detail_view.move_down(),
            DetailAction::Edit => {
                if !self.detail_view.edit_mode {
                    self.detail_view.enter_edit_mode();
                }
            },
            DetailAction::Esc => {
                if self.detail_view.edit_mode {
                    self.detail_view.exit_edit_mode();
                } else {
                    self.detail_view.focused = false;
                }
            },
        }
    }

    /// The fetch of the issue selected in the active list, if a row is selected.
    pub fn fetch_detail_issue(&self) -> (r: Option<Effect>)
        ensures
            detail_effect(*self, r),
    {
        let active = self.navigator.active;
        let list = self.active_list();
        match list.state_selected() {
            Some(index) => {
                if index < list.result.items.len() {
                    let key = list.result.items[index].key.clone();
                    Some(Effect::FetchDetail(DetailRequest { list: active, key }))
                } else {
                    None
                }
            },
            None => None,
        }
    }

    /// Starts a fetch of list `list`, unless it is already loading: the next page to
    /// append, or the first page anew.
    pub fn fetch_issues_async(&mut self, list: ActiveList, append: bool) -> (r: Option<Effect>)
        ensures
            fetch_effect(*old(self), *final(self), list, append, r),
    {
        let target = self.list_mut(list);
        if target.is_loading {
            return None;
        }
        target.is_loading = true;
        let page = if append { target.result.page } else { 0 };
        let sort = target.sort_mode;
        let filter = target.current_jql();
        Some(Effect::FetchIssues(FetchRequest { list, sort, filter, page, append }))
    }

    /// Fetches the next page of the active list.
    fn fetch_more_for_active_list(&mut self) -> (r: Option<Effect>)
        ensures
            fetch_effect(*old(self), *final(self), old(self).navigator.active, true, r),
    {
        let active = self.navigator.active;
        self.fetch_issues_async(active, true)
    }

    /// Fetches the active list anew in its new order.
    fn sort_for_active_list(&mut self) -> (r: Option<Effect>)
        ensures
            fetch_effect(*old(self), *final(self), old(self).navigator.active, false, r),
    {
        let active = self.navigator.active;
        self.fetch_issues_async(active, false)
    }

    /// Fetches the active list anew under its new tab.
    fn fetch_tab_issues_for_active_list(&mut self) -> (r: Option<Effect>)
        ensures
            fetch_effect(*old(self), *final(self), old(self).navigator.active, false, r),
    {
        let active = self.navigator.active;
        self.fetch_issues_async(active, false)
    }

    /// Moves between the tabs of the active list.
    fn move_tab(&mut self, right: bool) -> (r: Option<Effect>)
        ensures
            tab_step(*old(self), *final(self), right, r),
    {
        let changed = {
            let list = self.active_list_mut();
            if right {
                list.move_tab_right()
            } else {
                list.move_tab_left()
            }
        };
        match changed {
            TabAction::TabChanged => self.fetch_tab_issues_for_active_list(),
            TabAction::NoAction => None,
        }
    }

    /// Moves the selection of the active list up, unless the detail pane has the focus.
    fn move_selection_up(&mut self) -> (r: Option<Effect>)
        ensures
            global_step(*old(self), *final(self), GlobalAction::Up, None, r),
    {
        if self.detail_view.focused {
            return None;
        }
        let step = self.active_list_mut().move_up();
        match step {
            ListAction::SelectionChanged => self.fetch_detail_issue(),
            _ => None,
        }
    }

    /// Moves the selection of the active list down, unless the detail pane has the focus.
    fn move_selection_down(&mut self) -> (r: Option<Effect>)
        ensures
            global_step(*old(self), *final(self), GlobalAction::Down, None, r),
    {
        if self.detail_view.focused {
            return None;
        }
        let step = self.active_list_mut().move_down();
        match step {
            ListAction::RequestMore => self.fetch_more_for_active_list(),
            ListAction::SelectionChanged => self.fetch_detail_issue(),
            _ => None,
        }
    }

    /// Activates the list to the right or left, unless the detail pane has the focus.
    fn move_list(&mut self, right: bool) -> (r: Option<Effect>)
        ensures
            global_step(*old(self), *final(self), if right { GlobalAction::Right } else { GlobalAction::Left }, None, r),
    {
        if self.detail_view.focused {
            return None;
        }
        if right {
            self.navigator.move_right();
        } else {
            self.navigator.move_left();
        }
        self.fetch_detail_issue()
    }

    /// Sorts the active list by its next order, unless the detail pane has the focus.
    fn cycle_active_sort(&mut self) -> (r: Option<Effect>)
        ensures
            global_step(*old(self), *final(self), GlobalAction::CycleSort, None, r),
    {
        if self.detail_view.focused {
            return None;
        }
        let step = self.active_list_mut().cycle_sort();
        match step {
            ListAction::Sort => self.sort_for_active_list(),
            _ => None,
        }
    }

    /// Carries out a global action.
    fn apply_global_action(&mut self, a: GlobalAction) -> (r: (Option<AppAction>, Option<Effect>))
        ensures
            global_step(*old(self), *final(self), a, r.0, r.1),
    {
        match a {
            GlobalAction::Quit => (Some(AppAction::Quit), None),
            GlobalAction::Search => {
                self.search_mode = true;
                self.search_query = String::new();
                (None, None)
            },
            GlobalAction::Help => {
                self.show_help = !self.show_help;
                (None, None)
            },
            GlobalAction::Enter => {
                self.detail_view.focused = true;
                (None, None)
            },
            GlobalAction::Esc => {
                if !self.detail_view.focused {
                    self.search_mode = false;
                }
                (None, None)
            },
            GlobalAction::TabNext => (None, self.move_tab(true)),
            GlobalAction::TabPrev => (None, self.move_tab(false)),
            GlobalAction::Up => (None, self.move_selection_up()),
            GlobalAction::Down => (None, self.move_selection_down()),
            GlobalAction::Left => (None, self.move_list(false)),
            GlobalAction::Right => (None, self.move_list(true)),
            GlobalAction::CycleSort => (None, self.cycle_active_sort()),
        }
    }

    /// Takes in what a fetch sent back. Returns the line to report for a failed fetch.
    pub fn update_from_message(&mut self, msg: AppMessage) -> (r: Option<String>)
        requires
            message_fits(*old(self), msg),
        ensures
            message_taken(*old(self), *final(self), msg, r),
    {
        match msg {
            AppMessage::ItemsLoaded { list, result, append } => {
                let target = self.list_mut(list);
                target.is_loading = false;
                if result.items.len() == 0 {
                    target.result.has_more = false;
                } else {
                    if append {
                        let mut page = result;
                        target.result.items.append(&mut page.items);
                    } else {
                        target.result = result;
                        target.result.has_more = true;
                    }
                    target.result.page = target.result.page + 1;
                    if !target.has_selection() {
                        target.ensure_selection();
                    }
                }
                None
            },
            AppMessage::ItemsSorted { list, result } => {
                let target = self.list_mut(list);
                target.result = result;
                target.is_loading = false;
                target.result.page = 1;
                target.result.has_more = true;
                None
            },
            AppMessage::Error { list, message } => {
                let target = self.list_mut(list);
                target.is_loading = false;
                let mut line = String::new();
                line.append("Error for ");
                line.append(match list {
                    ActiveList::Sprint => "Sprint",
                    ActiveList::RecentlyUpdated => "RecentlyUpdated",
                    ActiveList::Backlog => "Backlog",
                });
                line.append(": ");
                line.append(message.as_str());
                Some(line)
            },
            AppMessage::ItemDetailLoaded { item } => {
                self.detail_view.set_issue(Some(item));
                None
            },
        }
    }

    /// Takes in the first page of list `list` at start-up, selects its first row where
    /// none is, and returns the fetch of the selected issue of the active list.
    pub fn apply_initial_result(&mut self, list: ActiveList, result: Paginated<JiraIssue>) -> (r: Option<Effect>)
        requires
            result.page < usize::MAX,
        ensures
            ({
                let old_list = list_of(*old(self), list);
                let l = list_of(*final(self), list);
                &&& l.result.items == result.items
                &&& l.result.page == result.page + 1
                &&& l.result.has_more
                &&& l.result.start_at == result.start_at && l.result.max_results == result.max_results
                &&& !l.is_loading
                &&& l.navigator == (if old_list.navigator.selected is None && result.items@.len() > 0 {
                    ListNavigator { selected: Some(0), offset: old_list.navigator.offset }
                } else {
                    old_list.navigator
                })
                &&& l.title == old_list.title && l.focused == old_list.focused
                &&& l.sort_mode == old_list.sort_mode && l.summary_mode == old_list.summary_mode
                &&& l.tabs_enabled == old_list.tabs_enabled && l.spinner == old_list.spinner
                &&& l.tab_bar == old_list.tab_bar
                &&& *final(self) == with_list(*old(self), list, l)
            }),
            detail_effect(*final(self), r),
    {
        {
            let issue_list = self.list_mut(list);
            issue_list.is_loading = false;
            issue_list.result = result;
            issue_list.result.page = issue_list.result.page + 1;
            issue_list.result.has_more = true;
            if issue_list.result.items.len() > 0 && !issue_list.has_selection() {
                issue_list.ensure_selection();
            }
        }
        self.fetch_detail_issue()
    }

    /// Carries out an action of the event loop: quitting, or loading the next page of
    /// the active list unless a load is under way.
    pub fn apply_action(&mut self, action: AppAction) -> (r: Option<Effect>)
        ensures
            action == AppAction::Quit ==> *final(self) == (App { should_quit: true, ..*old(self) }) && r is None,
            action == AppAction::LoadItems && old(self).loading ==> *final(self) == *old(self) && r is None,
            action == AppAction::LoadItems && !old(self).loading ==> {
                &&& *final(self) == (App { loading: true, ..*old(self) })
                &&& r matches Some(Effect::FetchIssues(q)) && fetch_request_for(q, active_of(*old(self)),
                    old(self).navigator.active, true)
            },
    {
        match action {
            AppAction::Quit => {
                self.should_quit = true;
                None
            },
            AppAction::LoadItems => {
                if self.loading {
                    return None;
                }
                self.loading = true;
                let active = self.navigator.active;
                let list = self.active_list();
                let filter = list.current_jql();
                let sort = list.sort_mode;
                let page = list.result.page;
                Some(Effect::FetchIssues(FetchRequest { list: active, sort, filter, page, append: true }))
            },
        }
    }

    /// The filter of each list's first fetch at start-up, in the order sprint, recently
    /// updated, backlog.
    pub fn initial_filters(&self) -> (r: Vec<(ActiveList, Option<String>)>)
        ensures
            r@.len() == 3,
            r@[0].0 == ActiveList::Sprint && r@[1].0 == ActiveList::RecentlyUpdated && r@[2].0 == ActiveList::Backlog,
            forall|i: int| 0 <= i < 3 ==> match (#[trigger] r@[i]).1 {
                Some(f) => list_of(*self, r@[i].0).jql_filter() == Some(f@),
                None => list_of(*self, r@[i].0).jql_filter() is None,
            },
    {
        let mut v: Vec<(ActiveList, Option<String>)> = Vec::new();
        v.push((ActiveList::Sprint, self.items_sprint.current_jql()));
        v.push((ActiveList::RecentlyUpdated, self.items_recently_updated.current_jql()));
        v.push((ActiveList::Backlog, self.items_backlog.current_jql()));
        v
    }

    /// Reacts to an event. Returns the action for the event loop, if any, and the fetch
    /// it is to start, if any.
    pub fn handle_event(&mut self, event: AppEvent) -> (r: (Option<AppAction>, Option<Effect>))
        ensures
            handled(*old(self), *final(self), event, r.0, r.1),
    {
        match event {
            AppEvent::Key(code) => {
                if self.search_mode {
                    match code {
                        KeyCode::Esc => {
                            self.search_mode = false;
                        },
                        other => {
                            self.type_key(other);
                        },
                    }
                    return (None, None);
                }
                if self.detail_view.focused {
                    match find_detail(code) {
                        Some(a) => {
                            self.apply_detail_action(a);
                            return (None, None);
                        },
                        None => {},
                    }
                }
                match find_global(code) {
                    Some(a) => self.apply_global_action(a),
                    None => (None, None),
                }
            },
            AppEvent::Tick => (None, None),
        }
    }
}

} // verus!

verus! {

/// Whether every list's selection, where it has one, names one of its rows.
pub open spec fn selections_in_lists(app: App) -> bool {
    forall|l: ActiveList| #[trigger] list_of(app, l).navigator.selected matches Some(s) ==> s < list_of(
        app,
        l,
    ).result.items@.len()
}

/// Replacing one list by a list with the same items and a selection among them keeps
/// every selection among its list's items.
proof fn lemma_replace_list(app: App, l: ActiveList, list: IssueList)
    requires
        selections_in_lists(app),
        list.result.items == list_of(app, l).result.items,
        list.navigator.selected matches Some(s) ==> s < list.result.items@.len(),
    ensures
        selections_in_lists(with_list(app, l, list)),
        forall|m: ActiveList| #[trigger] list_of(with_list(app, l, list), m).result.items == list_of(app, m).result.items,
{
    assert forall|m: ActiveList| #[trigger] list_of(with_list(app, l, list), m).navigator.selected matches Some(s)
        ==> s < list_of(with_list(app, l, list), m).result.items@.len() by {
        if m != l {
            assert(list_of(with_list(app, l, list), m) == list_of(app, m));
        }
    }
}

/// A fetch changes no list's items or selection.
proof fn lemma_fetch_keeps(before: App, after: App, l: ActiveList, append: bool, eff: Option<Effect>)
    requires
        fetch_effect(before, after, l, append, eff),
        selections_in_lists(before),
    ensures
        selections_in_lists(after),
        forall|m: ActiveList| #[trigger] list_of(after, m).result.items == list_of(before, m).result.items,
{
    let list = list_of(before, l);
    if !list.is_loading {
        lemma_replace_list(before, l, IssueList { is_loading: true, ..list });
    }
}

/// A move within the active list keeps its selection among its items.
proof fn lemma_move_keeps(old: App, sel: Option<usize>)
    requires
        selections_in_lists(old),
        sel matches Some(s) ==> s < active_of(old).result.items@.len(),
    ensures
        selections_in_lists(with_list(old, old.navigator.active, active_of(old).with_selection(sel))),
        forall|m: ActiveList| #[trigger] list_of(with_list(old, old.navigator.active, active_of(old).with_selection(sel)), m).result.items
            == list_of(old, m).result.items,
{
    lemma_replace_list(old, old.navigator.active, active_of(old).with_selection(sel));
}

/// A move between tabs keeps every selection among its list's items.
proof fn lemma_tab_keeps(old: App, new: App, right: bool, eff: Option<Effect>)
    requires
        tab_step(old, new, right, eff),
        selections_in_lists(old),
    ensures
        selections_in_lists(new),
        forall|m: ActiveList| #[trigger] list_of(new, m).result.items == list_of(old, m).result.items,
{
    let al = old.navigator.active;
    let list = active_of(old);
    let nt = list.tab_bar.tabs@.len() as usize;
    let i = list.tab_bar.selected_index;
    let j = if right { right_index(i, nt) } else { left_index(i, nt) };
    if list.tabs_enabled {
        lemma_replace_list(old, al, list.with_tab_index(j));
        let mid = with_list(old, al, list.with_tab_index(j));
        if j != i {
            lemma_fetch_keeps(mid, new, al, false, eff);
        }
    }
}

/// A move up or down keeps every selection among its list's items.
proof fn lemma_vertical_keeps(old: App, new: App, a: GlobalAction, eff: Option<Effect>)
    requires
        a == GlobalAction::Up || a == GlobalAction::Down,
        global_step(old, new, a, None, eff),
        selections_in_lists(old),
    ensures
        selections_in_lists(new),
        forall|m: ActiveList| #[trigger] list_of(new, m).result.items == list_of(old, m).result.items,
{
    let al = old.navigator.active;
    let list = active_of(old);
    let n = list.result.items.len();
    assert(list.navigator.selected matches Some(s) ==> s < list.result.items@.len());
    crate::ui::components::issue_list::navigation::lemma_moves_stay_in_list(
        list.navigator.selected,
        n,
        list.result.has_more,
        list.is_loading,
    );
    if !old.detail_view.focused {
        if a == GlobalAction::Up {
            lemma_move_keeps(old, up_step(list.navigator.selected, n).0);
        } else {
            let st = down_step(list.navigator.selected, n, list.result.has_more, list.is_loading);
            lemma_move_keeps(old, st.0);
            let mid = with_list(old, al, list.with_selection(st.0));
            if st.1 == ListAction::RequestMore {
                lemma_fetch_keeps(mid, new, al, true, eff);
            }
        }
    }
}

/// A global action keeps every selection among its list's items.
proof fn lemma_global_keeps(old: App, new: App, a: GlobalAction, act: Option<AppAction>, eff: Option<Effect>)
    requires
        global_step(old, new, a, act, eff),
        selections_in_lists(old),
    ensures
        selections_in_lists(new),
        forall|m: ActiveList| #[trigger] list_of(new, m).result.items == list_of(old, m).result.items,
{
    let al = old.navigator.active;
    let list = active_of(old);
    match a {
        GlobalAction::TabNext => lemma_tab_keeps(old, new, true, eff),
        GlobalAction::TabPrev => lemma_tab_keeps(old, new, false, eff),
        GlobalAction::Up => lemma_vertical_keeps(old, new, a, eff),
        GlobalAction::Down => lemma_vertical_keeps(old, new, a, eff),
        GlobalAction::CycleSort => {
            if !old.detail_view.focused {
                lemma_replace_list(old, al, IssueList { sort_mode: next_mode(list.sort_mode), ..list });
                let mid = with_list(old, al, IssueList { sort_mode: next_mode(list.sort_mode), ..list });
                lemma_fetch_keeps(mid, new, al, false, eff);
            }
        },
        _ => {
            assert forall|m: ActiveList| #[trigger] list_of(new, m) == list_of(old, m) by {}
        },
    }
}

/// Events never change the items of a list, and a selection that named a row of its
/// list still does after any event.
pub proof fn lemma_events_keep_selections(
    old: App,
    new: App,
    ev: AppEvent,
    act: Option<AppAction>,
    eff: Option<Effect>,
)
    requires
        handled(old, new, ev, act, eff),
        selections_in_lists(old),
    ensures
        selections_in_lists(new),
        forall|l: ActiveList| #[trigger] list_of(new, l).result.items == list_of(old, l).result.items,
{
    match ev {
        AppEvent::Tick => {},
        AppEvent::Key(k) => {
            if old.search_mode {
                assert forall|m: ActiveList| #[trigger] list_of(new, m) == list_of(old, m) by {}
            } else if old.detail_view.focused && detail_action_of(k) is Some {
                assert forall|m: ActiveList| #[trigger] list_of(new, m) == list_of(old, m) by {}
            } else {
                match global_action_of(k) {
                    Some(a) => lemma_global_keeps(old, new, a, act, eff),
                    None => {},
                }
            }
        },
    }
}

/// In search mode, typing a character and then backspace leaves the search text as it
/// was.
pub proof fn lemma_type_then_erase(q: Seq<char>, c: char)
    ensures
        typed(typed(q, KeyCode::Char(c)), KeyCode::Backspace) == q,
{
    assert(q.push(c).drop_last() =~= q);
}

} // verus!

verus! {

/// A page appended to a list keeps a selection that named one of its rows naming one,
/// and a list that had none selected gets its first row selected.
pub proof fn lemma_append_keeps_selection(old: IssueList, new: IssueList, result: Paginated<JiraIssue>)
    requires
        loaded_list(old, new, result, true),
        old.navigator.selected matches Some(s) ==> s < old.result.items@.len(),
    ensures
        new.navigator.selected matches Some(s) ==> s < new.result.items@.len(),
        result.items@.len() > 0 ==> new.navigator.selected is Some,
{
}

} // verus!

verus! {

/// The answer to a fetch that a key started ends the list's loading: whether it brings
/// a page, a sorted page or an error, the list is no longer loading once it is taken in.
pub proof fn lemma_answer_ends_loading(
    before: App,
    mid: App,
    l: ActiveList,
    append: bool,
    eff: Option<Effect>,
    msg: AppMessage,
    after: App,
    r: Option<String>,
)
    requires
        fetch_effect(before, mid, l, append, eff),
        eff is Some,
        match msg {
            AppMessage::ItemsLoaded { list, .. } => list == l,
            AppMessage::ItemsSorted { list, .. } => list == l,
            AppMessage::Error { list, .. } => list == l,
            AppMessage::ItemDetailLoaded { .. } => false,
        },
        message_taken(mid, after, msg, r),
    ensures
        list_of(mid, l).is_loading,
        !list_of(after, l).is_loading,
{
}

} // verus!

verus! {

/// Whether `c` is the vim key for the arrow key `arrow`: `k` up, `j` down, `h` left,
/// `l` right.
pub open spec fn vim_arrow(c: char, arrow: KeyCode) -> bool {
    ||| c == 'k' && arrow == KeyCode::Up
    ||| c == 'j' && arrow == KeyCode::Down
    ||| c == 'h' && arrow == KeyCode::Left
    ||| c == 'l' && arrow == KeyCode::Right
}

/// Outside search mode a vim key does exactly what its arrow key does, in the detail
/// pane and in the lists alike: the same new state, action and fetch. Both are bound to
/// the arrow's own move: up, down, left or right.
pub proof fn lemma_vim_keys_are_arrows(
    old: App,
    new: App,
    act: Option<AppAction>,
    eff: Option<Effect>,
    c: char,
    arrow: KeyCode,
)
    requires
        !old.search_mode,
        vim_arrow(c, arrow),
    ensures
        handled(old, new, AppEvent::Key(KeyCode::Char(c)), act, eff) == handled(
            old,
            new,
            AppEvent::Key(arrow),
            act,
            eff,
        ),
        global_action_of(KeyCode::Char(c)) == global_action_of(arrow),
        arrow == KeyCode::Up ==> global_action_of(arrow) == Some(GlobalAction::Up),
        arrow == KeyCode::Down ==> global_action_of(arrow) == Some(GlobalAction::Down),
        arrow == KeyCode::Left ==> global_action_of(arrow) == Some(GlobalAction::Left),
        arrow == KeyCode::Right ==> global_action_of(arrow) == Some(GlobalAction::Right),
{
    reveal_with_fuel(crate::app::keybinds::global_first, 17);
    reveal_with_fuel(crate::app::keybinds::detail_first, 7);
    assert(global_action_of(KeyCode::Char(c)) == global_action_of(arrow));
    assert(detail_action_of(KeyCode::Char(c)) == detail_action_of(arrow));
}

} // verus!
