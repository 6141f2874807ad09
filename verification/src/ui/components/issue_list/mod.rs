//! A list of issues: its page of results, selection, sort order, tabs and spinner.
use vstd::prelude::*;
use crate::services::sort::{SortMode, next_mode, label_text};
use crate::services::types::{JiraIssue, Paginated};
use crate::text::{concat3, u64_to_decimal, decimal_seq};

pub mod icons;
pub mod navigation;
pub mod spinner;
pub mod tabs;

pub use navigation::{ListAction, ListNavigator, up_step, down_step};
pub use tabs::{JqlTab, TabAction, TabBar, left_index, right_index};
pub use spinner::{LoadingSpinner, spinner_frame};
pub use icons::PriorityIcons;

verus! {

/// One list of issues on screen.
#[derive(Debug)]
pub struct IssueList {
    pub title: String,
    pub result: Paginated<JiraIssue>,
    pub focused: bool,
    pub sort_mode: SortMode,
    pub is_loading: bool,
    pub summary_mode: bool,
    pub tabs_enabled: bool,
    pub navigator: ListNavigator,
    pub spinner: LoadingSpinner,
    pub tab_bar: TabBar,
}

impl IssueList {
    /// This list with the selection `s`.
    pub open spec fn with_selection(self, s: Option<usize>) -> IssueList {
        IssueList { navigator: ListNavigator { selected: s, offset: self.navigator.offset }, ..self }
    }

    /// This list with the tab `i` selected.
    pub open spec fn with_tab_index(self, i: usize) -> IssueList {
        IssueList { tab_bar: TabBar { tabs: self.tab_bar.tabs, selected_index: i }, ..self }
    }

    /// The filter of the selected tab, where tabs are on and one is selected.
    pub open spec fn jql_filter(self) -> Option<Seq<char>> {
        if self.tabs_enabled && self.tab_bar.selected_index < self.tab_bar.tabs@.len() {
            Some(self.tab_bar.tabs@[self.tab_bar.selected_index as int].jql@)
        } else {
            None
        }
    }

    /// An empty list with a title, a display mode and a sort order; no tabs, not
    /// focused, not loading, nothing selected.
    pub fn new(title: String, summary_mode: bool, sort_mode: SortMode) -> (r: Self)
        ensures
            r.title == title,
            r.summary_mode == summary_mode,
            r.sort_mode == sort_mode,
            r.result.items@.len() == 0 && !r.result.has_more && r.result.page == 1,
            r.result.start_at == 0 && r.result.max_results == 25,
            !r.focused && !r.is_loading && !r.tabs_enabled,
            r.navigator.selected is None && r.navigator.offset == 0,
            r.spinner.index == 0,
            r.tab_bar.tabs@.len() == 0 && r.tab_bar.selected_index == 0,
    {
        IssueList {
            title,
            result: Paginated::new(),
            focused: false,
            sort_mode,
            is_loading: false,
            summary_mode,
            tabs_enabled: false,
            navigator: ListNavigator::new(),
            spinner: LoadingSpinner::new(),
            tab_bar: TabBar::new(),
        }
    }

    /// This list with the given tabs, the first selected, tabs on.
    pub fn with_tabs(self, tabs: Vec<JqlTab>) -> (r: Self)
        ensures
            r == (IssueList { tab_bar: TabBar { tabs: tabs, selected_index: 0 }, tabs_enabled: true, ..self }),
    {
        let mut s = self;
        s.tab_bar = TabBar::with_tabs(tabs);
        s.tabs_enabled = true;
        s
    }

    /// Turns tabs on, with the default tabs where there are none.
    pub fn enable_tabs(&mut self)
        ensures
            *final(self) == (IssueList { tabs_enabled: true, tab_bar: final(self).tab_bar, ..*old(self) }),
            old(self).tab_bar.tabs@.len() > 0 ==> final(self).tab_bar == old(self).tab_bar,
            old(self).tab_bar.tabs@.len() == 0 ==> tabs::is_default_tabs(final(self).tab_bar.tabs@)
                && final(self).tab_bar.selected_index == 0,
    {
        self.tabs_enabled = true;
        if self.tab_bar.tabs.len() == 0 {
            self.tab_bar = TabBar::default();
        }
    }

    /// Turns tabs off.
    pub fn disable_tabs(&mut self)
        ensures
            *final(self) == (IssueList { tabs_enabled: false, ..*old(self) }),
    {
        self.tabs_enabled = false;
    }

    /// Marks the list focused or not for this frame and, while it loads, moves its
    /// spinner one step.
    pub fn prepare_draw(&mut self, focused: bool)
        ensures
            *final(self) == (IssueList { focused: focused, spinner: final(self).spinner, ..*old(self) }),
            final(self).spinner.index == (if !old(self).is_loading {
                old(self).spinner.index as int
            } else if old(self).spinner.index == usize::MAX {
                0
            } else {
                old(self).spinner.index + 1
            }),
    {
        self.focused = focused;
        if self.is_loading {
            self.spinner.advance();
        }
    }

    /// Moves the selection up.
    pub fn move_up(&mut self) -> (r: ListAction)
        ensures
            *final(self) == old(self).with_selection(up_step(old(self).navigator.selected, old(self).result.items@.len() as usize).0),
            r == up_step(old(self).navigator.selected, old(self).result.items@.len() as usize).1,
    {
        let n = self.result.items.len();
        self.navigator.move_up(n)
    }

    /// Moves the selection down, asking for more at the end of a list that has more.
    pub fn move_down(&mut self) -> (r: ListAction)
        ensures
            *final(self) == old(self).with_selection(down_step(old(self).navigator.selected,
                old(self).result.items@.len() as usize, old(self).result.has_more, old(self).is_loading).0),
            r == down_step(old(self).navigator.selected, old(self).result.items@.len() as usize,
                old(self).result.has_more, old(self).is_loading).1,
    {
        let n = self.result.items.len();
        let has_more = self.result.has_more;
        let is_loading = self.is_loading;
        self.navigator.move_down(n, has_more, is_loading)
    }

    /// Moves to the next sort order and asks for the list sorted by it.
    pub fn cycle_sort(&mut self) -> (r: ListAction)
        ensures
            *final(self) == (IssueList { sort_mode: next_mode(old(self).sort_mode), ..*old(self) }),
            r == ListAction::Sort,
    {
        self.sort_mode = self.sort_mode.next();
        ListAction::Sort
    }

    /// The selected row.
    pub fn state_selected(&self) -> (r: Option<usize>)
        ensures
            r == self.navigator.selected,
    {
        self.navigator.selected()
    }

    /// Selects a row, or none.
    pub fn select_item(&mut self, index: Option<usize>)
        ensures
            *final(self) == old(self).with_selection(index),
    {
        self.navigator.select(index);
    }

    /// Whether a row is selected.
    pub fn has_selection(&self) -> (r: bool)
        ensures
            r == self.navigator.selected is Some,
    {
        self.navigator.selected().is_some()
    }

    /// Selects the first row where nothing is selected and there are rows.
    pub fn ensure_selection(&mut self)
        ensures
            *final(self) == (if old(self).navigator.selected is None && old(self).result.items@.len() > 0 {
                old(self).with_selection(Some(0))
            } else {
                *old(self)
            }),
    {
        if self.navigator.selected().is_none() && self.result.items.len() > 0 {
            self.navigator.select(Some(0));
        }
    }

    /// Keeps a selection in the list after its items were reordered.
    pub fn sort_items(&mut self)
        ensures
            *final(self) == (if old(self).navigator.selected is None && old(self).result.items@.len() > 0 {
                old(self).with_selection(Some(0))
            } else {
                *old(self)
            }),
    {
        self.ensure_selection();
    }

    /// Moves to the previous tab where tabs are on; says whether the tab changed.
    pub fn move_tab_left(&mut self) -> (r: TabAction)
        ensures
            old(self).tabs_enabled ==> *final(self) == old(self).with_tab_index(
                left_index(old(self).tab_bar.selected_index, old(self).tab_bar.tabs@.len() as usize),
            ),
            !old(self).tabs_enabled ==> *final(self) == *old(self),
            r == (if old(self).tabs_enabled && left_index(old(self).tab_bar.selected_index,
                old(self).tab_bar.tabs@.len() as usize) != old(self).tab_bar.selected_index {
                TabAction::TabChanged
            } else {
                TabAction::NoAction
            }),
    {
        if self.tabs_enabled {
            let old_index = self.tab_bar.selected_index;
            self.tab_bar.move_left();
            if old_index != self.tab_bar.selected_index {
                TabAction::TabChanged
            } else {
                TabAction::NoAction
            }
        } else {
            TabAction::NoAction
        }
    }

    /// Moves to the next tab where tabs are on; says whether the tab changed.
    pub fn move_tab_right(&mut self) -> (r: TabAction)
        ensures
            old(self).tabs_enabled ==> *final(self) == old(self).with_tab_index(
                right_index(old(self).tab_bar.selected_index, old(self).tab_bar.tabs@.len() as usize),
            ),
            !old(self).tabs_enabled ==> *final(self) == *old(self),
            r == (if old(self).tabs_enabled && right_index(old(self).tab_bar.selected_index,
                old(self).tab_bar.tabs@.len() as usize) != old(self).tab_bar.selected_index {
                TabAction::TabChanged
            } else {
                TabAction::NoAction
            }),
    {
        if self.tabs_enabled {
            let old_index = self.tab_bar.selected_index;
            self.tab_bar.move_right();
            if old_index != self.tab_bar.selected_index {
                TabAction::TabChanged
            } else {
                TabAction::NoAction
            }
        } else {
            TabAction::NoAction
        }
    }

    /// The filter of the selected tab, where tabs are on.
    pub fn current_jql(&self) -> (r: Option<String>)
        ensures
            r is Some <==> self.jql_filter() is Some,
            r matches Some(j) ==> Some(j@) == self.jql_filter(),
    {
        if self.tabs_enabled {
            match self.tab_bar.current_jql() {
                Some(j) => Some(j.to_string()),
                None => None,
            }
        } else {
            None
        }
    }

    /// The selected tab, where tabs are on.
    pub fn current_tab(&self) -> (r: Option<&JqlTab>)
        ensures
            r is Some <==> self.tabs_enabled && self.tab_bar.selected_index < self.tab_bar.tabs@.len(),
            r matches Some(t) ==> *t == self.tab_bar.tabs@[self.tab_bar.selected_index as int],
    {
        if self.tabs_enabled {
            self.tab_bar.current_tab()
        } else {
            None
        }
    }

    /// Adds a tab at the end and turns tabs on.
    pub fn add_tab(&mut self, tab: JqlTab)
        ensures
            *final(self) == (IssueList { tabs_enabled: true, tab_bar: final(self).tab_bar, ..*old(self) }),
            final(self).tab_bar.tabs@ == old(self).tab_bar.tabs@.push(tab),
            final(self).tab_bar.selected_index == old(self).tab_bar.selected_index,
    {
        self.tab_bar.add_tab(tab);
        if !self.tabs_enabled {
            self.tabs_enabled = true;
        }
    }

    /// The tabs of this list.
    pub fn tabs(&self) -> (r: &[JqlTab])
        ensures
            r@ == self.tab_bar.tabs@,
    {
        self.tab_bar.tabs.as_slice()
    }

    /// The text at the top right of a focused list's frame: the selected tab's name and
    /// the sort label where tabs are on and one is selected, else the sort label alone.
    pub fn title_top_right(&self) -> (r: String)
        ensures
            r@ == (if self.tabs_enabled && self.tab_bar.selected_index < self.tab_bar.tabs@.len() {
                " "@ + self.tab_bar.tabs@[self.tab_bar.selected_index as int].name@ + " · "@
                    + label_text(self.sort_mode) + " "@
            } else {
                " "@ + label_text(self.sort_mode) + " "@
            }),
    {
        let label = self.sort_mode.label();
        if self.tabs_enabled {
            match self.tab_bar.current_tab() {
                Some(tab) => {
                    let mut r = concat3(" ", tab.name.as_str(), " · ");
                    r.append(label);
                    r.append(" ");
                    r
                },
                None => concat3(" ", label, " "),
            }
        } else {
            concat3(" ", label, " ")
        }
    }

    /// The text at the bottom right of a focused list's frame: the spinner's frame while
    /// loading, then the selected row's number (1 where none is) over the row count.
    pub fn selection_info(&self) -> (r: String)
        requires
            self.navigator.selected matches Some(s) ==> s < usize::MAX,
        ensures
            r@ == " "@ + (if self.is_loading {
                spinner_frame(self.spinner.index as nat) + " "@
            } else {
                Seq::empty()
            }) + decimal_seq((match self.navigator.selected {
                Some(s) => s,
                None => 0,
            }) as nat + 1) + "/"@ + decimal_seq(self.result.items@.len()) + " "@,
    {
        let current = match self.navigator.selected() {
            Some(s) => s,
            None => 0,
        };
        let mut r = String::new();
        r.append(" ");
        if self.is_loading {
            r.append(self.spinner.current_frame());
            r.append(" ");
        }
        let a = u64_to_decimal((current + 1) as u64);
        r.append(a.as_str());
        r.append("/");
        let b = u64_to_decimal(self.result.items.len() as u64);
        r.append(b.as_str());
        r.append(" ");
        r
    }
}

} // verus!
