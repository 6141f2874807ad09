//! The state of the first interface: its data, navigation and transition selector.
use vstd::prelude::*;
use crate::api::types::JiraTransition;
use crate::models::{AppData, JiraIssue};
use crate::navigation::{FocusedPane, NavigationState};
use crate::text::same_text;

verus! {

/// The state that commands act on. Fetching happens outside it: its results come in
/// through `apply_refreshed_data` and the transition commands.
#[derive(Debug)]
pub struct AppContext {
    pub should_quit: bool,
    pub data: AppData,
    pub navigation: NavigationState,
    pub use_api: bool,
    pub available_transitions: Vec<JiraTransition>,
    pub transitioning_issue_key: Option<String>,
}

/// The position of the first issue in `s` whose key is `key`, or `s.len()`.
pub open spec fn key_pos(s: Seq<JiraIssue>, key: Seq<char>) -> int
    decreases s.len(),
{
    if s.len() == 0 {
        0
    } else if s[0].key@ == key {
        0
    } else {
        1 + key_pos(s.drop_first(), key)
    }
}

/// `key_pos` lies in `0..=s.len()`; it names an issue with that key when below the end,
/// and no issue before it has that key.
pub proof fn lemma_key_pos(s: Seq<JiraIssue>, key: Seq<char>)
    ensures
        0 <= key_pos(s, key) <= s.len(),
        key_pos(s, key) < s.len() ==> s[key_pos(s, key)].key@ == key,
        forall|j: int| 0 <= j < key_pos(s, key) ==> (#[trigger] s[j]).key@ != key,
    decreases s.len(),
{
    if s.len() > 0 && s[0].key@ != key {
        lemma_key_pos(s.drop_first(), key);
        assert forall|j: int| 0 <= j < key_pos(s, key) implies (#[trigger] s[j]).key@ != key by {
            if j > 0 {
                assert(s[j] == s.drop_first()[j - 1]);
            }
        }
    }
}

/// The first issue of `s` with key `key`.
pub open spec fn find_key(s: Seq<JiraIssue>, key: Seq<char>) -> Option<JiraIssue> {
    if key_pos(s, key) < s.len() {
        Some(s[key_pos(s, key)])
    } else {
        None
    }
}

/// The issue with key `key` that the data holds: the first one in the sprint, else on
/// the board, else among the recently updated; none where it holds none.
pub open spec fn issue_with_key(d: AppData, key: Seq<char>) -> Option<JiraIssue> {
    let in_sprint = match d.current_sprint {
        Some(s) => find_key(s.issues@, key),
        None => None,
    };
    if in_sprint is Some {
        in_sprint
    } else if find_key(d.board_issues@, key) is Some {
        find_key(d.board_issues@, key)
    } else {
        find_key(d.last_updated_issues@, key)
    }
}

/// The issue at row `i` of `s`, if there is one.
pub open spec fn row(s: Seq<JiraIssue>, i: usize) -> Option<JiraIssue> {
    if i < s.len() {
        Some(s[i as int])
    } else {
        None
    }
}

/// The issue that the focused pane selects: the selected row of a list, the detail
/// pane's issue, or none in the transition list.
pub open spec fn selected_issue_of(d: AppData, n: NavigationState) -> Option<JiraIssue> {
    match n.focused_pane {
        FocusedPane::Sprint => match d.current_sprint {
            Some(s) => row(s.issues@, n.sprint_selected),
            None => None,
        },
        FocusedPane::Board => row(d.board_issues@, n.last_viewed_selected),
        FocusedPane::LastUpdated => row(d.last_updated_issues@, n.last_updated_selected),
        FocusedPane::Detail => d.selected_issue,
        FocusedPane::TransitionList => None,
    }
}

/// The first issue of `v` with key `key`, copied.
fn find_in(v: &Vec<JiraIssue>, key: &str) -> (r: Option<JiraIssue>)
    ensures
        r == find_key(v@, key@),
{
    let mut i: usize = 0;
    proof {
        lemma_key_pos(v@, key@);
    }
    while i < v.len()
        invariant
            i <= v@.len(),
            forall|j: int| 0 <= j < i ==> (#[trigger] v@[j]).key@ != key@,
            0 <= key_pos(v@, key@) <= v@.len(),
            key_pos(v@, key@) < v@.len() ==> v@[key_pos(v@, key@)].key@ == key@,
            forall|j: int| 0 <= j < key_pos(v@, key@) ==> (#[trigger] v@[j]).key@ != key@,
        decreases v.len() - i,
    {
        if same_text(v[i].key.as_str(), key) {
            return Some(v[i].clone());
        }
        i = i + 1;
    }
    None
}

impl AppContext {
    /// A context with the given data and navigation, not quitting, with no transitions.
    pub fn new(data: AppData, navigation: NavigationState, use_api: bool) -> (r: Self)
        ensures
            !r.should_quit,
            r.data == data,
            r.navigation == navigation,
            r.use_api == use_api,
            r.available_transitions@.len() == 0,
            r.transitioning_issue_key is None,
    {
        AppContext {
            should_quit: false,
            data,
            navigation,
            use_api,
            available_transitions: Vec::new(),
            transitioning_issue_key: None,
        }
    }

    /// The key of the issue that the focused pane selects.
    pub fn get_selected_issue_key(&self) -> (r: Option<String>)
        ensures
            r is Some <==> selected_issue_of(self.data, self.navigation) is Some,
            r matches Some(k) ==> k@ == selected_issue_of(self.data, self.navigation)->0.key@,
    {
        match self.navigation.focused_pane {
            FocusedPane::Sprint => match &self.data.current_sprint {
                Some(sprint) => {
                    if self.navigation.sprint_selected < sprint.issues.len() {
                        Some(sprint.issues[self.navigation.sprint_selected].key.clone())
                    } else {
                        None
                    }
                },
                None => None,
            },
            FocusedPane::Board => {
                if self.navigation.last_viewed_selected < self.data.board_issues.len() {
                    Some(self.data.board_issues[self.navigation.last_viewed_selected].key.clone())
                } else {
                    None
                }
            },
            FocusedPane::LastUpdated => {
                if self.navigation.last_updated_selected < self.data.last_updated_issues.len() {
                    Some(self.data.last_updated_issues[self.navigation.last_updated_selected].key.clone())
                } else {
                    None
                }
            },
            FocusedPane::Detail => match &self.data.selected_issue {
                Some(issue) => Some(issue.key.clone()),
                None => None,
            },
            FocusedPane::TransitionList => None,
        }
    }

    /// Selects the issue with key `key` again, looking in the sprint, then on the board,
    /// then among the recently updated; selects none where the data no longer holds it.
    pub fn restore_selected_issue_by_key(&mut self, key: &str)
        ensures
            *final(self) == (AppContext {
                data: AppData { selected_issue: issue_with_key(old(self).data, key@), ..old(self).data },
                ..*old(self)
            }),
    {
        let in_sprint = match &self.data.current_sprint {
            Some(sprint) => find_in(&sprint.issues, key),
            None => None,
        };
        if in_sprint.is_some() {
            self.data.selected_issue = in_sprint;
            return;
        }
        let on_board = find_in(&self.data.board_issues, key);
        if on_board.is_some() {
            self.data.selected_issue = on_board;
            return;
        }
        self.data.selected_issue = find_in(&self.data.last_updated_issues, key);
    }

    /// Takes in freshly fetched data, keeping the selected issue selected where the new
    /// data still holds an issue with its key.
    pub fn apply_refreshed_data(&mut self, new_data: AppData)
        ensures
            *final(self) == (AppContext {
                data: match old(self).data.selected_issue {
                    Some(i) => AppData { selected_issue: issue_with_key(new_data, i.key@), ..new_data },
                    None => new_data,
                },
                ..*old(self)
            }),
    {
        let selected_key: Option<String> = match &self.data.selected_issue {
            Some(i) => Some(i.key.clone()),
            None => None,
        };
        self.data = new_data;
        match selected_key {
            Some(key) => self.restore_selected_issue_by_key(key.as_str()),
            None => {},
        }
    }

    /// Makes the issue that the focused list selects the selected issue; a pane that
    /// selects none leaves the selection as it was.
    pub fn update_selected_issue(&mut self)
        ensures
            *final(self) == (if is_list(old(self).navigation.focused_pane) && selected_issue_of(
                old(self).data,
                old(self).navigation,
            ) is Some {
                AppContext {
                    data: AppData {
                        selected_issue: selected_issue_of(old(self).data, old(self).navigation),
                        ..old(self).data
                    },
                    ..*old(self)
                }
            } else {
                *old(self)
            }),
    {
        match self.navigation.focused_pane {
            FocusedPane::Sprint => {
                let found = match &self.data.current_sprint {
                    Some(sprint) => {
                        if self.navigation.sprint_selected < sprint.issues.len() {
                            Some(sprint.issues[self.navigation.sprint_selected].clone())
                        } else {
                            None
                        }
                    },
                    None => None,
                };
                if found.is_some() {
                    self.data.selected_issue = found;
                }
            },
            FocusedPane::Board => {
                if self.navigation.last_viewed_selected < self.data.board_issues.len() {
                    let issue = self.data.board_issues[self.navigation.last_viewed_selected].clone();
                    self.data.selected_issue = Some(issue);
                }
            },
            FocusedPane::LastUpdated => {
                if self.navigation.last_updated_selected < self.data.last_updated_issues.len() {
                    let issue = self.data.last_updated_issues[self.navigation.last_updated_selected].clone();
                    self.data.selected_issue = Some(issue);
                }
            },
            FocusedPane::Detail => {},
            FocusedPane::TransitionList => {},
        }
    }
}

/// Whether `p` is one of the three issue lists.
pub open spec fn is_list(p: FocusedPane) -> bool {
    p == FocusedPane::Sprint || p == FocusedPane::Board || p == FocusedPane::LastUpdated
}

/// After a refresh, the selected issue, where there is one, has the key of the issue
/// selected before it.
pub proof fn lemma_refresh_keeps_key(new_data: AppData, key: Seq<char>)
    ensures
        issue_with_key(new_data, key) matches Some(i) ==> i.key@ == key,
{
    match new_data.current_sprint {
        Some(s) => lemma_key_pos(s.issues@, key),
        None => {},
    }
    lemma_key_pos(new_data.board_issues@, key);
    lemma_key_pos(new_data.last_updated_issues@, key);
}

} // verus!
