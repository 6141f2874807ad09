//! The transition selector of the first interface: the transitions of an issue, one
//! selected.
use vstd::prelude::*;
use crate::api::types::JiraTransition;
use crate::models::AppData;
use crate::navigation::NavigationState;
use crate::text::concat3;

verus! {

/// The transitions of an issue and the selected one.
#[derive(Debug, Clone)]
pub struct TransitionSelector<'a> {
    pub transitions: &'a [JiraTransition],
    pub selected_index: usize,
    pub issue_key: String,
}

/// The title of the selector's window.
pub open spec fn selector_title(issue_key: Seq<char>) -> Seq<char> {
    "Transition Issue: "@ + issue_key
}

/// The row of a transition: its name and the status it leads to.
pub open spec fn transition_row(t: JiraTransition) -> Seq<char> {
    t.name@ + " → "@ + t.to.name@
}

impl<'a> TransitionSelector<'a> {
    /// The selector for the selected issue (`Unknown Issue` where none is), on the
    /// navigation's selected transition.
    pub fn new(transitions: &'a [JiraTransition], nav_state: &NavigationState, app_data: &AppData) -> (r: Self)
        ensures
            r.transitions == transitions,
            r.selected_index == nav_state.transition_selected,
            r.issue_key@ == (match app_data.selected_issue {
                Some(i) => i.key@,
                None => "Unknown Issue"@,
            }),
    {
        let issue_key = match &app_data.selected_issue {
            Some(issue) => issue.key.clone(),
            None => "Unknown Issue".to_string(),
        };
        TransitionSelector { transitions, selected_index: nav_state.transition_selected, issue_key }
    }

    /// A selector over given transitions.
    pub fn with_transitions(transitions: &'a [JiraTransition], selected_index: usize, issue_key: &str) -> (r: Self)
        ensures
            r.transitions == transitions,
            r.selected_index == selected_index,
            r.issue_key@ == issue_key@,
    {
        TransitionSelector { transitions, selected_index, issue_key: issue_key.to_string() }
    }

    /// The title of the window.
    pub fn title(&self) -> (r: String)
        ensures
            r@ == selector_title(self.issue_key@),
    {
        let mut r = "Transition Issue: ".to_string();
        r.append(self.issue_key.as_str());
        r
    }

    /// The rows of the selector, each with whether it is selected; one row saying there
    /// are none where there are no transitions.
    pub fn rows(&self) -> (r: Vec<(String, bool)>)
        ensures
            self.transitions@.len() == 0 ==> r@.len() == 1 && r@[0].0@ == "No transitions available"@ && !r@[0].1,
            self.transitions@.len() > 0 ==> r@.len() == self.transitions@.len() && forall|i: int|
                0 <= i < r@.len() ==> (#[trigger] r@[i]).0@ == transition_row(self.transitions@[i])
                    && r@[i].1 == (i == self.selected_index),
    {
        let mut v: Vec<(String, bool)> = Vec::new();
        if self.transitions.len() == 0 {
            v.push(("No transitions available".to_string(), false));
            return v;
        }
        let mut i: usize = 0;
        while i < self.transitions.len()
            invariant
                i <= self.transitions@.len(),
                v@.len() == i,
                forall|j: int| 0 <= j < i ==> (#[trigger] v@[j]).0@ == transition_row(self.transitions@[j])
                    && v@[j].1 == (j == self.selected_index),
            decreases self.transitions.len() - i,
        {
            let t = &self.transitions[i];
            let row = concat3(t.name.as_str(), " → ", t.to.name.as_str());
            v.push((row, i == self.selected_index));
            i = i + 1;
        }
        v
    }

    /// The key hints under the window.
    pub fn instructions() -> (r: &'static str)
        ensures
            r@ == "/: Search | ↑↓: Navigate | Enter: Execute | Esc: Cancel"@,
    {
        "/: Search | ↑↓: Navigate | Enter: Execute | Esc: Cancel"
    }
}

} // verus!
