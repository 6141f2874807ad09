//! A list pane of the first interface: some issues, a title, a selected row, and
//! whether it has the focus.
use vstd::prelude::*;
use crate::models::JiraIssue;
use crate::text::{concat3, decimal_seq, u64_to_decimal};

verus! {

/// A list of issues as one pane shows it.
#[derive(Debug, Clone)]
pub struct IssueList<'a> {
    pub issues: &'a [JiraIssue],
    pub title: String,
    pub selected_index: usize,
    pub is_focused: bool,
}

/// The row of an issue: `KEY - summary`.
pub open spec fn pane_row(issue: JiraIssue) -> Seq<char> {
    issue.key@ + " - "@ + issue.summary@
}

impl<'a> IssueList<'a> {
    /// A pane over `issues`.
    pub fn new(issues: &'a [JiraIssue], title: &str, selected_index: usize, is_focused: bool) -> (r: Self)
        ensures
            r.issues == issues,
            r.title@ == title@,
            r.selected_index == selected_index,
            r.is_focused == is_focused,
    {
        IssueList { issues, title: title.to_string(), selected_index, is_focused }
    }

    /// This pane with another title.
    pub fn with_title(self, title: &str) -> (r: Self)
        ensures
            r.issues == self.issues && r.title@ == title@,
            r.selected_index == self.selected_index && r.is_focused == self.is_focused,
    {
        IssueList { issues: self.issues, title: title.to_string(), selected_index: self.selected_index, is_focused: self.is_focused }
    }

    /// This pane with the focus.
    pub fn focused(self) -> (r: Self)
        ensures
            r.issues == self.issues && r.title == self.title,
            r.selected_index == self.selected_index && r.is_focused,
    {
        IssueList { issues: self.issues, title: self.title, selected_index: self.selected_index, is_focused: true }
    }

    /// This pane with another row selected.
    pub fn selected(self, index: usize) -> (r: Self)
        ensures
            r.issues == self.issues && r.title == self.title,
            r.selected_index == index && r.is_focused == self.is_focused,
    {
        IssueList { issues: self.issues, title: self.title, selected_index: index, is_focused: self.is_focused }
    }

    /// The rows of the pane, each with whether it is highlighted (the selected row of a
    /// focused pane); one row saying there are none where there are no issues.
    pub fn rows(&self) -> (r: Vec<(String, bool)>)
        ensures
            self.issues@.len() == 0 ==> r@.len() == 1 && r@[0].0@ == "No issues"@ && !r@[0].1,
            self.issues@.len() > 0 ==> r@.len() == self.issues@.len() && forall|i: int|
                0 <= i < r@.len() ==> (#[trigger] r@[i]).0@ == pane_row(self.issues@[i])
                    && r@[i].1 == (i == self.selected_index && self.is_focused),
    {
        let mut v: Vec<(String, bool)> = Vec::new();
        if self.issues.len() == 0 {
            v.push(("No issues".to_string(), false));
            return v;
        }
        let mut i: usize = 0;
        while i < self.issues.len()
            invariant
                i <= self.issues@.len(),
                v@.len() == i,
                forall|j: int| 0 <= j < i ==> (#[trigger] v@[j]).0@ == pane_row(self.issues@[j])
                    && v@[j].1 == (j == self.selected_index && self.is_focused),
            decreases self.issues.len() - i,
        {
            let issue = &self.issues[i];
            let row = concat3(issue.key.as_str(), " - ", issue.summary.as_str());
            v.push((row, i == self.selected_index && self.is_focused));
            i = i + 1;
        }
        v
    }

    /// The position shown at the bottom of a focused pane: the selected row's number
    /// over the row count.
    pub fn position_text(&self) -> (r: String)
        requires
            self.selected_index < usize::MAX,
        ensures
            r@ == decimal_seq(self.selected_index as nat + 1) + "/"@ + decimal_seq(self.issues@.len()),
    {
        let a = u64_to_decimal((self.selected_index + 1) as u64);
        let b = u64_to_decimal(self.issues.len() as u64);
        concat3(a.as_str(), "/", b.as_str())
    }
}

} // verus!
