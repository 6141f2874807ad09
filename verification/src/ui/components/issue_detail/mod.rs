//! The detail pane: which issue it shows, which field is selected, and the text of its
//! description.
use vstd::prelude::*;
use crate::json::JsonValue;
use crate::services::adf::{description_text, parse_description};
use crate::services::types::JiraIssue;
use crate::text::{lines, lines_seq};
use crate::time::{or_empty, utc_minutes};
use crate::ui::{opt_or, text_or};

verus! {

/// A field of the detail pane.
#[derive(Debug, Clone, Copy, PartialEq, Eq, Structural)]
pub enum DetailField {
    Key,
    Summary,
    Details,
    Description,
    Parent,
    Subtasks,
    LinkedItems,
}

/// The field after `f`, from the last back to the first.
pub open spec fn next_field(f: DetailField) -> DetailField {
    match f {
        DetailField::Key => DetailField::Summary,
        DetailField::Summary => DetailField::Details,
        DetailField::Details => DetailField::Description,
        DetailField::Description => DetailField::Parent,
        DetailField::Parent => DetailField::Subtasks,
        DetailField::Subtasks => DetailField::LinkedItems,
        DetailField::LinkedItems => DetailField::Key,
    }
}

/// The field before `f`, from the first back to the last.
pub open spec fn prev_field(f: DetailField) -> DetailField {
    match f {
        DetailField::Key => DetailField::LinkedItems,
        DetailField::Summary => DetailField::Key,
        DetailField::Details => DetailField::Summary,
        DetailField::Description => DetailField::Details,
        DetailField::Parent => DetailField::Description,
        DetailField::Subtasks => DetailField::Parent,
        DetailField::LinkedItems => DetailField::Subtasks,
    }
}

/// `next_field` applied `n` times.
pub open spec fn next_field_n(f: DetailField, n: nat) -> DetailField
    decreases n,
{
    if n == 0 {
        f
    } else {
        next_field(next_field_n(f, (n - 1) as nat))
    }
}

/// `prev_field` applied `n` times.
pub open spec fn prev_field_n(f: DetailField, n: nat) -> DetailField
    decreases n,
{
    if n == 0 {
        f
    } else {
        prev_field(prev_field_n(f, (n - 1) as nat))
    }
}

impl DetailField {
    /// The next field, wrapping from the last to the first.
    pub fn next(&self) -> (r: Self)
        ensures
            r == next_field(*self),
    {
        match self {
            DetailField::Key => DetailField::Summary,
            DetailField::Summary => DetailField::Details,
            DetailField::Details => DetailField::Description,
            DetailField::Description => DetailField::Parent,
            DetailField::Parent => DetailField::Subtasks,
            DetailField::Subtasks => DetailField::LinkedItems,
            DetailField::LinkedItems => DetailField::Key,
        }
    }

    /// The previous field, wrapping from the first to the last.
    pub fn prev(&self) -> (r: Self)
        ensures
            r == prev_field(*self),
    {
        match self {
            DetailField::Key => DetailField::LinkedItems,
            DetailField::Summary => DetailField::Key,
            DetailField::Details => DetailField::Summary,
            DetailField::Description => DetailField::Details,
            DetailField::Parent => DetailField::Description,
            DetailField::Subtasks => DetailField::Parent,
            DetailField::LinkedItems => DetailField::Subtasks,
        }
    }
}

/// Moving to the previous field undoes a move to the next one, and the other way round.
pub proof fn lemma_next_prev_inverse(f: DetailField)
    ensures
        prev_field(next_field(f)) == f,
        next_field(prev_field(f)) == f,
{
}

/// Seven moves in either direction come back to the starting field, and fewer do not.
pub proof fn lemma_field_cycle(f: DetailField)
    ensures
        next_field_n(f, 7) == f,
        prev_field_n(f, 7) == f,
        forall|n: nat| 0 < n < 7 ==> #[trigger] next_field_n(f, n) != f,
{
    let n1 = next_field(f);
    let n2 = next_field(n1);
    let n3 = next_field(n2);
    let n4 = next_field(n3);
    let n5 = next_field(n4);
    let n6 = next_field(n5);
    assert(next_field_n(f, 0) == f);
    assert(next_field_n(f, 1) == n1);
    assert(next_field_n(f, 2) == n2);
    assert(next_field_n(f, 3) == n3);
    assert(next_field_n(f, 4) == n4);
    assert(next_field_n(f, 5) == n5);
    assert(next_field_n(f, 6) == n6);
    assert(next_field_n(f, 7) == next_field(n6));
    let p1 = prev_field(f);
    let p2 = prev_field(p1);
    let p3 = prev_field(p2);
    let p4 = prev_field(p3);
    let p5 = prev_field(p4);
    let p6 = prev_field(p5);
    assert(prev_field_n(f, 0) == f);
    assert(prev_field_n(f, 1) == p1);
    assert(prev_field_n(f, 2) == p2);
    assert(prev_field_n(f, 3) == p3);
    assert(prev_field_n(f, 4) == p4);
    assert(prev_field_n(f, 5) == p5);
    assert(prev_field_n(f, 6) == p6);
    assert(prev_field_n(f, 7) == prev_field(p6));
    match f {
        DetailField::Key => {},
        DetailField::Summary => {},
        DetailField::Details => {},
        DetailField::Description => {},
        DetailField::Parent => {},
        DetailField::Subtasks => {},
        DetailField::LinkedItems => {},
    }
}

/// The detail pane.
#[derive(Debug)]
pub struct IssueDetail {
    pub issue: Option<JiraIssue>,
    pub scroll_offset: usize,
    pub focused: bool,
    pub selected_field: DetailField,
    pub edit_mode: bool,
}

/// The lines of an issue's description as the pane shows them: the lines of its text,
/// or one line saying there is none.
pub open spec fn description_lines_seq(description: Option<JsonValue>) -> Seq<Seq<char>> {
    let l = lines_seq(description_text(description));
    if l.len() == 0 {
        seq!["No description available"@]
    } else {
        l
    }
}

/// The colour of the pane's border.
#[derive(Debug, Clone, Copy, PartialEq, Eq, Structural)]
pub enum BorderColor {
    Cyan,
    White,
}

impl IssueDetail {
    /// The colour of the pane's border: cyan when the pane has the focus, white
    /// otherwise.
    pub fn border_color(focused: bool) -> (r: BorderColor)
        ensures
            r == (if focused { BorderColor::Cyan } else { BorderColor::White }),
    {
        if focused {
            BorderColor::Cyan
        } else {
            BorderColor::White
        }
    }

    /// What the pane shows in place of an issue: "No issue selected" when it shows none.
    pub fn placeholder(&self) -> (r: Option<&'static str>)
        ensures
            self.issue is None ==> (r matches Some(t) && t@ == "No issue selected"@),
            self.issue is Some ==> r is None,
    {
        match &self.issue {
            None => Some("No issue selected"),
            Some(_) => None,
        }
    }

    /// What the subtasks section shows in place of subtasks: "No subtasks" when the shown
    /// issue has none.
    pub fn subtasks_placeholder(&self) -> (r: Option<&'static str>)
        ensures
            (self.issue matches Some(i) && i.subtasks@.len() == 0) ==> (r matches Some(t) && t@ == "No subtasks"@),
            !(self.issue matches Some(i) && i.subtasks@.len() == 0) ==> r is None,
    {
        match &self.issue {
            Some(i) => if i.subtasks.len() == 0 {
                Some("No subtasks")
            } else {
                None
            },
            None => None,
        }
    }

    /// An empty, unfocused pane on the key field, not editing.
    pub fn new() -> (r: Self)
        ensures
            r.issue is None,
            r.scroll_offset == 0,
            !r.focused,
            r.selected_field == DetailField::Key,
            !r.edit_mode,
    {
        IssueDetail {
            issue: None,
            scroll_offset: 0,
            focused: false,
            selected_field: DetailField::Key,
            edit_mode: false,
        }
    }

    /// Selects the previous field.
    pub fn move_up(&mut self)
        ensures
            *final(self) == (IssueDetail { selected_field: prev_field(old(self).selected_field), ..*old(self) }),
    {
        self.selected_field = self.selected_field.prev();
    }

    /// Selects the next field.
    pub fn move_down(&mut self)
        ensures
            *final(self) == (IssueDetail { selected_field: next_field(old(self).selected_field), ..*old(self) }),
    {
        self.selected_field = self.selected_field.next();
    }

    /// Starts editing.
    pub fn enter_edit_mode(&mut self)
        ensures
            *final(self) == (IssueDetail { edit_mode: true, ..*old(self) }),
    {
        if !self.edit_mode {
            self.edit_mode = true;
        }
    }

    /// Stops editing.
    pub fn exit_edit_mode(&mut self)
        ensures
            *final(self) == (IssueDetail { edit_mode: false, ..*old(self) }),
    {
        self.edit_mode = false;
    }

    /// Shows an issue, or none, from the top, on the key field, not editing.
    pub fn set_issue(&mut self, issue: Option<JiraIssue>)
        ensures
            *final(self) == (IssueDetail {
                issue: issue,
                scroll_offset: 0,
                selected_field: DetailField::Key,
                edit_mode: false,
                ..*old(self)
            }),
    {
        self.issue = issue;
        self.scroll_offset = 0;
        self.selected_field = DetailField::Key;
        self.edit_mode = false;
    }

    /// Whether `field` is the selected field of a focused pane, which the pane highlights.
    pub fn is_highlighted(&self, field: DetailField) -> (r: bool)
        ensures
            r == (self.focused && self.selected_field == field),
    {
        self.focused && self.selected_field == field
    }

    /// The labelled fields of the summary section of the shown issue: its key, summary,
    /// and under `Parent: ` its priority (`None` where it has none).
    pub fn summary_fields(&self) -> (r: Option<Vec<(String, String)>>)
        ensures
            r is Some <==> self.issue is Some,
            r matches Some(v) ==> v@.len() == 3
                && v@[0].0@ == "Key: "@ && v@[0].1@ == self.issue->0.key@
                && v@[1].0@ == "Summary: "@ && v@[1].1@ == self.issue->0.summary@
                && v@[2].0@ == "Parent: "@ && v@[2].1@ == text_or(self.issue->0.priority, "None"@),
    {
        match &self.issue {
            Some(issue) => {
                let mut v: Vec<(String, String)> = Vec::new();
                v.push(("Key: ".to_string(), issue.key.clone()));
                v.push(("Summary: ".to_string(), issue.summary.clone()));
                v.push(("Parent: ".to_string(), opt_or(&issue.priority, "None").to_string()));
                Some(v)
            },
            None => None,
        }
    }

    /// The labelled fields of the details section of the shown issue, in two columns:
    /// status, type, priority and (again) priority under `Parent: `; reporter, assignee,
    /// and the dates written as `%Y-%m-%d %H:%M` (empty where they cannot be written).
    pub fn details_fields(&self) -> (r: Option<(Vec<(String, String)>, Vec<(String, String)>)>)
        ensures
            r is Some <==> self.issue is Some,
            r matches Some(p) ==> {
                let i = self.issue->0;
                &&& p.0@.len() == 4 && p.1@.len() == 4
                &&& p.0@[0].0@ == "Status: "@ && p.0@[0].1@ == i.status@
                &&& p.0@[1].0@ == "Type: "@ && p.0@[1].1@ == i.issue_type@
                &&& p.0@[2].0@ == "Priority: "@ && p.0@[2].1@ == text_or(i.priority, "None"@)
                &&& p.0@[3].0@ == "Parent: "@ && p.0@[3].1@ == text_or(i.priority, "None"@)
                &&& p.1@[0].0@ == "Reporter: "@ && p.1@[0].1@ == text_or(i.reporter, "Unknown"@)
                &&& p.1@[1].0@ == "Assignee: "@ && p.1@[1].1@ == text_or(i.assignee, "Unassigned"@)
                &&& p.1@[2].0@ == "Created: "@ && p.1@[2].1@ == or_empty(utc_minutes(i.created.secs, i.created.nanos))
                &&& p.1@[3].0@ == "Updated: "@ && p.1@[3].1@ == or_empty(utc_minutes(i.updated.secs, i.updated.nanos))
            },
    {
        match &self.issue {
            Some(issue) => {
                let mut left: Vec<(String, String)> = Vec::new();
                left.push(("Status: ".to_string(), issue.status.clone()));
                left.push(("Type: ".to_string(), issue.issue_type.clone()));
                left.push(("Priority: ".to_string(), opt_or(&issue.priority, "None").to_string()));
                left.push(("Parent: ".to_string(), opt_or(&issue.priority, "None").to_string()));
                let created = match issue.created.to_minutes_text() {
                    Some(t) => t,
                    None => String::new(),
                };
                let updated = match issue.updated.to_minutes_text() {
                    Some(t) => t,
                    None => String::new(),
                };
                let mut right: Vec<(String, String)> = Vec::new();
                right.push(("Reporter: ".to_string(), opt_or(&issue.reporter, "Unknown").to_string()));
                right.push(("Assignee: ".to_string(), opt_or(&issue.assignee, "Unassigned").to_string()));
                right.push(("Created: ".to_string(), created));
                right.push(("Updated: ".to_string(), updated));
                Some((left, right))
            },
            None => None,
        }
    }

    /// The lines of the shown issue's description, where an issue is shown.
    pub fn description_lines(&self) -> (r: Option<Vec<String>>)
        ensures
            r is Some <==> self.issue is Some,
            r matches Some(v) ==> v@.len() == description_lines_seq(self.issue->0.description)
                .len() && forall|i: int| 0 <= i < v@.len() ==> (#[trigger] v@[i])@
                == description_lines_seq(self.issue->0.description)[i],
    {
        match &self.issue {
            Some(issue) => {
                let text = parse_description(issue.description.as_ref());
                let l = lines(text.as_str());
                if l.len() == 0 {
                    let mut v: Vec<String> = Vec::new();
                    v.push("No description available".to_string());
                    Some(v)
                } else {
                    Some(l)
                }
            },
            None => None,
        }
    }
}

impl Default for IssueDetail {
    fn default() -> (r: Self)
        ensures
            r.issue is None,
            r.scroll_offset == 0,
            !r.focused,
            r.selected_field == DetailField::Key,
            !r.edit_mode,
    {
        IssueDetail::new()
    }
}

} // verus!
