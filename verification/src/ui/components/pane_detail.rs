//! The detail pane of the first interface: the selected issue's fields and description.
use vstd::prelude::*;
use crate::models::{AppData, JiraIssue};
use crate::navigation::{FocusedPane, NavigationState};
use crate::text::{is_blank_str, lines, lines_seq, trim_seq};
use crate::time::{Timestamp, format_minutes_labelled, or_empty, utc_minutes_labelled};
use crate::ui::{opt_or, text_or};
use crate::ui::lines::{TextLine, Tone, blank, line1, lines_view, push_line};

verus! {

/// The detail pane: the issue it shows, if any, and whether it has the focus.
#[derive(Debug, Clone)]
pub struct IssueDetail<'a> {
    pub issue: Option<&'a JiraIssue>,
    pub is_focused: bool,
}

/// The lines of an issue's fields: the key, then each field under its heading.
pub open spec fn content_spec(issue: JiraIssue) -> Seq<Seq<(Tone, Seq<char>)>> {
    seq![
        seq![(Tone::Accent, issue.key@)],
        seq![(Tone::Plain, Seq::<char>::empty())],
        seq![(Tone::Heading, "Summary:"@)],
        seq![(Tone::Plain, issue.summary@)],
        seq![(Tone::Plain, Seq::<char>::empty())],
        seq![(Tone::Heading, "Status:"@)],
        seq![(Tone::Status, issue.status@)],
        seq![(Tone::Plain, Seq::<char>::empty())],
        seq![(Tone::Heading, "Type:"@)],
        seq![(Tone::Plain, issue.issue_type@)],
        seq![(Tone::Plain, Seq::<char>::empty())],
        seq![(Tone::Heading, "Priority:"@)],
        seq![(Tone::Plain, text_or(issue.priority, "None"@))],
        seq![(Tone::Plain, Seq::<char>::empty())],
        seq![(Tone::Heading, "Assignee:"@)],
        seq![(Tone::Plain, text_or(issue.assignee, "Unassigned"@))],
        seq![(Tone::Plain, Seq::<char>::empty())],
        seq![(Tone::Heading, "Reporter:"@)],
        seq![(Tone::Plain, text_or(issue.reporter, "Unknown"@))],
        seq![(Tone::Plain, Seq::<char>::empty())],
        seq![(Tone::Heading, "Created:"@)],
        seq![(Tone::Plain, or_empty(utc_minutes_labelled(issue.created.secs, issue.created.nanos)))],
        seq![(Tone::Plain, Seq::<char>::empty())],
        seq![(Tone::Heading, "Updated:"@)],
        seq![(Tone::Plain, or_empty(utc_minutes_labelled(issue.updated.secs, issue.updated.nanos)))]
    ]
}

/// The lines of an issue's description under its heading: the description's lines, or
/// a line saying there is none where it is missing or blank.
pub open spec fn description_spec(description: Option<String>) -> Seq<Seq<(Tone, Seq<char>)>> {
    let head = seq![seq![(Tone::Plain, Seq::<char>::empty())], seq![(Tone::Heading, "Description:"@)]];
    match description {
        Some(d) => if trim_seq(d@).len() > 0 {
            head + lines_seq(d@).map_values(|l: Seq<char>| seq![(Tone::Plain, l)])
        } else {
            head.push(seq![(Tone::Plain, "No description provided"@)])
        },
        None => head.push(seq![(Tone::Plain, "No description provided"@)]),
    }
}

/// An instant with the `UTC` label, empty where it cannot be written.
fn labelled_date(t: Timestamp) -> (r: String)
    ensures
        r@ == or_empty(utc_minutes_labelled(t.secs, t.nanos)),
{
    match format_minutes_labelled(t) {
        Some(s) => s,
        None => String::new(),
    }
}

impl<'a> IssueDetail<'a> {
    /// The pane for the data's selected issue, focused where the navigation focuses it.
    pub fn new(app_data: &'a AppData, nav_state: &NavigationState) -> (r: Self)
        ensures
            r.issue == (match app_data.selected_issue {
                Some(i) => Some(&i),
                None => None,
            }),
            r.is_focused == (nav_state.focused_pane == FocusedPane::Detail),
    {
        IssueDetail {
            issue: match &app_data.selected_issue {
                Some(i) => Some(i),
                None => None,
            },
            is_focused: nav_state.focused_pane == FocusedPane::Detail,
        }
    }

    /// The pane for a given issue.
    pub fn with_issue(issue: Option<&'a JiraIssue>, is_focused: bool) -> (r: Self)
        ensures
            r.issue == issue && r.is_focused == is_focused,
    {
        IssueDetail { issue, is_focused }
    }

    /// The lines of an issue's fields.
    pub fn create_content_lines(&self, issue: &JiraIssue) -> (r: Vec<TextLine>)
        ensures
            lines_view(r@) == content_spec(*issue),
    {
        let created = labelled_date(issue.created);
        let updated = labelled_date(issue.updated);
        let mut v: Vec<TextLine> = Vec::new();
        push_line(&mut v, line1(Tone::Accent, issue.key.as_str()));
        push_line(&mut v, blank());
        push_line(&mut v, line1(Tone::Heading, "Summary:"));
        push_line(&mut v, line1(Tone::Plain, issue.summary.as_str()));
        push_line(&mut v, blank());
        push_line(&mut v, line1(Tone::Heading, "Status:"));
        push_line(&mut v, line1(Tone::Status, issue.status.as_str()));
        push_line(&mut v, blank());
        push_line(&mut v, line1(Tone::Heading, "Type:"));
        push_line(&mut v, line1(Tone::Plain, issue.issue_type.as_str()));
        push_line(&mut v, blank());
        push_line(&mut v, line1(Tone::Heading, "Priority:"));
        push_line(&mut v, line1(Tone::Plain, opt_or(&issue.priority, "None")));
        push_line(&mut v, blank());
        push_line(&mut v, line1(Tone::Heading, "Assignee:"));
        push_line(&mut v, line1(Tone::Plain, opt_or(&issue.assignee, "Unassigned")));
        push_line(&mut v, blank());
        push_line(&mut v, line1(Tone::Heading, "Reporter:"));
        push_line(&mut v, line1(Tone::Plain, opt_or(&issue.reporter, "Unknown")));
        push_line(&mut v, blank());
        push_line(&mut v, line1(Tone::Heading, "Created:"));
        push_line(&mut v, line1(Tone::Plain, created.as_str()));
        push_line(&mut v, blank());
        push_line(&mut v, line1(Tone::Heading, "Updated:"));
        push_line(&mut v, line1(Tone::Plain, updated.as_str()));
        assert(lines_view(v@) =~= content_spec(*issue));
        v
    }

    /// Appends the lines of an issue's description.
    pub fn add_description_lines(&self, out: &mut Vec<TextLine>, issue: &JiraIssue)
        ensures
            lines_view(final(out)@) == lines_view(old(out)@) + description_spec(issue.description),
    {
        let ghost start = lines_view(out@);
        push_line(out, blank());
        push_line(out, line1(Tone::Heading, "Description:"));
        let ghost head = lines_view(out@);
        assert(head =~= start + seq![seq![(Tone::Plain, Seq::<char>::empty())], seq![(Tone::Heading, "Description:"@)]]);
        match &issue.description {
            Some(d) => {
                if !is_blank_str(d.as_str()) {
                    let ls = lines(d.as_str());
                    let mut i: usize = 0;
                    while i < ls.len()
                        invariant
                            i <= ls@.len(),
                            ls@.len() == lines_seq(d@).len(),
                            forall|k: int| 0 <= k < ls@.len() ==> (#[trigger] ls@[k])@ == lines_seq(d@)[k],
                            lines_view(out@) == head + lines_seq(d@).subrange(0, i as int).map_values(
                                |l: Seq<char>| seq![(Tone::Plain, l)],
                            ),
                        decreases ls.len() - i,
                    {
                        push_line(out, line1(Tone::Plain, ls[i].as_str()));
                        proof {
                            assert(lines_seq(d@).subrange(0, i + 1) == lines_seq(d@).subrange(0, i as int).push(
                                lines_seq(d@)[i as int],
                            ));
                            assert(lines_view(out@) =~= head + lines_seq(d@).subrange(0, i + 1).map_values(
                                |l: Seq<char>| seq![(Tone::Plain, l)],
                            ));
                        }
                        i = i + 1;
                    }
                    assert(lines_seq(d@).subrange(0, ls@.len() as int) == lines_seq(d@));
                    assert(lines_view(out@) =~= start + description_spec(issue.description));
                } else {
                    push_line(out, line1(Tone::Plain, "No description provided"));
                    assert(lines_view(out@) =~= start + description_spec(issue.description));
                }
            },
            None => {
                push_line(out, line1(Tone::Plain, "No description provided"));
                assert(lines_view(out@) =~= start + description_spec(issue.description));
            },
        }
    }

    /// All lines of the pane for its issue, where it has one.
    pub fn lines(&self) -> (r: Option<Vec<TextLine>>)
        ensures
            r is Some <==> self.issue is Some,
            r matches Some(v) ==> lines_view(v@) == content_spec(*self.issue->0) + description_spec(
                self.issue->0.description,
            ),
    {
        match self.issue {
            Some(issue) => {
                let mut v = self.create_content_lines(issue);
                self.add_description_lines(&mut v, issue);
                Some(v)
            },
            None => None,
        }
    }
}

} // verus!
