//! The interface's state and the text it shows; drawing happens outside this library.
pub mod components;
pub mod lines;

use vstd::prelude::*;
use crate::models::JiraIssue;
use crate::text::{concat3, same_text};
use crate::time::{format_minutes, or_empty, utc_minutes};
use lines::{TextLine, Tone, blank, line1, line2, lines_view, push_line};

verus! {

/// An optional text, or `fallback` where there is none.
pub open spec fn text_or(t: Option<String>, fallback: Seq<char>) -> Seq<char> {
    match t {
        Some(s) => s@,
        None => fallback,
    }
}

/// An optional text, or `fallback`.
pub fn opt_or<'a>(t: &'a Option<String>, fallback: &'a str) -> (r: &'a str)
    ensures
        r@ == text_or(*t, fallback@),
{
    match t {
        Some(s) => s.as_str(),
        None => fallback,
    }
}

/// A formatted instant's text, empty where the instant cannot be written.
fn minutes_text(t: crate::time::Timestamp) -> (r: String)
    ensures
        r@ == or_empty(utc_minutes(t.secs, t.nanos)),
{
    match format_minutes(t) {
        Some(s) => s,
        None => String::new(),
    }
}

/// The colour of a status.
#[derive(Debug, Clone, Copy, PartialEq, Eq, Structural)]
pub enum StatusColor {
    Gray,
    Yellow,
    Green,
    Red,
    White,
}

/// The colour of a status: gray to do, yellow in progress, green done, red blocked,
/// white otherwise.
pub open spec fn status_color_of(s: Seq<char>) -> StatusColor {
    if s == "To Do"@ {
        StatusColor::Gray
    } else if s == "In Progress"@ {
        StatusColor::Yellow
    } else if s == "Done"@ {
        StatusColor::Green
    } else if s == "Blocked"@ {
        StatusColor::Red
    } else {
        StatusColor::White
    }
}

/// The lines of the first interface's detail pane for an issue: each field under its
/// label, with fallbacks for missing ones, and the description last.
pub open spec fn issue_detail_spec(issue: JiraIssue) -> Seq<Seq<(Tone, Seq<char>)>> {
    seq![
        seq![(Tone::Accent, "Key: "@), (Tone::Plain, issue.key@)],
        seq![(Tone::Plain, Seq::<char>::empty())],
        seq![(Tone::Accent, "Summary: "@), (Tone::Plain, issue.summary@)],
        seq![(Tone::Plain, Seq::<char>::empty())],
        seq![(Tone::Accent, "Status: "@), (Tone::Status, issue.status@)],
        seq![(Tone::Plain, Seq::<char>::empty())],
        seq![(Tone::Accent, "Type: "@), (Tone::Plain, issue.issue_type@)],
        seq![(Tone::Plain, Seq::<char>::empty())],
        seq![(Tone::Accent, "Priority: "@), (Tone::Plain, text_or(issue.priority, "None"@))],
        seq![(Tone::Plain, Seq::<char>::empty())],
        seq![(Tone::Accent, "Assignee: "@), (Tone::Plain, text_or(issue.assignee, "Unassigned"@))],
        seq![(Tone::Plain, Seq::<char>::empty())],
        seq![(Tone::Accent, "Reporter: "@), (Tone::Plain, text_or(issue.reporter, "Unknown"@))],
        seq![(Tone::Plain, Seq::<char>::empty())],
        seq![(Tone::Accent, "Created: "@), (Tone::Plain, or_empty(utc_minutes(issue.created.secs, issue.created.nanos)))],
        seq![(Tone::Plain, Seq::<char>::empty())],
        seq![(Tone::Accent, "Updated: "@), (Tone::Plain, or_empty(utc_minutes(issue.updated.secs, issue.updated.nanos)))],
        seq![(Tone::Plain, Seq::<char>::empty())],
        seq![(Tone::Accent, "Description:"@)],
        seq![(Tone::Plain, text_or(issue.description, "No description available"@))]
    ]
}

/// The lines of the first interface's help view.
pub open spec fn help_spec() -> Seq<Seq<(Tone, Seq<char>)>> {
    seq![
        seq![(Tone::Heading, "LazyJira Help"@)],
        seq![(Tone::Plain, Seq::<char>::empty())],
        seq![(Tone::Accent, "Vim-style Navigation:"@)],
        seq![(Tone::Plain, "  h, j, k, l    - Move focus/selection (vim directions)"@)],
        seq![(Tone::Plain, "  H, L          - Move between left and right columns"@)],
        seq![(Tone::Plain, "  Enter         - Select item and focus detail view"@)],
        seq![(Tone::Plain, "  Esc           - Go back from detail to previous pane"@)],
        seq![(Tone::Plain, Seq::<char>::empty())],
        seq![(Tone::Accent, "General:"@)],
        seq![(Tone::Plain, "  q             - Quit application"@)],
        seq![(Tone::Plain, "  ?             - Show/hide this help"@)],
        seq![(Tone::Plain, Seq::<char>::empty())],
        seq![(Tone::Accent, "Panes:"@)],
        seq![(Tone::Plain, "  Sprint        - Current sprint issues"@)],
        seq![(Tone::Plain, "  Last Viewed   - Recently viewed issues"@)],
        seq![(Tone::Plain, "  Last Updated  - Recently updated issues"@)],
        seq![(Tone::Plain, "  Detail        - Selected issue details"@)],
        seq![(Tone::Plain, Seq::<char>::empty())],
        seq![(Tone::Accent, "Tips:"@)],
        seq![(Tone::Plain, "• Use j/k to move up/down within a pane"@)],
        seq![(Tone::Plain, "• Use h/l to move between panes"@)],
        seq![(Tone::Plain, "• Yellow border indicates focused pane"@)],
        seq![(Tone::Plain, "• Press Enter to select an issue and view details"@)],
        seq![(Tone::Plain, "• Press Esc to return from detail view to issue list"@)]
    ]
}

/// The first interface's screen.
#[derive(Debug, Clone, Copy)]
pub struct UI;

impl UI {
    /// The colour of a status.
    pub fn status_color(status: &str) -> (r: StatusColor)
        ensures
            r == status_color_of(status@),
    {
        if same_text(status, "To Do") {
            StatusColor::Gray
        } else if same_text(status, "In Progress") {
            StatusColor::Yellow
        } else if same_text(status, "Done") {
            StatusColor::Green
        } else if same_text(status, "Blocked") {
            StatusColor::Red
        } else {
            StatusColor::White
        }
    }

    /// The footer's text.
    pub fn footer_text() -> (r: &'static str)
        ensures
            r@ == "q: Quit | ?: Help | hjkl: Navigate | Enter: Select & Focus Detail | Esc: Back"@,
    {
        "q: Quit | ?: Help | hjkl: Navigate | Enter: Select & Focus Detail | Esc: Back"
    }

    /// The text of the detail pane when no issue is selected.
    pub fn no_issue_text() -> (r: &'static str)
        ensures
            r@ == "No issue selected\n\nSelect an issue from the left panels to view details here."@,
    {
        "No issue selected\n\nSelect an issue from the left panels to view details here."
    }

    /// A row of the sprint list: `KEY: summary [status]`.
    pub fn sprint_row(issue: &JiraIssue) -> (r: String)
        ensures
            r@ == issue.key@ + ": "@ + issue.summary@ + " ["@ + issue.status@ + "]"@,
    {
        let mut r = concat3(issue.key.as_str(), ": ", issue.summary.as_str());
        r.append(" [");
        r.append(issue.status.as_str());
        r.append("]");
        r
    }

    /// A row of the board and recently updated lists: `KEY: summary`.
    pub fn issue_row(issue: &JiraIssue) -> (r: String)
        ensures
            r@ == issue.key@ + ": "@ + issue.summary@,
    {
        concat3(issue.key.as_str(), ": ", issue.summary.as_str())
    }

    /// The lines of the detail pane for an issue.
    pub fn issue_detail_lines(issue: &JiraIssue) -> (r: Vec<TextLine>)
        ensures
            lines_view(r@) == issue_detail_spec(*issue),
    {
        let created = minutes_text(issue.created);
        let updated = minutes_text(issue.updated);
        let mut v: Vec<TextLine> = Vec::new();
        push_line(&mut v, line2(Tone::Accent, "Key: ", Tone::Plain, issue.key.as_str()));
        push_line(&mut v, blank());
        push_line(&mut v, line2(Tone::Accent, "Summary: ", Tone::Plain, issue.summary.as_str()));
        push_line(&mut v, blank());
        push_line(&mut v, line2(Tone::Accent, "Status: ", Tone::Status, issue.status.as_str()));
        push_line(&mut v, blank());
        push_line(&mut v, line2(Tone::Accent, "Type: ", Tone::Plain, issue.issue_type.as_str()));
        push_line(&mut v, blank());
        push_line(&mut v, line2(Tone::Accent, "Priority: ", Tone::Plain, opt_or(&issue.priority, "None")));
        push_line(&mut v, blank());
        push_line(&mut v, line2(Tone::Accent, "Assignee: ", Tone::Plain, opt_or(&issue.assignee, "Unassigned")));
        push_line(&mut v, blank());
        push_line(&mut v, line2(Tone::Accent, "Reporter: ", Tone::Plain, opt_or(&issue.reporter, "Unknown")));
        push_line(&mut v, blank());
        push_line(&mut v, line2(Tone::Accent, "Created: ", Tone::Plain, created.as_str()));
        push_line(&mut v, blank());
        push_line(&mut v, line2(Tone::Accent, "Updated: ", Tone::Plain, updated.as_str()));
        push_line(&mut v, blank());
        push_line(&mut v, line1(Tone::Accent, "Description:"));
        push_line(&mut v, line1(Tone::Plain, opt_or(&issue.description, "No description available")));
        assert(lines_view(v@) =~= issue_detail_spec(*issue));
        v
    }

    /// The lines of the help view.
    pub fn help_lines() -> (r: Vec<TextLine>)
        ensures
            lines_view(r@) == help_spec(),
    {
        let mut v: Vec<TextLine> = Vec::new();
        push_line(&mut v, line1(Tone::Heading, "LazyJira Help"));
        push_line(&mut v, blank());
        push_line(&mut v, line1(Tone::Accent, "Vim-style Navigation:"));
        push_line(&mut v, line1(Tone::Plain, "  h, j, k, l    - Move focus/selection (vim directions)"));
        push_line(&mut v, line1(Tone::Plain, "  H, L          - Move between left and right columns"));
        push_line(&mut v, line1(Tone::Plain, "  Enter         - Select item and focus detail view"));
        push_line(&mut v, line1(Tone::Plain, "  Esc           - Go back from detail to previous pane"));
        push_line(&mut v, blank());
        push_line(&mut v, line1(Tone::Accent, "General:"));
        push_line(&mut v, line1(Tone::Plain, "  q             - Quit application"));
        push_line(&mut v, line1(Tone::Plain, "  ?             - Show/hide this help"));
        push_line(&mut v, blank());
        push_line(&mut v, line1(Tone::Accent, "Panes:"));
        push_line(&mut v, line1(Tone::Plain, "  Sprint        - Current sprint issues"));
        push_line(&mut v, line1(Tone::Plain, "  Last Viewed   - Recently viewed issues"));
        push_line(&mut v, line1(Tone::Plain, "  Last Updated  - Recently updated issues"));
        push_line(&mut v, line1(Tone::Plain, "  Detail        - Selected issue details"));
        push_line(&mut v, blank());
        push_line(&mut v, line1(Tone::Accent, "Tips:"));
        push_line(&mut v, line1(Tone::Plain, "• Use j/k to move up/down within a pane"));
        push_line(&mut v, line1(Tone::Plain, "• Use h/l to move between panes"));
        push_line(&mut v, line1(Tone::Plain, "• Yellow border indicates focused pane"));
        push_line(&mut v, line1(Tone::Plain, "• Press Enter to select an issue and view details"));
        push_line(&mut v, line1(Tone::Plain, "• Press Esc to return from detail view to issue list"));
        assert(lines_view(v@) =~= help_spec());
        v
    }
}

} // verus!
