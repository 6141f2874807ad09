//! The text of one issue as a row of a list: its key, its summary cut to the width,
//! and in full mode a line of details.
use vstd::prelude::*;
use crate::services::types::{JiraIssue, JiraIssueRef};
use crate::text::{concat3, push_char, str_chars, string_from_range};
use crate::ui::components::issue_list::icons::{PriorityIcons, icon_for};

verus! {

/// How much of an issue a row shows.
#[derive(Debug, Clone, Copy, PartialEq, Eq, Structural)]
pub enum IssueItemMode {
    Full,
    Summary,
}

/// `s` cut to `max` characters: longer texts keep `max - 1` characters and end in `…`.
pub open spec fn truncated(s: Seq<char>, max: nat) -> Seq<char> {
    if s.len() > max {
        s.take(if max >= 1 { max - 1 } else { 0 }).push('…')
    } else {
        s
    }
}

/// `s` cut to `max` characters with a trailing `…` where it is longer.
pub fn truncate_text(text: &str, max_length: usize) -> (r: String)
    ensures
        r@ == truncated(text@, max_length as nat),
{
    let chars = str_chars(text);
    if chars.len() > max_length {
        let keep = max_length.saturating_sub(1);
        let mut s = string_from_range(chars.as_slice(), 0, keep);
        push_char(&mut s, '…');
        s
    } else {
        text.to_string()
    }
}

/// The `[KEY] ` part of a row.
pub open spec fn key_part_text(key: Seq<char>) -> Seq<char> {
    "["@ + key + "] "@
}

/// How many characters of summary fit in a row of `width` columns after the key part.
pub open spec fn summary_room(width: u16, key_part: Seq<char>) -> nat {
    let available: int = if width >= 3 { width - 3 } else { 0 };
    if available >= key_part.len() {
        (available - key_part.len()) as nat
    } else {
        0
    }
}

/// `text`, or `fallback` where there is none.
pub open spec fn or_text(text: Option<String>, fallback: Seq<char>) -> Seq<char> {
    match text {
        Some(t) => t@,
        None => fallback,
    }
}

/// The details line of an issue: type, status, priority icon and name, assignee.
pub open spec fn issue_details_text(issue: JiraIssue, icon: char) -> Seq<char> {
    issue.issue_type@ + " | "@ + issue.status@ + " | "@ + seq![icon] + " "@ + or_text(
        issue.priority,
        "N/A"@,
    ) + " | "@ + or_text(issue.assignee, "N/A"@)
}

/// The text of a row: the key part and the cut summary, both shown bold, and in
/// full mode a dim details line followed by an empty line.
#[derive(Debug, Clone, PartialEq)]
pub struct IssueItemText {
    pub key_part: String,
    pub summary: String,
    pub details: Option<String>,
}

/// Appends `text` or `fallback`.
fn push_or(out: &mut String, text: &Option<String>, fallback: &str)
    ensures
        final(out)@ == old(out)@ + or_text(*text, fallback@),
{
    match text {
        Some(t) => out.append(t.as_str()),
        None => out.append(fallback),
    }
}

/// The details line of an issue.
pub fn issue_details_line(issue: &JiraIssue, icon: char) -> (r: String)
    ensures
        r@ == issue_details_text(*issue, icon),
{
    let mut r = String::new();
    r.append(issue.issue_type.as_str());
    r.append(" | ");
    r.append(issue.status.as_str());
    r.append(" | ");
    push_char(&mut r, icon);
    r.append(" ");
    push_or(&mut r, &issue.priority, "N/A");
    r.append(" | ");
    push_or(&mut r, &issue.assignee, "N/A");
    r
}

/// The key part of a row and its summary cut to the room left in `width` columns.
fn key_and_summary(key: &str, summary: &str, width: u16) -> (r: (String, String))
    ensures
        r.0@ == key_part_text(key@),
        r.1@ == truncated(summary@, summary_room(width, key_part_text(key@))),
{
    let key_part = concat3("[", key, "] ");
    let available = width.saturating_sub(3) as usize;
    let summary_max = available.saturating_sub(key_part.as_str().unicode_len());
    let s = truncate_text(summary, summary_max);
    (key_part, s)
}

/// Renders issues and issue references as list rows.
#[derive(Debug, Clone, Copy)]
pub struct IssueItemRenderer {
    pub priority_icons: PriorityIcons,
}

impl IssueItemRenderer {
    /// A renderer with the given priority icons.
    pub fn new(priority_icons: PriorityIcons) -> (r: Self)
        ensures
            r.priority_icons == priority_icons,
    {
        IssueItemRenderer { priority_icons }
    }

    /// The row of an issue in `available_width` columns.
    pub fn render_issue(&self, issue: &JiraIssue, mode: IssueItemMode, available_width: u16) -> (r: IssueItemText)
        ensures
            r.key_part@ == key_part_text(issue.key@),
            r.summary@ == truncated(issue.summary@, summary_room(available_width, key_part_text(issue.key@))),
            mode == IssueItemMode::Summary ==> r.details is None,
            mode == IssueItemMode::Full ==> (r.details matches Some(d) && d@ == issue_details_text(
                *issue,
                icon_for(
                    self.priority_icons,
                    match issue.priority {
                        Some(p) => Some(p@),
                        None => None,
                    },
                ),
            )),
    {
        let (key_part, summary) = key_and_summary(issue.key.as_str(), issue.summary.as_str(), available_width);
        let details = match mode {
            IssueItemMode::Full => {
                let icon = self.priority_icons.get_icon(issue.priority.as_ref());
                Some(issue_details_line(issue, icon))
            },
            IssueItemMode::Summary => None,
        };
        IssueItemText { key_part, summary, details }
    }

    /// The row of an issue reference in `available_width` columns: its summary or
    /// `No summary`, and in full mode its type or `Unknown`.
    pub fn render_issue_ref(&self, issue_ref: &JiraIssueRef, mode: IssueItemMode, available_width: u16) -> (r: IssueItemText)
        ensures
            r.key_part@ == key_part_text(issue_ref.key@),
            r.summary@ == truncated(
                or_text(issue_ref.summary, "No summary"@),
                summary_room(available_width, key_part_text(issue_ref.key@)),
            ),
            mode == IssueItemMode::Summary ==> r.details is None,
            mode == IssueItemMode::Full ==> (r.details matches Some(d) && d@ == or_text(
                issue_ref.issue_type,
                "Unknown"@,
            )),
    {
        let summary_text: &str = match &issue_ref.summary {
            Some(s) => s.as_str(),
            None => "No summary",
        };
        let (key_part, summary) = key_and_summary(issue_ref.key.as_str(), summary_text, available_width);
        let details = match mode {
            IssueItemMode::Full => {
                let mut d = String::new();
                push_or(&mut d, &issue_ref.issue_type, "Unknown");
                Some(d)
            },
            IssueItemMode::Summary => None,
        };
        IssueItemText { key_part, summary, details }
    }
}

} // verus!
