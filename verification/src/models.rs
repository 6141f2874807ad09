//! The issue data of the first interface: issues with plain-text descriptions, sprints,
//! and everything the panes show.
use vstd::prelude::*;
use crate::time::{Timestamp, utc_now};

verus! {

/// One issue, its description already turned into text.
#[derive(Debug, PartialEq)]
pub struct JiraIssue {
    pub key: String,
    pub summary: String,
    pub description: Option<String>,
    pub status: String,
    pub priority: Option<String>,
    pub assignee: Option<String>,
    pub reporter: Option<String>,
    pub created: Timestamp,
    pub updated: Timestamp,
    pub issue_type: String,
}

/// A copy of an optional text, equal to it.
pub fn copy_text(t: &Option<String>) -> (r: Option<String>)
    ensures
        r == *t,
{
    match t {
        Some(s) => Some(s.clone()),
        None => None,
    }
}

impl Clone for JiraIssue {
    /// A copy of this issue, equal to it.
    fn clone(&self) -> (r: Self)
        ensures
            r == *self,
    {
        JiraIssue {
            key: self.key.clone(),
            summary: self.summary.clone(),
            description: copy_text(&self.description),
            status: self.status.clone(),
            priority: copy_text(&self.priority),
            assignee: copy_text(&self.assignee),
            reporter: copy_text(&self.reporter),
            created: self.created,
            updated: self.updated,
            issue_type: self.issue_type.clone(),
        }
    }
}

/// Copies of `v`'s issues, equal to them, in order.
pub fn copy_issues(v: &[JiraIssue]) -> (r: Vec<JiraIssue>)
    ensures
        r@ == v@,
{
    let mut out: Vec<JiraIssue> = Vec::new();
    let mut i: usize = 0;
    while i < v.len()
        invariant
            i <= v@.len(),
            out@ == v@.subrange(0, i as int),
        decreases v.len() - i,
    {
        out.push(v[i].clone());
        assert(v@.subrange(0, i + 1) == v@.subrange(0, i as int).push(v@[i as int]));
        i = i + 1;
    }
    assert(v@.subrange(0, v@.len() as int) == v@);
    out
}

/// A sprint and its issues.
#[derive(Debug)]
pub struct Sprint {
    pub id: String,
    pub name: String,
    pub state: String,
    pub start_date: Option<Timestamp>,
    pub end_date: Option<Timestamp>,
    pub issues: Vec<JiraIssue>,
}

impl Clone for Sprint {
    /// A copy of this sprint: equal texts and dates, and equal issues in order.
    fn clone(&self) -> (r: Self)
        ensures
            r.id == self.id && r.name == self.name && r.state == self.state,
            r.start_date == self.start_date && r.end_date == self.end_date,
            r.issues@ == self.issues@,
    {
        Sprint {
            id: self.id.clone(),
            name: self.name.clone(),
            state: self.state.clone(),
            start_date: self.start_date,
            end_date: self.end_date,
            issues: copy_issues(self.issues.as_slice()),
        }
    }
}

/// The answer of a JQL search.
#[derive(Debug)]
pub struct SearchResponse {
    pub issues: Vec<JiraIssue>,
}

/// What the panes show: the current sprint, the board's and the recently updated
/// issues, the selected issue, and when the data was last refreshed.
#[derive(Debug)]
pub struct AppData {
    pub current_sprint: Option<Sprint>,
    pub board_issues: Vec<JiraIssue>,
    pub last_updated_issues: Vec<JiraIssue>,
    pub selected_issue: Option<JiraIssue>,
    pub loading: bool,
    pub last_updated: Option<Timestamp>,
}

impl Clone for AppData {
    /// A copy of this data: equal issues in order, equal sprint texts and issues, equal
    /// selection and flags.
    fn clone(&self) -> (r: Self)
        ensures
            r.board_issues@ == self.board_issues@,
            r.last_updated_issues@ == self.last_updated_issues@,
            r.selected_issue == self.selected_issue,
            r.loading == self.loading,
            r.last_updated == self.last_updated,
            r.current_sprint is Some <==> self.current_sprint is Some,
            r.current_sprint matches Some(s) ==> s.issues@ == self.current_sprint->0.issues@
                && s.name == self.current_sprint->0.name && s.id == self.current_sprint->0.id
                && s.state == self.current_sprint->0.state
                && s.start_date == self.current_sprint->0.start_date
                && s.end_date == self.current_sprint->0.end_date,
    {
        AppData {
            current_sprint: match &self.current_sprint {
                Some(s) => Some(s.clone()),
                None => None,
            },
            board_issues: copy_issues(self.board_issues.as_slice()),
            last_updated_issues: copy_issues(self.last_updated_issues.as_slice()),
            selected_issue: match &self.selected_issue {
                Some(i) => Some(i.clone()),
                None => None,
            },
            loading: self.loading,
            last_updated: self.last_updated,
        }
    }
}

/// Whether `i` is a mock issue with these texts, made at `now`.
pub open spec fn mock_issue_is(
    i: JiraIssue,
    now: Timestamp,
    key: Seq<char>,
    summary: Seq<char>,
    status: Seq<char>,
    priority: Seq<char>,
    issue_type: Seq<char>,
) -> bool {
    &&& i.key@ == key
    &&& i.summary@ == summary
    &&& i.status@ == status
    &&& i.priority matches Some(p) && p@ == priority
    &&& i.issue_type@ == issue_type
    &&& i.description is Some && i.assignee is Some && i.reporter is Some
    &&& i.created == now && i.updated == now
}

/// Whether `r` is the sample data made at `now`: three issues in an active sprint, the
/// first two on the board, the last two recently updated, the first selected.
pub open spec fn is_mock_data(r: AppData, now: Timestamp) -> bool {
    &&& r.current_sprint matches Some(s) && s.issues@.len() == 3 && s.id@ == "SP-001"@
        && s.name@ == "Sprint 1"@ && s.state@ == "Active"@ && s.start_date == Some(now)
        && s.end_date == Some(now)
    &&& mock_issue_is(r.current_sprint->0.issues@[0], now, "PROJ-123"@, "Implement user authentication"@,
        "In Progress"@, "High"@, "Story"@)
    &&& mock_issue_is(r.current_sprint->0.issues@[1], now, "PROJ-124"@, "Fix login bug on mobile devices"@,
        "To Do"@, "Medium"@, "Bug"@)
    &&& mock_issue_is(r.current_sprint->0.issues@[2], now, "PROJ-125"@, "Update API documentation"@,
        "Done"@, "Low"@, "Task"@)
    &&& r.board_issues@ == r.current_sprint->0.issues@.subrange(0, 2)
    &&& r.last_updated_issues@ == r.current_sprint->0.issues@.subrange(1, 3)
    &&& r.selected_issue == Some(r.current_sprint->0.issues@[0])
    &&& !r.loading
    &&& r.last_updated == Some(now)
}

/// Builds one mock issue.
fn mock_issue(
    key: &str,
    summary: &str,
    description: &str,
    status: &str,
    priority: &str,
    assignee: &str,
    reporter: &str,
    now: Timestamp,
    issue_type: &str,
) -> (r: JiraIssue)
    ensures
        r.key@ == key@ && r.summary@ == summary@ && r.status@ == status@,
        r.description matches Some(d) && d@ == description@,
        r.priority matches Some(p) && p@ == priority@,
        r.assignee matches Some(a) && a@ == assignee@,
        r.reporter matches Some(x) && x@ == reporter@,
        r.created == now && r.updated == now,
        r.issue_type@ == issue_type@,
{
    JiraIssue {
        key: key.to_string(),
        summary: summary.to_string(),
        description: Some(description.to_string()),
        status: status.to_string(),
        priority: Some(priority.to_string()),
        assignee: Some(assignee.to_string()),
        reporter: Some(reporter.to_string()),
        created: now,
        updated: now,
        issue_type: issue_type.to_string(),
    }
}

impl AppData {
    /// No data: no sprint, no issues, nothing selected, not loading, never refreshed.
    pub fn new() -> (r: Self)
        ensures
            r.current_sprint is None,
            r.board_issues@.len() == 0,
            r.last_updated_issues@.len() == 0,
            r.selected_issue is None,
            !r.loading,
            r.last_updated is None,
    {
        AppData {
            current_sprint: None,
            board_issues: Vec::new(),
            last_updated_issues: Vec::new(),
            selected_issue: None,
            loading: false,
            last_updated: None,
        }
    }

    /// Sample data made at `now`: three issues in an active sprint, the first two on the
    /// board, the last two recently updated, the first selected.
    pub fn with_mock_data_at(now: Timestamp) -> (r: Self)
        ensures
            is_mock_data(r, now),
    {
        let mut mock_issues: Vec<JiraIssue> = Vec::new();
        mock_issues.push(mock_issue(
            "PROJ-123",
            "Implement user authentication",
            "Add OAuth 2.0 authentication for the application",
            "In Progress",
            "High",
            "john.doe@example.com",
            "jane.smith@example.com",
            now,
            "Story",
        ));
        mock_issues.push(mock_issue(
            "PROJ-124",
            "Fix login bug on mobile devices",
            "Users cannot log in on mobile Safari",
            "To Do",
            "Medium",
            "alice.johnson@example.com",
            "bob.wilson@example.com",
            now,
            "Bug",
        ));
        mock_issues.push(mock_issue(
            "PROJ-125",
            "Update API documentation",
            "Add examples for new endpoints",
            "Done",
            "Low",
            "charlie.brown@example.com",
            "diana.prince@example.com",
            now,
            "Task",
        ));
        let board_issues = copy_issues(&mock_issues.as_slice()[0..2]);
        let last_updated_issues = copy_issues(&mock_issues.as_slice()[1..3]);
        let selected = mock_issues[0].clone();
        let current_sprint = Some(Sprint {
            id: "SP-001".to_string(),
            name: "Sprint 1".to_string(),
            state: "Active".to_string(),
            start_date: Some(now),
            end_date: Some(now),
            issues: mock_issues,
        });
        AppData {
            current_sprint,
            board_issues,
            last_updated_issues,
            selected_issue: Some(selected),
            loading: false,
            last_updated: Some(now),
        }
    }

    /// Sample data made now.
    pub fn with_mock_data() -> (r: Self)
        ensures
            exists|now: Timestamp| is_mock_data(r, now),
    {
        let now = utc_now();
        AppData::with_mock_data_at(now)
    }
}

} // verus!
