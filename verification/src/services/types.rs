//! The issue data of the service layer, the shapes of the API's answers, and the
//! conversion from one to the other.
use vstd::prelude::*;
use crate::json::JsonValue;
use crate::text::{decimal_seq, u64_to_decimal};
use crate::time::{Timestamp, parse_utc, parsed_utc, instant, utc_now};

verus! {

/// One page of a list fetched from Jira, with what is known of the pages after it.
#[derive(Debug)]
pub struct Paginated<T> {
    pub items: Vec<T>,
    pub has_more: bool,
    pub page: usize,
    pub start_at: usize,
    pub max_results: usize,
}

impl<T> Default for Paginated<T> {
    /// An empty page numbered 0, with no more pages.
    fn default() -> (r: Self)
        ensures
            r.items@.len() == 0,
            !r.has_more,
            r.page == 0,
            r.start_at == 0,
            r.max_results == 0,
    {
        Paginated { items: Vec::new(), has_more: false, page: 0, start_at: 0, max_results: 0 }
    }
}

impl<T> Paginated<T> {
    /// An empty first page, of the default size of 25.
    pub fn new() -> (r: Self)
        ensures
            r.items@.len() == 0,
            !r.has_more,
            r.page == 1,
            r.start_at == 0,
            r.max_results == 25,
    {
        Paginated { items: Vec::new(), has_more: false, page: 1, start_at: 0, max_results: 25 }
    }
}

/// A reference to a related issue (a parent or a subtask).
#[derive(Debug, Clone, PartialEq)]
pub struct JiraIssueRef {
    pub key: String,
    pub summary: Option<String>,
    pub issue_type: Option<String>,
}

/// One issue as the interface shows it.
#[derive(Debug, Clone, PartialEq)]
pub struct JiraIssue {
    pub key: String,
    pub summary: String,
    pub description: Option<JsonValue>,
    pub status: String,
    pub priority: Option<String>,
    pub assignee: Option<String>,
    pub reporter: Option<String>,
    pub created: Timestamp,
    pub updated: Timestamp,
    pub issue_type: String,
    pub parent: Option<JiraIssueRef>,
    pub subtasks: Vec<JiraIssueRef>,
}

impl Default for JiraIssue {
    /// An issue with empty texts, no optional parts, and both dates at the epoch.
    fn default() -> (r: Self)
        ensures
            r.key@.len() == 0 && r.summary@.len() == 0 && r.status@.len() == 0,
            r.issue_type@.len() == 0,
            r.description is None && r.priority is None && r.assignee is None,
            r.reporter is None && r.parent is None,
            r.created == (Timestamp { secs: 0, nanos: 0 }),
            r.updated == (Timestamp { secs: 0, nanos: 0 }),
            r.subtasks@.len() == 0,
    {
        JiraIssue {
            key: String::new(),
            summary: String::new(),
            description: None,
            status: String::new(),
            priority: None,
            assignee: None,
            reporter: None,
            created: Timestamp::epoch(),
            updated: Timestamp::epoch(),
            issue_type: String::new(),
            parent: None,
            subtasks: Vec::new(),
        }
    }
}

/// A sprint and the issues in it.
#[derive(Debug, Clone)]
pub struct Sprint {
    pub id: String,
    pub name: String,
    pub state: String,
    pub start_date: Option<Timestamp>,
    pub end_date: Option<Timestamp>,
    pub issues: Vec<JiraIssue>,
}

/// The envelope of a list answer: issues or values, with paging figures.
#[derive(Debug)]
pub struct JiraApiResponse<T> {
    pub issues: Option<Vec<T>>,
    pub values: Option<Vec<T>>,
    pub total: Option<u32>,
    pub start_at: Option<u32>,
    pub max_results: Option<u32>,
}

/// An issue as the API sends it.
#[derive(Debug)]
pub struct JiraIssueApi {
    pub key: String,
    pub fields: JiraIssueFields,
}

/// The fields of an issue as the API sends them; dates are still text.
#[derive(Debug)]
pub struct JiraIssueFields {
    pub summary: String,
    pub description: Option<JsonValue>,
    pub status: JiraStatus,
    pub priority: Option<JiraPriority>,
    pub assignee: Option<JiraUser>,
    pub reporter: Option<JiraUser>,
    pub created: String,
    pub updated: String,
    pub issuetype: JiraIssueType,
}

/// An issue's status.
#[derive(Debug, Clone)]
pub struct JiraStatus {
    pub name: String,
}

/// An issue's priority.
#[derive(Debug)]
pub struct JiraPriority {
    pub name: String,
}

/// A Jira user.
#[derive(Debug)]
pub struct JiraUser {
    pub display_name: String,
    pub email_address: Option<String>,
}

/// An issue's type.
#[derive(Debug)]
pub struct JiraIssueType {
    pub name: String,
}

/// A sprint as the API sends it.
#[derive(Debug)]
pub struct JiraSprintApi {
    pub id: u32,
    pub name: String,
    pub state: String,
    pub start_date: Option<String>,
    pub end_date: Option<String>,
}

/// The instant read from `s`, or `fallback` where it cannot be read.
pub open spec fn parsed_or(s: Seq<char>, fallback: Timestamp) -> Timestamp {
    match parsed_utc(s) {
        Some(p) => instant(p),
        None => fallback,
    }
}

/// The instant read from `s`, if it can be read.
pub open spec fn parsed_opt(s: Option<String>) -> Option<Timestamp> {
    match s {
        Some(t) => match parsed_utc(t@) {
            Some(p) => Some(instant(p)),
            None => None,
        },
        None => None,
    }
}

/// The name of an optional user.
pub open spec fn user_name(u: Option<JiraUser>) -> Option<String> {
    match u {
        Some(x) => Some(x.display_name),
        None => None,
    }
}

/// Whether `r` is `api` taken over as an issue, with `now` for a date that cannot be
/// read: every text moved across, statuses and people by name, no parent or subtasks.
pub open spec fn converted_issue(r: JiraIssue, api: JiraIssueApi, now: Timestamp) -> bool {
    &&& r.key == api.key
    &&& r.summary == api.fields.summary
    &&& r.description == api.fields.description
    &&& r.status == api.fields.status.name
    &&& r.priority == (match api.fields.priority {
        Some(p) => Some(p.name),
        None => None,
    })
    &&& r.assignee == user_name(api.fields.assignee)
    &&& r.reporter == user_name(api.fields.reporter)
    &&& r.created == parsed_or(api.fields.created@, now)
    &&& r.updated == parsed_or(api.fields.updated@, now)
    &&& r.issue_type == api.fields.issuetype.name
    &&& r.parent is None
    &&& r.subtasks@.len() == 0
}

fn user_display_name(u: Option<JiraUser>) -> (r: Option<String>)
    ensures
        r == user_name(u),
{
    match u {
        Some(x) => Some(x.display_name),
        None => None,
    }
}

fn parse_or(s: &str, fallback: Timestamp) -> (r: Timestamp)
    ensures
        r == parsed_or(s@, fallback),
{
    match parse_utc(s) {
        Some(t) => t,
        None => fallback,
    }
}

fn parse_opt(s: Option<String>) -> (r: Option<Timestamp>)
    ensures
        r == parsed_opt(s),
{
    match s {
        Some(t) => parse_utc(t.as_str()),
        None => None,
    }
}

impl JiraIssue {
    /// The issue that `api` describes, with `now` standing for a date that cannot be read.
    pub fn from_api_at(api: JiraIssueApi, now: Timestamp) -> (r: JiraIssue)
        ensures
            converted_issue(r, api, now),
    {
        let fields = api.fields;
        let created = parse_or(fields.created.as_str(), now);
        let updated = parse_or(fields.updated.as_str(), now);
        JiraIssue {
            key: api.key,
            summary: fields.summary,
            description: fields.description,
            status: fields.status.name,
            priority: match fields.priority {
                Some(p) => Some(p.name),
                None => None,
            },
            assignee: user_display_name(fields.assignee),
            reporter: user_display_name(fields.reporter),
            created,
            updated,
            issue_type: fields.issuetype.name,
            parent: None,
            subtasks: Vec::new(),
        }
    }

    /// The issue that `api` describes; a date that cannot be read becomes the current
    /// instant.
    pub fn from_api(api: JiraIssueApi) -> (r: JiraIssue)
        ensures
            exists|now: Timestamp| converted_issue(r, api, now),
    {
        let now = utc_now();
        JiraIssue::from_api_at(api, now)
    }
}

impl Sprint {
    /// The sprint that `api` describes, with its number as its id, its dates read where
    /// they can be, and no issues yet.
    pub fn from_api(api: JiraSprintApi) -> (r: Sprint)
        ensures
            r.id@ == decimal_seq(api.id as nat),
            r.name == api.name,
            r.state == api.state,
            r.start_date == parsed_opt(api.start_date),
            r.end_date == parsed_opt(api.end_date),
            r.issues@.len() == 0,
    {
        Sprint {
            id: u64_to_decimal(api.id as u64),
            name: api.name,
            state: api.state,
            start_date: parse_opt(api.start_date),
            end_date: parse_opt(api.end_date),
            issues: Vec::new(),
        }
    }
}

} // verus!
