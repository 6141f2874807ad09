//! The shapes of the REST API's answers and their conversion into the issue data of the
//! first interface.
use vstd::prelude::*;
use crate::api::adf::{AdfDocument, doc_fmt, doc_plain};
use crate::json::{JsonValue, json_text};
use crate::models::{JiraIssue, Sprint};
use crate::text::{copy_opt_text, decimal_seq, is_blank_str, opt_text, trim_seq, u64_to_decimal};
use crate::time::{Timestamp, parse_utc, parsed_utc, instant, utc_now};

verus! {

/// The envelope of a list answer.
#[derive(Debug)]
pub struct JiraApiResponse<T> {
    pub issues: Option<Vec<T>>,
    pub values: Option<Vec<T>>,
    pub total: Option<u32>,
    pub start_at: Option<u32>,
    pub max_results: Option<u32>,
}

/// An issue as the API sends it.
#[derive(Debug)]
pub struct JiraIssueApi {
    pub key: String,
    pub fields: JiraIssueFields,
}

/// The fields of an issue as the API sends them.
#[derive(Debug)]
pub struct JiraIssueFields {
    pub summary: String,
    pub description: Option<JiraDescription>,
    pub status: JiraStatus,
    pub priority: Option<JiraPriority>,
    pub assignee: Option<JiraUser>,
    pub reporter: Option<JiraUser>,
    pub created: String,
    pub updated: String,
    pub issuetype: JiraIssueType,
}

/// A description: an ADF document, or text where it came as text or could not be read.
#[derive(Debug)]
pub struct JiraDescription {
    pub adf: Option<AdfDocument>,
    pub content: Option<String>,
}

/// The description read from the JSON value of the `description` field, given what the
/// ADF reader made of an object value: text stays text, a readable object is a document,
/// an unreadable one is `"Unknown format"`, and any other value keeps its JSON text.
pub open spec fn description_of(value: Option<JsonValue>, adf_ok: bool) -> Option<(bool, Option<Seq<char>>)> {
    match value {
        None => None,
        Some(JsonValue::String(t)) => Some((false, Some(t@))),
        Some(JsonValue::Object(_)) => if adf_ok {
            Some((true, None))
        } else {
            Some((false, Some("Unknown format"@)))
        },
        Some(v) => Some((false, Some(json_text(v)))),
    }
}

/// Reads the `description` field from its JSON value. `adf` is what reading that value
/// as an ADF document gave, where it is an object.
pub fn deserialize_description(value: Option<JsonValue>, adf: Option<AdfDocument>) -> (r: Option<JiraDescription>)
    ensures
        ({
            let e = description_of(value, adf is Some);
            &&& r is Some <==> e is Some
            &&& r matches Some(d) ==> e matches Some(p) && (d.adf is Some) == p.0 && opt_text(d.content) == p.1
            &&& r matches Some(d) ==> (d.adf matches Some(a) ==> adf == Some(a))
        }),
{
    match value {
        None => None,
        Some(JsonValue::String(text)) => Some(JiraDescription { adf: None, content: Some(text) }),
        Some(JsonValue::Object(m)) => match adf {
            Some(doc) => Some(JiraDescription { adf: Some(doc), content: None }),
            None => Some(JiraDescription { adf: None, content: Some("Unknown format".to_string()) }),
        },
        Some(v) => {
            let t = v.to_json_string();
            Some(JiraDescription { adf: None, content: Some(t) })
        },
    }
}

/// The text of a description: the document's text where it is not blank, else the
/// text content.
pub open spec fn description_text_with(d: JiraDescription, doc_text: spec_fn(AdfDocument) -> Seq<char>) -> Option<Seq<char>> {
    match d.adf {
        Some(a) => if trim_seq(doc_text(a)).len() > 0 {
            Some(doc_text(a))
        } else {
            opt_text(d.content)
        },
        None => opt_text(d.content),
    }
}

impl JiraDescription {
    /// The marked-up text of the description (its document's, where that is not
    /// blank), else its text content.
    pub fn to_text(&self) -> (r: Option<String>)
        ensures
            opt_text(r) == description_text_with(*self, |a: AdfDocument| doc_fmt(a)),
    {
        match &self.adf {
            Some(adf) => {
                let text = adf.to_formatted_text();
                if !is_blank_str(text.as_str()) {
                    return Some(text);
                }
            },
            None => {},
        }
        copy_opt_text(&self.content)
    }

    /// The plain text of the description (its document's, where that is not blank),
    /// else its text content.
    pub fn to_plain_text(&self) -> (r: Option<String>)
        ensures
            opt_text(r) == description_text_with(*self, |a: AdfDocument| doc_plain(a)),
    {
        match &self.adf {
            Some(adf) => {
                let text = adf.to_plain_text();
                if !is_blank_str(text.as_str()) {
                    return Some(text);
                }
            },
            None => {},
        }
        copy_opt_text(&self.content)
    }
}

/// An issue's status.
#[derive(Debug, Clone)]
pub struct JiraStatus {
    pub name: String,
}

/// An issue's priority.
#[derive(Debug)]
pub struct JiraPriority {
    pub name: String,
}

/// A Jira user.
#[derive(Debug)]
pub struct JiraUser {
    pub display_name: String,
    pub email_address: Option<String>,
}

/// An issue's type.
#[derive(Debug)]
pub struct JiraIssueType {
    pub name: String,
}

/// A sprint as the API sends it.
#[derive(Debug)]
pub struct JiraSprintApi {
    pub id: u32,
    pub name: String,
    pub state: String,
    pub start_date: Option<String>,
    pub end_date: Option<String>,
}

/// The transitions of an issue.
#[derive(Debug)]
pub struct JiraTransitionsResponse {
    pub transitions: Vec<JiraTransition>,
}

/// A transition of an issue's workflow and the status it leads to.
#[derive(Debug, Clone)]
pub struct JiraTransition {
    pub id: String,
    pub name: String,
    pub to: JiraStatus,
}

/// The body of a request to perform a transition.
#[derive(Debug)]
pub struct JiraTransitionRequest {
    pub transition: JiraTransitionRequestTransition,
}

/// The transition named in such a request.
#[derive(Debug)]
pub struct JiraTransitionRequestTransition {
    pub id: String,
}

impl JiraTransitionRequest {
    /// The request to perform transition `id`.
    pub fn for_transition(id: &str) -> (r: Self)
        ensures
            r.transition.id@ == id@,
    {
        JiraTransitionRequest { transition: JiraTransitionRequestTransition { id: id.to_string() } }
    }
}

/// The e-mail address of an optional user.
pub open spec fn user_email(u: Option<JiraUser>) -> Option<String> {
    match u {
        Some(x) => x.email_address,
        None => None,
    }
}

/// The instant read from `s`, or `fallback`.
pub open spec fn instant_or(s: Seq<char>, fallback: Timestamp) -> Timestamp {
    match parsed_utc(s) {
        Some(p) => instant(p),
        None => fallback,
    }
}

/// Whether `r` is `api` taken over as an issue of the first interface, with `now` for a
/// date that cannot be read: the description's marked-up text, people by e-mail address.
pub open spec fn converted_issue(r: JiraIssue, api: JiraIssueApi, now: Timestamp) -> bool {
    &&& r.key == api.key
    &&& r.summary == api.fields.summary
    &&& opt_text(r.description) == match api.fields.description {
        Some(d) => description_text_with(d, |a: AdfDocument| doc_fmt(a)),
        None => None,
    }
    &&& r.status == api.fields.status.name
    &&& r.priority == (match api.fields.priority {
        Some(p) => Some(p.name),
        None => None,
    })
    &&& r.assignee == user_email(api.fields.assignee)
    &&& r.reporter == user_email(api.fields.reporter)
    &&& r.created == instant_or(api.fields.created@, now)
    &&& r.updated == instant_or(api.fields.updated@, now)
    &&& r.issue_type == api.fields.issuetype.name
}

fn email_of(u: Option<JiraUser>) -> (r: Option<String>)
    ensures
        r == user_email(u),
{
    match u {
        Some(x) => x.email_address,
        None => None,
    }
}

fn instant_from(s: &str, fallback: Timestamp) -> (r: Timestamp)
    ensures
        r == instant_or(s@, fallback),
{
    match parse_utc(s) {
        Some(t) => t,
        None => fallback,
    }
}

impl JiraIssue {
    /// The issue that `api` describes, with `now` for a date that cannot be read.
    pub fn from_api_at(api: JiraIssueApi, now: Timestamp) -> (r: JiraIssue)
        ensures
            converted_issue(r, api, now),
    {
        let fields = api.fields;
        let description = match &fields.description {
            Some(d) => d.to_text(),
            None => None,
        };
        let created = instant_from(fields.created.as_str(), now);
        let updated = instant_from(fields.updated.as_str(), now);
        JiraIssue {
            key: api.key,
            summary: fields.summary,
            description,
            status: fields.status.name,
            priority: match fields.priority {
                Some(p) => Some(p.name),
                None => None,
            },
            assignee: email_of(fields.assignee),
            reporter: email_of(fields.reporter),
            created,
            updated,
            issue_type: fields.issuetype.name,
        }
    }

    /// The issue that `api` describes; a date that cannot be read becomes the current
    /// instant.
    pub fn from_api(api: JiraIssueApi) -> (r: JiraIssue)
        ensures
            exists|now: Timestamp| converted_issue(r, api, now),
    {
        let now = utc_now();
        JiraIssue::from_api_at(api, now)
    }
}

/// The instant read from an optional text.
pub open spec fn instant_opt(s: Option<String>) -> Option<Timestamp> {
    match s {
        Some(t) => match parsed_utc(t@) {
            Some(p) => Some(instant(p)),
            None => None,
        },
        None => None,
    }
}

fn instant_from_opt(s: Option<String>) -> (r: Option<Timestamp>)
    ensures
        r == instant_opt(s),
{
    match s {
        Some(t) => parse_utc(t.as_str()),
        None => None,
    }
}

impl Sprint {
    /// The sprint that `api` describes, with its number as its id and no issues yet.
    pub fn from_api(api: JiraSprintApi) -> (r: Sprint)
        ensures
            r.id@ == decimal_seq(api.id as nat),
            r.name == api.name,
            r.state == api.state,
            r.start_date == instant_opt(api.start_date),
            r.end_date == instant_opt(api.end_date),
            r.issues@.len() == 0,
    {
        Sprint {
            id: u64_to_decimal(api.id as u64),
            name: api.name,
            state: api.state,
            start_date: instant_from_opt(api.start_date),
            end_date: instant_from_opt(api.end_date),
            issues: Vec::new(),
        }
    }

    /// The active sprint of a board with the issues fetched for it; where fetching them
    /// failed, with none.
    pub fn with_fetched_issues(api: JiraSprintApi, issues: Result<Vec<JiraIssue>, crate::api::error::ApiError>) -> (r: Sprint)
        ensures
            r.id@ == decimal_seq(api.id as nat),
            r.name == api.name,
            r.state == api.state,
            r.start_date == instant_opt(api.start_date),
            r.end_date == instant_opt(api.end_date),
            r.issues@ == (match issues {
                Ok(v) => v@,
                Err(_) => Seq::empty(),
            }),
    {
        let mut sprint = Sprint::from_api(api);
        match issues {
            Ok(v) => sprint.issues = v,
            Err(_) => {},
        }
        sprint
    }
}

} // verus!
