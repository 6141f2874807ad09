//! What the REST client sends to Jira and how it reads the answers. The HTTP exchange
//! happens outside this library.
use vstd::prelude::*;
use crate::api::endpoints::JiraEndpoints;
use crate::api::types::{JiraApiResponse, JiraIssueApi, converted_issue};
use crate::auth::{auth_header_text, basic_auth_header, credentials_fit};
use crate::models::JiraIssue;
use crate::text::trim_trailing_slashes;
use crate::time::Timestamp;

verus! {

/// The query of a JQL search.
#[derive(Debug, Clone)]
pub struct JiraQuery<'a> {
    pub jql: &'a str,
    pub fields: Option<&'a str>,
    pub max_results: Option<usize>,
}

/// The client's fixed part: the site, its auth header and its endpoints.
#[derive(Debug, Clone)]
pub struct JiraClient {
    base_url: String,
    auth_header: String,
    endpoints: JiraEndpoints,
}

/// Whether `r` holds the issues of `api`, each converted with `now`, in order.
pub open spec fn converted_all(r: Seq<JiraIssue>, api: Seq<JiraIssueApi>, now: Timestamp) -> bool {
    &&& r.len() == api.len()
    &&& forall|i: int| 0 <= i < r.len() ==> converted_issue(#[trigger] r[i], api[i], now)
}

/// The issues of an answer, converted in order (`issues.unwrap_or_default()`).
pub fn issues_from_response(response: JiraApiResponse<JiraIssueApi>, now: Timestamp) -> (r: Vec<JiraIssue>)
    ensures
        converted_all(
            r@,
            match response.issues {
                Some(v) => v@,
                None => Seq::empty(),
            },
            now,
        ),
{
    let mut out: Vec<JiraIssue> = Vec::new();
    match response.issues {
        Some(v) => {
            let ghost all = v@;
            let n = v.len();
            let mut rest = v;
            let mut i: usize = 0;
            while rest.len() > 0
                invariant
                    i + rest@.len() == all.len(),
                    all.len() == n,
                    rest@ == all.subrange(i as int, all.len() as int),
                    out@.len() == i,
                    forall|k: int| 0 <= k < i ==> converted_issue(#[trigger] out@[k], all[k], now),
                decreases rest.len(),
            {
                let api = rest.remove(0);
                out.push(JiraIssue::from_api_at(api, now));
                i = i + 1;
            }
        },
        None => {},
    }
    out
}

impl JiraClient {
    /// A client for a site and a user.
    pub fn new(base_url: String, username: String, api_token: String) -> (r: Self)
        requires
            credentials_fit(username@, api_token@),
        ensures
            r.auth_header() == auth_header_text(username@, api_token@),
            r.base_url() == base_url@,
            r.endpoint_base() == trim_trailing_slashes(base_url@),
    {
        let auth_header = basic_auth_header(username.as_str(), api_token.as_str());
        let endpoints = JiraEndpoints::new(base_url.as_str());
        JiraClient { base_url, auth_header, endpoints }
    }

    /// The site as given.
    pub closed spec fn base_url(&self) -> Seq<char> {
        self.base_url@
    }

    /// The site without trailing slashes, under which the endpoints lie.
    pub closed spec fn endpoint_base(&self) -> Seq<char> {
        self.endpoints@
    }

    /// The value of the `Authorization` header.
    pub closed spec fn auth_header(&self) -> Seq<char> {
        self.auth_header@
    }

    /// The `Authorization` header of every request.
    pub fn authorization(&self) -> (r: &str)
        ensures
            r@ == self.auth_header(),
    {
        self.auth_header.as_str()
    }

    /// The endpoints of this client.
    pub fn endpoints(&self) -> (r: &JiraEndpoints)
        ensures
            r@ == self.endpoint_base(),
    {
        &self.endpoints
    }

    /// The query of a JQL search: all fields, at most 50 issues.
    pub fn jql_query<'a>(jql: &'a str) -> (r: JiraQuery<'a>)
        ensures
            r.jql == jql,
            r.fields matches Some(f) && f@ == "*all"@,
            r.max_results == Some(50usize),
    {
        JiraQuery { jql, fields: Some("*all"), max_results: Some(50) }
    }

    /// The JQL of the recently viewed issues: updated in the last 30 days, newest first.
    pub fn recently_viewed_jql() -> (r: &'static str)
        ensures
            r@ == "updated >= -30d ORDER BY updated DESC"@,
    {
        "updated >= -30d ORDER BY updated DESC"
    }

    /// The JQL of the recently updated issues: updated in the last 7 days, newest first.
    pub fn recently_updated_jql() -> (r: &'static str)
        ensures
            r@ == "updated >= -7d ORDER BY updated DESC"@,
    {
        "updated >= -7d ORDER BY updated DESC"
    }
}

} // verus!
