//! What the service client sends to Jira and how it reads the pages it gets back. The
//! HTTP exchange itself happens outside this library; the client here decides every
//! URL, header and query, and turns each answer into the data the interface shows.
use vstd::prelude::*;
use crate::services::config::JiraConfig;
use crate::services::endpoints::JiraEndpoints;
use crate::services::sort::{SortMode, order_by_text};
use crate::services::types::{
    JiraApiResponse, JiraIssue, JiraIssueApi, JiraSprintApi, Paginated, converted_issue,
};
use crate::auth::{auth_header_text, basic_auth_header, credentials_fit};
use crate::text::{concat2, decimal_seq, trim_trailing_slashes, u64_to_decimal};
use crate::time::Timestamp;

verus! {

/// The query of a board or sprint issue listing.
#[derive(Debug, Clone)]
pub struct SprintIssuesQuery {
    pub jql: String,
    pub max_results: Option<usize>,
    pub start_at: Option<usize>,
}

/// The query of a JQL search for recently updated issues.
#[derive(Debug, Clone)]
pub struct RecentlyUpdatedIssuesQuery<'a> {
    pub jql: String,
    pub max_results: Option<usize>,
    pub start_at: Option<usize>,
    pub fields: &'a str,
}

/// The URL and query of one listing request.
#[derive(Debug, Clone)]
pub struct ListingRequest {
    pub url: String,
    pub query: SprintIssuesQuery,
}

/// The URL and query of one search request.
#[derive(Debug, Clone)]
pub struct SearchRequest {
    pub url: String,
    pub query: RecentlyUpdatedIssuesQuery<'static>,
}

/// Whether page `page` of `max_results` items starts at an index that fits a `usize`.
pub open spec fn page_fits(page: usize, max_results: usize) -> bool {
    page * max_results <= usize::MAX
}

/// Whether the paging figures of an answer can be added up in a `u32`, as the client does.
pub open spec fn paging_fits(start_at: Option<u32>, max_results: Option<u32>, config_max: usize) -> bool {
    let s = match start_at {
        Some(v) => v,
        None => 0,
    };
    let m = match max_results {
        Some(v) => v,
        None => config_max as u32,
    };
    s + m <= u32::MAX
}

/// The page that an answer's issues form: `has_more` exactly when the answer's start
/// and size stop before its total, with absent figures read as 0 (start, total) and
/// as the configured size (size).
pub open spec fn page_of(
    n_items: nat,
    start_at: Option<u32>,
    max_results: Option<u32>,
    total: Option<u32>,
    page: usize,
    config_max: usize,
    r_items_len: nat,
    r_has_more: bool,
    r_page: usize,
    r_start_at: usize,
    r_max_results: usize,
) -> bool {
    let s = match start_at {
        Some(v) => v,
        None => 0,
    };
    let m = match max_results {
        Some(v) => v,
        None => config_max as u32,
    };
    let t = match total {
        Some(v) => v,
        None => 0,
    };
    &&& r_items_len == n_items
    &&& r_has_more == (s + m < t)
    &&& r_page == page
    &&& r_start_at == s
    &&& r_max_results == m
}

/// The issues of an answer and its paging figures, formed into a page.
pub fn paginate(
    issues: Vec<JiraIssue>,
    start_at: Option<u32>,
    max_results: Option<u32>,
    total: Option<u32>,
    page: usize,
    config_max: usize,
) -> (r: Paginated<JiraIssue>)
    requires
        paging_fits(start_at, max_results, config_max),
    ensures
        r.items@ == issues@,
        page_of(issues@.len(), start_at, max_results, total, page, config_max, r.items@.len(),
            r.has_more, r.page, r.start_at, r.max_results),
{
    let s: u32 = match start_at {
        Some(v) => v,
        None => 0,
    };
    #[verifier::truncate]
    let fallback: u32 = config_max as u32;
    let m: u32 = match max_results {
        Some(v) => v,
        None => fallback,
    };
    let t: u32 = match total {
        Some(v) => v,
        None => 0,
    };
    let has_more = s + m < t;
    Paginated { items: issues, has_more, page, start_at: s as usize, max_results: m as usize }
}

/// Whether `r` holds the issues of `api`, each converted with `now`, in order.
pub open spec fn converted_all(r: Seq<JiraIssue>, api: Seq<JiraIssueApi>, now: Timestamp) -> bool {
    &&& r.len() == api.len()
    &&& forall|i: int| 0 <= i < r.len() ==> converted_issue(#[trigger] r[i], api[i], now)
}

/// The issues of an answer, converted in order (`issues.unwrap_or_default()`).
pub fn convert_issues(issues: Option<Vec<JiraIssueApi>>, now: Timestamp) -> (r: Vec<JiraIssue>)
    ensures
        converted_all(
            r@,
            match issues {
                Some(v) => v@,
                None => Seq::empty(),
            },
            now,
        ),
{
    let mut out: Vec<JiraIssue> = Vec::new();
    match issues {
        Some(v) => {
            let ghost all = v@;
            let n = v.len();
            let mut rest = v;
            let mut i: usize = 0;
            while rest.len() > 0
                invariant
                    i + rest@.len() == all.len(),
                    all.len() == n,
                    rest@ == all.subrange(i as int, all.len() as int),
                    out@.len() == i,
                    forall|k: int| 0 <= k < i ==> converted_issue(#[trigger] out@[k], all[k], now),
                decreases rest.len(),
            {
                let api = rest.remove(0);
                let issue = JiraIssue::from_api_at(api, now);
                out.push(issue);
                i = i + 1;
            }
        },
        None => {},
    }
    out
}

/// The answer to a listing of issues, as a page: its issues converted with `now` for
/// unreadable dates, and its paging figures read as `paginate` reads them.
pub fn issues_page(
    response: JiraApiResponse<JiraIssueApi>,
    page: usize,
    config_max: usize,
    now: Timestamp,
) -> (r: Paginated<JiraIssue>)
    requires
        paging_fits(response.start_at, response.max_results, config_max),
    ensures
        converted_all(
            r.items@,
            match response.issues {
                Some(v) => v@,
                None => Seq::empty(),
            },
            now,
        ),
        page_of(r.items@.len(), response.start_at, response.max_results, response.total, page,
            config_max, r.items@.len(), r.has_more, r.page, r.start_at, r.max_results),
{
    let items = convert_issues(response.issues, now);
    paginate(items, response.start_at, response.max_results, response.total, page, config_max)
}

/// The first sprint of an answer listing sprints, if it holds any.
pub fn first_sprint(response: JiraApiResponse<JiraSprintApi>) -> (r: Option<JiraSprintApi>)
    ensures
        match response.values {
            Some(v) => if v@.len() > 0 {
                r == Some(v@[0])
            } else {
                r is None
            },
            None => r is None,
        },
{
    match response.values {
        Some(v) => {
            let mut v = v;
            if v.len() > 0 {
                Some(v.swap_remove(0))
            } else {
                None
            }
        },
        None => None,
    }
}

/// The client's fixed part: its settings, its auth header and its endpoints.
#[derive(Debug, Clone)]
pub struct JiraClient {
    config: JiraConfig,
    auth_header: String,
    endpoints: JiraEndpoints,
}

impl JiraClient {
    /// The header that authenticates `username` with `api_token`: `Basic ` and the
    /// base64 of `username:api_token`.
    pub fn build_auth_header(username: &str, api_token: &str) -> (r: String)
        requires
            credentials_fit(username@, api_token@),
        ensures
            r@ == auth_header_text(username@, api_token@),
    {
        basic_auth_header(username, api_token)
    }

    /// A client for the settings `config`.
    pub fn new(config: JiraConfig) -> (r: JiraClient)
        requires
            credentials_fit(config.username@, config.api_token@),
        ensures
            r.settings() == config,
            r.auth_header() == auth_header_text(config.username@, config.api_token@),
            r.base_url() == trim_trailing_slashes(config.base_url@),
    {
        let auth_header = JiraClient::build_auth_header(config.username.as_str(), config.api_token.as_str());
        let endpoints = JiraEndpoints::new(config.base_url.as_str());
        JiraClient { config, auth_header, endpoints }
    }

    /// The settings of this client.
    pub closed spec fn settings(&self) -> JiraConfig {
        self.config
    }

    /// The settings of this client.
    pub fn config(&self) -> (r: &JiraConfig)
        ensures
            *r == self.settings(),
    {
        &self.config
    }

    /// The value of the `Authorization` header of every request.
    pub closed spec fn auth_header(&self) -> Seq<char> {
        self.auth_header@
    }

    /// The base URL that every request goes to.
    pub closed spec fn base_url(&self) -> Seq<char> {
        self.endpoints@
    }

    /// The `Authorization` header of every request.
    pub fn authorization(&self) -> (r: &str)
        ensures
            r@ == self.auth_header(),
    {
        self.auth_header.as_str()
    }

    /// The request for the active sprint of the configured board.
    pub fn active_sprint_url(&self) -> (r: String)
        ensures
            r@ == self.base_url() + "/rest/agile/1.0/board/"@ + self.settings().board_id@
                + "/sprint?state=active"@,
    {
        self.endpoints.active_sprint(self.config.board_id.as_str())
    }

    /// The request for page `page` of a sprint's issues, ordered by `sort`.
    pub fn sprint_issues_request(&self, sprint_id: &str, sort: SortMode, page: usize) -> (r: ListingRequest)
        requires
            page_fits(page, self.settings().max_results),
        ensures
            r.url@ == self.base_url() + "/rest/agile/1.0/board/"@ + self.settings().board_id@ + "/sprint/"@
                + sprint_id@ + "/issue"@,
            r.query.jql@ == order_by_text(sort),
            r.query.max_results == Some(self.settings().max_results),
            r.query.start_at == Some((page * self.settings().max_results) as usize),
    {
        let url = self.endpoints.get_all_issues_for_sprint(self.config.board_id.as_str(), sprint_id);
        let start_at = page * self.config.max_results;
        let jql = sort.jql_order_by().to_string();
        ListingRequest {
            url,
            query: SprintIssuesQuery { jql, max_results: Some(self.config.max_results), start_at: Some(start_at) },
        }
    }

    /// The request for the current sprint's issues once the active sprint is known:
    /// `None` where there is no active sprint (the page is then `Paginated::new()`).
    pub fn current_sprint_issues_request(
        &self,
        sprint: Option<JiraSprintApi>,
        sort: SortMode,
        page: usize,
    ) -> (r: Option<ListingRequest>)
        requires
            page_fits(page, self.settings().max_results),
        ensures
            r is Some <==> sprint is Some,
            r matches Some(q) ==> q.url@ == self.base_url() + "/rest/agile/1.0/board/"@
                + self.settings().board_id@ + "/sprint/"@ + decimal_seq(sprint->0.id as nat) + "/issue"@,
            r matches Some(q) ==> q.query.jql@ == order_by_text(sort),
            r matches Some(q) ==> q.query.max_results == Some(self.settings().max_results),
            r matches Some(q) ==> q.query.start_at == Some((page * self.settings().max_results) as usize),
    {
        match sprint {
            Some(s) => {
                let id = u64_to_decimal(s.id as u64);
                Some(self.sprint_issues_request(id.as_str(), sort, page))
            },
            None => None,
        }
    }

    /// The request for page `page` of the issues updated in the last 30 days.
    pub fn recently_updated_request(&self, sort: SortMode, page: usize) -> (r: SearchRequest)
        requires
            page_fits(page, self.settings().max_results),
        ensures
            r.url@ == self.base_url() + "/rest/api/3/search/jql"@,
            r.query.jql@ == "updated >= -30d "@ + order_by_text(sort),
            r.query.max_results == Some(self.settings().max_results),
            r.query.start_at == Some((page * self.settings().max_results) as usize),
            r.query.fields@ == "*all"@,
    {
        let url = self.endpoints.search_issues();
        let start_at = page * self.config.max_results;
        let jql = concat2("updated >= -30d ", sort.jql_order_by());
        SearchRequest {
            url,
            query: RecentlyUpdatedIssuesQuery {
                jql,
                max_results: Some(self.config.max_results),
                start_at: Some(start_at),
                fields: "*all",
            },
        }
    }

    /// The request for page `page` of the configured board's backlog.
    pub fn backlog_request(&self, sort: SortMode, page: usize) -> (r: ListingRequest)
        requires
            page_fits(page, self.settings().max_results),
        ensures
            r.url@ == self.base_url() + "/rest/agile/1.0/board/"@ + self.settings().board_id@ + "/backlog"@,
            r.query.jql@ == order_by_text(sort),
            r.query.max_results == Some(self.settings().max_results),
            r.query.start_at == Some((page * self.settings().max_results) as usize),
    {
        let url = self.endpoints.backlog_issues(self.config.board_id.as_str());
        let start_at = page * self.config.max_results;
        let jql = sort.jql_order_by().to_string();
        ListingRequest {
            url,
            query: SprintIssuesQuery { jql, max_results: Some(self.config.max_results), start_at: Some(start_at) },
        }
    }

    /// The request for one issue.
    pub fn issue_url(&self, key: &str) -> (r: String)
        ensures
            r@ == self.base_url() + "/rest/api/3/issue/"@ + key@,
    {
        self.endpoints.get_issue(key)
    }
}

} // verus!
