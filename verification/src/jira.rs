//! The first, minimal Jira client: its settings and the search it sends.
use vstd::prelude::*;
use crate::auth::{auth_header_text, basic_auth_header, credentials_fit};
use crate::models::JiraIssue;
use crate::services::config::parsed_usize;
use crate::text::{concat2, decimal_seq, u64_to_decimal};

verus! {

/// How to reach Jira, with an optional board.
#[derive(Debug, Clone)]
pub struct JiraConfig {
    pub base_url: String,
    pub username: String,
    pub api_token: String,
    pub board_id: Option<String>,
    pub max_results: usize,
}

impl Default for JiraConfig {
    /// The placeholder settings, with no board and pages of 50.
    fn default() -> (r: Self)
        ensures
            r.base_url@ == "https://your-domain.atlassian.net"@,
            r.username@ == "your-email@example.com"@,
            r.api_token@ == "your-api-token"@,
            r.board_id is None,
            r.max_results == 50,
    {
        JiraConfig {
            base_url: "https://your-domain.atlassian.net".to_string(),
            username: "your-email@example.com".to_string(),
            api_token: "your-api-token".to_string(),
            board_id: None,
            max_results: 50,
        }
    }
}

impl JiraConfig {
    /// The settings given by the environment's values, each `None` where unset: a
    /// missing text takes its placeholder, and a missing or unreadable page size is 50.
    pub fn from_values(
        base_url: Option<String>,
        username: Option<String>,
        api_token: Option<String>,
        board_id: Option<String>,
        max_results: Option<String>,
    ) -> (r: Self)
        ensures
            r.base_url@ == (match base_url {
                Some(v) => v@,
                None => "https://your-domain.atlassian.net"@,
            }),
            r.username@ == (match username {
                Some(v) => v@,
                None => "your-email@example.com"@,
            }),
            r.api_token@ == (match api_token {
                Some(v) => v@,
                None => "your-api-token"@,
            }),
            r.board_id == board_id,
            r.max_results == (match max_results {
                Some(v) => match parsed_usize(v@) {
                    Some(n) => n,
                    None => 50,
                },
                None => 50,
            }),
    {
        proof {
            crate::services::config::lemma_parsed_two_digits('5', '0');
            reveal_strlit("50");
            assert("50"@ =~= seq!['5', '0']);
        }
        let text = match max_results {
            Some(v) => v,
            None => "50".to_string(),
        };
        let n = match crate::services::config::parse_usize(text.as_str()) {
            Some(n) => n,
            None => 50,
        };
        JiraConfig {
            base_url: match base_url {
                Some(v) => v,
                None => "https://your-domain.atlassian.net".to_string(),
            },
            username: match username {
                Some(v) => v,
                None => "your-email@example.com".to_string(),
            },
            api_token: match api_token {
                Some(v) => v,
                None => "your-api-token".to_string(),
            },
            board_id,
            max_results: n,
        }
    }
}

/// A search request: its URL and its query parameters.
#[derive(Debug, Clone)]
pub struct SearchRequest {
    pub url: String,
    pub query: Vec<(String, String)>,
}

/// The first client: a site and the credentials to use on it.
#[derive(Debug, Clone)]
pub struct JiraClient {
    pub base_url: String,
    pub username: String,
    pub api_token: String,
}

impl JiraClient {
    /// A client for a site and a user.
    pub fn new(base_url: String, username: String, api_token: String) -> (r: Self)
        ensures
            r.base_url == base_url && r.username == username && r.api_token == api_token,
    {
        JiraClient { base_url, username, api_token }
    }

    /// The search for `jql`, at most `max_results` issues.
    pub fn get_issues_by_jql(&self, jql: &str, max_results: usize) -> (r: SearchRequest)
        ensures
            r.url@ == self.base_url@ + "/rest/api/3/search/jql"@,
            r.query@.len() == 2,
            r.query@[0].0@ == "jql"@ && r.query@[0].1@ == jql@,
            r.query@[1].0@ == "max_results"@ && r.query@[1].1@ == decimal_seq(max_results as nat),
    {
        let url = concat2(self.base_url.as_str(), "/rest/api/3/search/jql");
        let mut query: Vec<(String, String)> = Vec::new();
        query.push(("jql".to_string(), jql.to_string()));
        query.push(("max_results".to_string(), u64_to_decimal(max_results as u64)));
        SearchRequest { url, query }
    }

    /// The issue `issue_key`: not fetched by this client, so always none.
    pub fn get_issue(&self, issue_key: &str) -> (r: Option<JiraIssue>)
        ensures
            r is None,
    {
        None
    }

    /// The recently viewed issues: not fetched by this client, so always none.
    pub fn get_recently_viewed_issues(&self, max_results: usize) -> (r: Vec<JiraIssue>)
        ensures
            r@.len() == 0,
    {
        Vec::new()
    }

    /// The search for the issues updated in the last seven days.
    pub fn get_recently_updated_issues(&self, max_results: usize) -> (r: SearchRequest)
        ensures
            r.url@ == self.base_url@ + "/rest/api/3/search/jql"@,
            r.query@.len() == 2,
            r.query@[0].1@ == "updated >= -7d&fields=*all ORDER BY updated DESC"@,
            r.query@[1].1@ == decimal_seq(max_results as nat),
    {
        self.get_issues_by_jql("updated >= -7d&fields=*all ORDER BY updated DESC", max_results)
    }

    /// The authorization header of this client's user.
    pub fn build_auth_header(&self) -> (r: String)
        requires
            credentials_fit(self.username@, self.api_token@),
        ensures
            r@ == auth_header_text(self.username@, self.api_token@),
    {
        basic_auth_header(self.username.as_str(), self.api_token.as_str())
    }
}

} // verus!
