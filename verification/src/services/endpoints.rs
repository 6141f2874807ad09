//! The URLs of the Jira REST endpoints that the service client calls.
use vstd::prelude::*;
use crate::text::{concat2, concat3, trim_end_slashes, trim_trailing_slashes};

verus! {

/// The endpoints of one Jira site, by its base URL.
#[derive(Debug, Clone)]
pub struct JiraEndpoints {
    base_url: String,
}

impl View for JiraEndpoints {
    type V = Seq<char>;

    /// The base URL, without trailing slashes.
    closed spec fn view(&self) -> Seq<char> {
        self.base_url@
    }
}

impl JiraEndpoints {
    /// The endpoints under `base_url`, whose trailing slashes are dropped.
    pub fn new(base_url: &str) -> (r: Self)
        ensures
            r@ == trim_trailing_slashes(base_url@),
    {
        JiraEndpoints { base_url: trim_end_slashes(base_url) }
    }

    /// The JQL search endpoint.
    pub fn search_issues(&self) -> (r: String)
        ensures
            r@ == self@ + "/rest/api/3/search/jql"@,
    {
        concat2(self.base_url.as_str(), "/rest/api/3/search/jql")
    }

    /// The active sprint of a board.
    pub fn active_sprint(&self, board_id: &str) -> (r: String)
        ensures
            r@ == self@ + "/rest/agile/1.0/board/"@ + board_id@ + "/sprint?state=active"@,
    {
        let mut r = concat3(self.base_url.as_str(), "/rest/agile/1.0/board/", board_id);
        r.append("/sprint?state=active");
        r
    }

    /// The backlog of a board.
    pub fn backlog_issues(&self, board_id: &str) -> (r: String)
        ensures
            r@ == self@ + "/rest/agile/1.0/board/"@ + board_id@ + "/backlog"@,
    {
        let mut r = concat3(self.base_url.as_str(), "/rest/agile/1.0/board/", board_id);
        r.append("/backlog");
        r
    }

    /// The endpoint of one issue.
    pub fn get_issue(&self, key: &str) -> (r: String)
        ensures
            r@ == self@ + "/rest/api/3/issue/"@ + key@,
    {
        concat3(self.base_url.as_str(), "/rest/api/3/issue/", key)
    }

    /// The issues of one sprint of a board.
    pub fn get_all_issues_for_sprint(&self, board_id: &str, sprint_id: &str) -> (r: String)
        ensures
            r@ == self@ + "/rest/agile/1.0/board/"@ + board_id@ + "/sprint/"@ + sprint_id@ + "/issue"@,
    {
        let mut r = concat3(self.base_url.as_str(), "/rest/agile/1.0/board/", board_id);
        r.append("/sprint/");
        r.append(sprint_id);
        r.append("/issue");
        r
    }
}

} // verus!
