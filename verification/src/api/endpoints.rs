//! The URLs of the Jira REST endpoints that the client calls.
use vstd::prelude::*;
use crate::text::{concat2, concat3, trim_end_slashes, trim_trailing_slashes};

verus! {

/// The endpoints of one Jira site, by its base URL.
#[derive(Debug, Clone)]
pub struct JiraEndpoints {
    base_url: String,
}

impl View for JiraEndpoints {
    type V = Seq<char>;

    /// The base URL, without trailing slashes.
    closed spec fn view(&self) -> Seq<char> {
        self.base_url@
    }
}

impl JiraEndpoints {
    /// The endpoints under `base_url`, whose trailing slashes are dropped.
    pub fn new(base_url: &str) -> (r: Self)
        ensures
            r@ == trim_trailing_slashes(base_url@),
    {
        JiraEndpoints { base_url: trim_end_slashes(base_url) }
    }

    /// The JQL search endpoint.
    pub fn search_issues(&self) -> (r: String)
        ensures
            r@ == self@ + "/rest/api/3/search/jql"@,
    {
        concat2(self.base_url.as_str(), "/rest/api/3/search/jql")
    }

    /// The endpoint of one issue.
    pub fn issue_detail(&self, issue_key: &str) -> (r: String)
        ensures
            r@ == self@ + "/rest/api/2/issue/"@ + issue_key@,
    {
        concat3(self.base_url.as_str(), "/rest/api/2/issue/", issue_key)
    }

    /// The active sprint of a board.
    pub fn active_sprint(&self, board_id: &str) -> (r: String)
        ensures
            r@ == self@ + "/rest/agile/1.0/board/"@ + board_id@ + "/sprint?state=active"@,
    {
        let mut r = concat3(self.base_url.as_str(), "/rest/agile/1.0/board/", board_id);
        r.append("/sprint?state=active");
        r
    }

    /// The issues of a board.
    pub fn board_issues(&self, board_id: &str) -> (r: String)
        ensures
            r@ == self@ + "/rest/agile/1.0/board/"@ + board_id@ + "/issue"@,
    {
        let mut r = concat3(self.base_url.as_str(), "/rest/agile/1.0/board/", board_id);
        r.append("/issue");
        r
    }

    /// The issues of a sprint.
    pub fn sprint_issues(&self, sprint_id: &str) -> (r: String)
        ensures
            r@ == self@ + "/rest/agile/1.0/sprint/"@ + sprint_id@ + "/issue"@,
    {
        let mut r = concat3(self.base_url.as_str(), "/rest/agile/1.0/sprint/", sprint_id);
        r.append("/issue");
        r
    }

    /// The transitions that an issue offers.
    pub fn issue_transitions(&self, issue_key: &str) -> (r: String)
        ensures
            r@ == self@ + "/rest/api/2/issue/"@ + issue_key@ + "/transitions"@,
    {
        let mut r = concat3(self.base_url.as_str(), "/rest/api/2/issue/", issue_key);
        r.append("/transitions");
        r
    }

    /// The endpoint that moves an issue through a transition.
    pub fn transition_issue(&self, issue_key: &str) -> (r: String)
        ensures
            r@ == self@ + "/rest/api/2/issue/"@ + issue_key@ + "/transitions"@,
    {
        let mut r = concat3(self.base_url.as_str(), "/rest/api/2/issue/", issue_key);
        r.append("/transitions");
        r
    }

    /// The list of boards.
    pub fn board_list(&self) -> (r: String)
        ensures
            r@ == self@ + "/rest/agile/1.0/board"@,
    {
        concat2(self.base_url.as_str(), "/rest/agile/1.0/board")
    }

    /// The user activity search.
    pub fn user_activity(&self) -> (r: String)
        ensures
            r@ == self@ + "/rest/api/2/user/search/activity"@,
    {
        concat2(self.base_url.as_str(), "/rest/api/2/user/search/activity")
    }

    /// The list of projects.
    pub fn project_list(&self) -> (r: String)
        ensures
            r@ == self@ + "/rest/api/2/project"@,
    {
        concat2(self.base_url.as_str(), "/rest/api/2/project")
    }
}

} // verus!
