//! The refresh of the first interface's data: what is fetched, and how the answers are
//! merged into the data. The fetches themselves happen outside this library.
use vstd::prelude::*;
use crate::api::error::ApiError;
use crate::models::{AppData, JiraIssue, Sprint};

verus! {

/// What to fetch and how often.
#[derive(Debug, Clone)]
pub struct DataManagerConfig {
    pub board_id: Option<String>,
    pub max_results: usize,
    /// The time between two automatic refreshes, in seconds; `None` for no automatic
    /// refresh.
    pub auto_refresh_interval: Option<u64>,
}

impl Default for DataManagerConfig {
    /// No board, pages of 50, a refresh every five minutes.
    fn default() -> (r: Self)
        ensures
            r.board_id is None,
            r.max_results == 50,
            r.auto_refresh_interval == Some(300u64),
    {
        DataManagerConfig { board_id: None, max_results: 50, auto_refresh_interval: Some(300) }
    }
}

impl DataManagerConfig {
    /// The board whose sprint and issues to fetch; without one, the refresh finds no
    /// sprint and no board issues.
    pub fn board(&self) -> (r: Option<&str>)
        ensures
            r is Some <==> self.board_id is Some,
            r matches Some(b) ==> b@ == self.board_id->0@,
    {
        match &self.board_id {
            Some(b) => Some(b.as_str()),
            None => None,
        }
    }
}

/// The data after the three answers of a refresh were taken in, in the order sprint,
/// recently updated, board: each success replaces its part, and the first failure stops
/// the merge, keeping what came before it. Where the merge completed and no issue was
/// selected, the sprint's first issue becomes the selected one.
pub open spec fn merged(
    d: AppData,
    sprint: Result<Option<Sprint>, ApiError>,
    last_updated: Result<Vec<JiraIssue>, ApiError>,
    board: Result<Vec<JiraIssue>, ApiError>,
    r: AppData,
) -> bool {
    match sprint {
        Err(_) => r == d,
        Ok(s) => match last_updated {
            Err(_) => r == AppData { current_sprint: s, ..d },
            Ok(l) => match board {
                Err(_) => r == AppData { current_sprint: s, last_updated_issues: l, ..d },
                Ok(b) => {
                    let all = AppData { current_sprint: s, last_updated_issues: l, board_issues: b, ..d };
                    r == if d.selected_issue is None && s is Some && s->0.issues@.len() > 0 {
                        AppData { selected_issue: Some(s->0.issues@[0]), ..all }
                    } else {
                        all
                    }
                },
            },
        },
    }
}

/// The first error among the answers, in the order sprint, recently updated, board.
pub open spec fn first_error(
    sprint: Result<Option<Sprint>, ApiError>,
    last_updated: Result<Vec<JiraIssue>, ApiError>,
    board: Result<Vec<JiraIssue>, ApiError>,
) -> Option<ApiError> {
    match sprint {
        Err(e) => Some(e),
        Ok(_) => match last_updated {
            Err(e) => Some(e),
            Ok(_) => match board {
                Err(e) => Some(e),
                Ok(_) => None,
            },
        },
    }
}

/// Takes the answers of a refresh into `data`; fails with the first error.
pub fn refresh_all_data(
    data: &mut AppData,
    sprint_result: Result<Option<Sprint>, ApiError>,
    last_updated_result: Result<Vec<JiraIssue>, ApiError>,
    board_result: Result<Vec<JiraIssue>, ApiError>,
) -> (r: Result<(), ApiError>)
    ensures
        merged(*old(data), sprint_result, last_updated_result, board_result, *final(data)),
        match first_error(sprint_result, last_updated_result, board_result) {
            Some(e) => r == Err::<(), ApiError>(e),
            None => r is Ok,
        },
{
    match sprint_result {
        Ok(sprint) => {
            data.current_sprint = sprint;
        },
        Err(e) => {
            return Err(e);
        },
    }
    match last_updated_result {
        Ok(issues) => {
            data.last_updated_issues = issues;
        },
        Err(e) => {
            return Err(e);
        },
    }
    match board_result {
        Ok(issues) => {
            data.board_issues = issues;
        },
        Err(e) => {
            return Err(e);
        },
    }
    if data.selected_issue.is_none() {
        let first = match &data.current_sprint {
            Some(sprint) => {
                if sprint.issues.len() > 0 {
                    Some(sprint.issues[0].clone())
                } else {
                    None
                }
            },
            None => None,
        };
        if first.is_some() {
            data.selected_issue = first;
        }
    }
    Ok(())
}

} // verus!
