use lazyjira::api::error::ApiError as RestError;
use lazyjira::auth::basic_auth_header;
use lazyjira::services::client::{first_sprint, issues_page, paginate, JiraClient};
use lazyjira::services::config::{parse_usize, JiraConfig};
use lazyjira::services::endpoints::JiraEndpoints;
use lazyjira::services::error::ApiError;
use lazyjira::services::sort::SortMode;
use lazyjira::services::types::{
    JiraApiResponse, JiraIssue, JiraIssueApi, JiraIssueFields, JiraIssueType, JiraSprintApi, JiraStatus, JiraUser,
    Paginated, Sprint,
};
use lazyjira::text::u64_to_decimal;
use lazyjira::time::Timestamp;

fn config() -> JiraConfig {
    JiraConfig {
        base_url: "https://x.atlassian.net/".to_string(),
        username: "user".to_string(),
        api_token: "token".to_string(),
        board_id: "7".to_string(),
        max_results: 25,
    }
}

fn api_issue(key: &str, created: &str) -> JiraIssueApi {
    JiraIssueApi {
        key: key.to_string(),
        fields: JiraIssueFields {
            summary: "s".to_string(),
            description: None,
            status: JiraStatus { name: "Open".to_string() },
            priority: None,
            assignee: Some(JiraUser { display_name: "Ann".to_string(), email_address: None }),
            reporter: None,
            created: created.to_string(),
            updated: created.to_string(),
            issuetype: JiraIssueType { name: "Bug".to_string() },
        },
    }
}

#[test]
fn test_auth_header() {
    assert_eq!(JiraClient::build_auth_header("user", "token"), "Basic dXNlcjp0b2tlbg==");
    assert_eq!(basic_auth_header("a", ""), "Basic YTo=");
    assert_eq!(basic_auth_header("ab", "c"), "Basic YWI6Yw==");
}

#[test]
fn test_client_requests() {
    let client = JiraClient::new(config());
    assert_eq!(client.authorization(), "Basic dXNlcjp0b2tlbg==");
    assert_eq!(client.active_sprint_url(), "https://x.atlassian.net/rest/agile/1.0/board/7/sprint?state=active");
    let q = client.sprint_issues_request("12", SortMode::KeyAsc, 2);
    assert_eq!(q.url, "https://x.atlassian.net/rest/agile/1.0/board/7/sprint/12/issue");
    assert_eq!(q.query.jql, "ORDER BY key ASC");
    assert_eq!(q.query.start_at, Some(50));
    assert_eq!(q.query.max_results, Some(25));
    let s = client.recently_updated_request(SortMode::UpdatedDesc, 0);
    assert_eq!(s.url, "https://x.atlassian.net/rest/api/3/search/jql");
    assert_eq!(s.query.jql, "updated >= -30d ORDER BY updated DESC");
    assert_eq!(s.query.fields, "*all");
    let b = client.backlog_request(SortMode::PriorityDesc, 1);
    assert_eq!(b.url, "https://x.atlassian.net/rest/agile/1.0/board/7/backlog");
    assert_eq!(b.query.start_at, Some(25));
    assert_eq!(client.issue_url("K-1"), "https://x.atlassian.net/rest/api/3/issue/K-1");
}

#[test]
fn test_current_sprint_request() {
    let client = JiraClient::new(config());
    assert!(client.current_sprint_issues_request(None, SortMode::KeyAsc, 0).is_none());
    let sprint = JiraSprintApi { id: 42, name: "S".to_string(), state: "active".to_string(), start_date: None, end_date: None };
    let q = client.current_sprint_issues_request(Some(sprint), SortMode::KeyAsc, 0).unwrap();
    assert_eq!(q.url, "https://x.atlassian.net/rest/agile/1.0/board/7/sprint/42/issue");
}

#[test]
fn test_paginate_has_more() {
    let p = paginate(vec![], Some(0), Some(25), Some(30), 0, 50);
    assert!(p.has_more);
    assert_eq!(p.max_results, 25);
    let p = paginate(vec![], Some(25), None, Some(30), 1, 5);
    assert!(!p.has_more);
    assert_eq!(p.max_results, 5);
    assert_eq!(p.start_at, 25);
    let p = paginate(vec![], None, None, None, 3, 10);
    assert!(!p.has_more);
    assert_eq!(p.page, 3);
}

#[test]
fn test_issues_page_converts_in_order() {
    let response = JiraApiResponse {
        issues: Some(vec![api_issue("A-1", "2024-01-01T00:00:00Z"), api_issue("A-2", "bad")]),
        values: None,
        total: Some(10),
        start_at: Some(0),
        max_results: Some(2),
    };
    let now = Timestamp { secs: 9, nanos: 0 };
    let p = issues_page(response, 0, 25, now);
    assert_eq!(p.items.len(), 2);
    assert_eq!(p.items[0].key, "A-1");
    assert_eq!(p.items[0].assignee, Some("Ann".to_string()));
    assert_eq!(p.items[1].created, now);
    assert!(p.has_more);
}

#[test]
fn test_first_sprint() {
    let none: JiraApiResponse<JiraSprintApi> =
        JiraApiResponse { issues: None, values: None, total: None, start_at: None, max_results: None };
    assert!(first_sprint(none).is_none());
    let s = |id| JiraSprintApi { id, name: "n".to_string(), state: "s".to_string(), start_date: None, end_date: None };
    let r = JiraApiResponse { issues: None, values: Some(vec![s(3), s(4)]), total: None, start_at: None, max_results: None };
    assert_eq!(first_sprint(r).unwrap().id, 3);
}

#[test]
fn test_sprint_from_api() {
    let api = JiraSprintApi {
        id: 101,
        name: "Sprint".to_string(),
        state: "active".to_string(),
        start_date: Some("2024-02-01T09:00:00.000Z".to_string()),
        end_date: Some("soon".to_string()),
    };
    let s = Sprint::from_api(api);
    assert_eq!(s.id, "101");
    assert_eq!(s.start_date, Timestamp::parse("2024-02-01T09:00:00Z"));
    assert!(s.end_date.is_none());
}

#[test]
fn test_parse_usize() {
    assert_eq!(parse_usize("25"), Some(25));
    assert_eq!(parse_usize("+5"), Some(5));
    assert_eq!(parse_usize("007"), Some(7));
    assert_eq!(parse_usize(""), None);
    assert_eq!(parse_usize("+"), None);
    assert_eq!(parse_usize("-1"), None);
    assert_eq!(parse_usize("1a"), None);
    assert_eq!(parse_usize("99999999999999999999999"), None);
}

#[test]
fn test_config_from_values() {
    let c = JiraConfig::from_values(None, None, None, None, None);
    assert_eq!(c.base_url, "https://your-domain.atlassian.net");
    assert_eq!(c.board_id, "1");
    assert_eq!(c.max_results, 25);
    let c = JiraConfig::from_values(Some("u".to_string()), None, None, Some("9".to_string()), Some("x".to_string()));
    assert_eq!(c.base_url, "u");
    assert_eq!(c.board_id, "9");
    assert_eq!(c.max_results, 25);
    let d = JiraConfig::default();
    assert_eq!(d.max_results, 50);
}

#[test]
fn test_endpoints() {
    let e = JiraEndpoints::new("https://h//");
    assert_eq!(e.search_issues(), "https://h/rest/api/3/search/jql");
    assert_eq!(e.get_issue("X-1"), "https://h/rest/api/3/issue/X-1");
}

#[test]
fn test_sort_modes() {
    let mut m = SortMode::KeyAsc;
    for _ in 0..6 {
        m = m.next();
    }
    assert_eq!(m, SortMode::KeyAsc);
    assert_eq!(SortMode::PriorityDesc.label(), "Priority ↑");
    assert_eq!(SortMode::UpdatedDesc.jql_order_by(), "ORDER BY updated DESC");
}

#[test]
fn test_error_messages() {
    assert_eq!(ApiError::Http { status: 404, message: "nf".to_string() }.to_string(), "HTTP error 404: nf");
    assert_eq!(ApiError::Network("down".to_string()).to_string(), "Network error: down");
    assert_eq!(ApiError::Config("c".to_string()).to_string(), "Invalid configuration: c");
    assert_eq!(ApiError::Parse("p".to_string()).to_string(), "Parse error: p");
    assert_eq!(ApiError::HttpClient("h".to_string()).to_string(), "HTTP client error: h");
    assert_eq!(RestError::RateLimited { retry_after: Some(30) }.to_string(), "Rate limited. Retry after 30 seconds");
    assert_eq!(RestError::RateLimited { retry_after: None }.to_string(), "Rate limited");
    assert_eq!(RestError::Authentication("a".to_string()).to_string(), "Authentication error: a");
    assert_eq!(RestError::InvalidConfiguration("i".to_string()).to_string(), "Invalid configuration: i");
    assert_eq!(RestError::Network("n".to_string()).to_string(), "Network error: n");
    assert_eq!(RestError::Http { status: 500, message: "m".to_string() }.to_string(), "HTTP error 500: m");
    assert_eq!(RestError::Parse("x".to_string()).to_string(), "Parse error: x");
    assert_eq!(RestError::HttpClient("c".to_string()).to_string(), "HTTP client error: c");
}

#[test]
fn test_paginated_defaults() {
    let p: Paginated<JiraIssue> = Paginated::new();
    assert_eq!((p.page, p.max_results, p.has_more), (1, 25, false));
    let d: Paginated<JiraIssue> = Paginated::default();
    assert_eq!((d.page, d.max_results), (0, 0));
}

#[test]
fn test_issue_from_api_with_clock() {
    let issue = JiraIssue::from_api(api_issue("Z-1", "2024-01-01T00:00:00Z"));
    assert_eq!(issue.created, Timestamp::parse("2024-01-01T00:00:00Z").unwrap());
    assert!(issue.subtasks.is_empty() && issue.parent.is_none());
}

#[test]
fn test_decimal_text_reads_back() {
    assert_eq!(parse_usize(&u64_to_decimal(987654321)), Some(987654321));
    assert_eq!(parse_usize(&u64_to_decimal(0)), Some(0));
}
