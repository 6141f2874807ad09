use lazyjira::json::{JsonMember, JsonValue};
use lazyjira::services::types::{JiraIssue, JiraIssueRef};
use lazyjira::time::Timestamp;
use lazyjira::ui::components::issue_detail::{DetailField, IssueDetail};

fn text(s: &str) -> JsonValue {
    JsonValue::String(s.to_string())
}

fn obj(members: Vec<(&str, JsonValue)>) -> JsonValue {
    JsonValue::Object(
        members
            .into_iter()
            .map(|(k, v)| JsonMember { key: k.to_string(), value: v })
            .collect(),
    )
}

fn create_test_issue() -> JiraIssue {
    JiraIssue {
        key: "TEST-123".to_string(),
        summary: "Test issue summary".to_string(),
        description: Some(obj(vec![(
            "content",
            JsonValue::Array(vec![obj(vec![
                ("type", text("paragraph")),
                (
                    "content",
                    JsonValue::Array(vec![obj(vec![
                        ("type", text("text")),
                        ("text", text("This is a test description.")),
                    ])]),
                ),
            ])]),
        )])),
        status: "To Do".to_string(),
        priority: Some("High".to_string()),
        assignee: Some("John Doe".to_string()),
        reporter: Some("Jane Smith".to_string()),
        created: Timestamp::parse("2024-01-01T10:00:00Z").unwrap(),
        updated: Timestamp::parse("2024-01-02T15:30:00Z").unwrap(),
        issue_type: "Bug".to_string(),
        parent: None,
        subtasks: vec![
            JiraIssueRef {
                key: "TEST-124".to_string(),
                summary: Some("Subtask 1".to_string()),
                issue_type: Some("Sub-task".to_string()),
            },
            JiraIssueRef {
                key: "TEST-125".to_string(),
                summary: Some("Subtask 2".to_string()),
                issue_type: Some("Sub-task".to_string()),
            },
        ],
    }
}

#[test]
fn test_detail_field_next() {
    assert_eq!(DetailField::Key.next(), DetailField::Summary);
    assert_eq!(DetailField::Summary.next(), DetailField::Details);
    assert_eq!(DetailField::Details.next(), DetailField::Description);
    assert_eq!(DetailField::Description.next(), DetailField::Parent);
    assert_eq!(DetailField::Parent.next(), DetailField::Subtasks);
    assert_eq!(DetailField::Subtasks.next(), DetailField::LinkedItems);
    assert_eq!(DetailField::LinkedItems.next(), DetailField::Key);
}

#[test]
fn test_detail_field_prev() {
    assert_eq!(DetailField::Key.prev(), DetailField::LinkedItems);
    assert_eq!(DetailField::Summary.prev(), DetailField::Key);
    assert_eq!(DetailField::Details.prev(), DetailField::Summary);
    assert_eq!(DetailField::Description.prev(), DetailField::Details);
    assert_eq!(DetailField::Parent.prev(), DetailField::Description);
    assert_eq!(DetailField::Subtasks.prev(), DetailField::Parent);
    assert_eq!(DetailField::LinkedItems.prev(), DetailField::Subtasks);
}

#[test]
fn test_detail_field_cycling() {
    let mut field = DetailField::Key;

    for _ in 0..7 {
        field = field.next();
    }
    assert_eq!(field, DetailField::Key);

    for _ in 0..7 {
        field = field.prev();
    }
    assert_eq!(field, DetailField::Key);
}

#[test]
fn test_issue_detail_new() {
    let detail = IssueDetail::new();

    assert_eq!(detail.issue, None);
    assert_eq!(detail.scroll_offset, 0);
    assert!(!detail.focused);
    assert_eq!(detail.selected_field, DetailField::Key);
    assert!(!detail.edit_mode);
}

#[test]
fn test_move_up_down() {
    let mut detail = IssueDetail::new();
    assert_eq!(detail.selected_field, DetailField::Key);

    detail.move_down();
    assert_eq!(detail.selected_field, DetailField::Summary);

    detail.move_down();
    assert_eq!(detail.selected_field, DetailField::Details);

    detail.move_up();
    assert_eq!(detail.selected_field, DetailField::Summary);

    detail.move_up();
    assert_eq!(detail.selected_field, DetailField::Key);
}

#[test]
fn test_edit_mode() {
    let mut detail = IssueDetail::new();
    assert!(!detail.edit_mode);

    detail.enter_edit_mode();
    assert!(detail.edit_mode);

    detail.enter_edit_mode();
    assert!(detail.edit_mode);

    detail.exit_edit_mode();
    assert!(!detail.edit_mode);

    detail.exit_edit_mode();
    assert!(!detail.edit_mode);
}

#[test]
fn test_set_issue() {
    let mut detail = IssueDetail::new();
    let test_issue = create_test_issue();

    detail.scroll_offset = 10;
    detail.selected_field = DetailField::Details;
    detail.edit_mode = true;

    detail.set_issue(Some(test_issue.clone()));

    assert_eq!(detail.issue, Some(test_issue));
    assert_eq!(detail.scroll_offset, 0);
    assert_eq!(detail.selected_field, DetailField::Key);
    assert!(!detail.edit_mode);
}

#[test]
fn test_set_issue_none() {
    let mut detail = IssueDetail::new();
    let test_issue = create_test_issue();
    detail.set_issue(Some(test_issue));

    detail.set_issue(None);

    assert_eq!(detail.issue, None);
    assert_eq!(detail.scroll_offset, 0);
    assert_eq!(detail.selected_field, DetailField::Key);
    assert!(!detail.edit_mode);
}

#[test]
fn test_navigation_cycle_of_fields() {
    let mut detail = IssueDetail::new();
    detail.set_issue(Some(create_test_issue()));
    detail.focused = true;
    for _ in 0..7 {
        detail.move_down();
    }
    assert_eq!(detail.selected_field, DetailField::Key);
}

#[test]
fn test_description_lines_of_shown_issue() {
    let mut detail = IssueDetail::new();
    assert_eq!(detail.description_lines(), None);
    detail.set_issue(Some(create_test_issue()));
    assert_eq!(detail.description_lines(), Some(vec!["This is a test description.".to_string()]));
}

#[test]
fn test_description_lines_without_description() {
    let mut issue = create_test_issue();
    issue.description = None;
    let mut detail = IssueDetail::new();
    detail.set_issue(Some(issue));
    assert_eq!(detail.description_lines(), Some(vec!["No description available".to_string()]));
}

#[test]
fn test_highlight_only_when_focused() {
    let mut detail = IssueDetail::new();
    assert!(!detail.is_highlighted(DetailField::Key));
    detail.focused = true;
    assert!(detail.is_highlighted(DetailField::Key));
    assert!(!detail.is_highlighted(DetailField::Summary));
}

#[test]
fn test_summary_and_details_fields() {
    let mut detail = IssueDetail::new();
    assert!(detail.summary_fields().is_none());
    detail.set_issue(Some(create_test_issue()));
    let s = detail.summary_fields().unwrap();
    assert_eq!(s[0], ("Key: ".to_string(), "TEST-123".to_string()));
    assert_eq!(s[2], ("Parent: ".to_string(), "High".to_string()));
    let (left, right) = detail.details_fields().unwrap();
    assert_eq!(left[0], ("Status: ".to_string(), "To Do".to_string()));
    assert_eq!(left[1], ("Type: ".to_string(), "Bug".to_string()));
    assert_eq!(right[0], ("Reporter: ".to_string(), "Jane Smith".to_string()));
    assert_eq!(right[2], ("Created: ".to_string(), "2024-01-01 10:00".to_string()));
    assert_eq!(right[3], ("Updated: ".to_string(), "2024-01-02 15:30".to_string()));
}
