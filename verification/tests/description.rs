use lazyjira::api::adf::{AdfDocument, AdfNode};
use lazyjira::api::types::{
    deserialize_description, JiraDescription, JiraIssueApi, JiraIssueFields, JiraIssueType, JiraPriority,
    JiraStatus, JiraUser,
};
use lazyjira::json::{JsonMember, JsonValue};
use lazyjira::models::JiraIssue;
use lazyjira::time::Timestamp;

fn text(s: &str) -> JsonValue {
    JsonValue::String(s.to_string())
}

fn adf_doc(s: &str) -> AdfDocument {
    AdfDocument {
        doc_type: "doc".to_string(),
        version: 1,
        content: Some(vec![AdfNode::Paragraph {
            content: Some(vec![AdfNode::Text { text: s.to_string(), marks: None }]),
        }]),
    }
}

fn adf_value(s: &str) -> JsonValue {
    let member = |k: &str, v: JsonValue| JsonMember { key: k.to_string(), value: v };
    JsonValue::Object(vec![
        member("type", text("doc")),
        member("version", JsonValue::Number("1".to_string())),
        member(
            "content",
            JsonValue::Array(vec![JsonValue::Object(vec![
                member("type", text("paragraph")),
                member(
                    "content",
                    JsonValue::Array(vec![JsonValue::Object(vec![
                        member("type", text("text")),
                        member("text", text(s)),
                    ])]),
                ),
            ])]),
        ),
    ])
}

fn fields(description: Option<JiraDescription>) -> JiraIssueFields {
    JiraIssueFields {
        summary: "Test issue".to_string(),
        description,
        status: JiraStatus { name: "Open".to_string() },
        priority: None,
        assignee: None,
        reporter: None,
        created: "2024-01-01T00:00:00.000Z".to_string(),
        updated: "2024-01-01T00:00:00.000Z".to_string(),
        issuetype: JiraIssueType { name: "Bug".to_string() },
    }
}

#[test]
fn test_parse_string_description() {
    let f = fields(deserialize_description(Some(text("this is a simple string")), None));
    assert!(f.description.is_some());
    let desc = f.description.unwrap();
    assert_eq!(desc.to_text(), Some("this is a simple string".to_string()));
}

#[test]
fn test_parse_adf_description() {
    let value = adf_value("This is ADF content");
    let f = fields(deserialize_description(Some(value), Some(adf_doc("This is ADF content"))));
    assert!(f.description.is_some());
    let desc = f.description.unwrap();
    assert_eq!(desc.to_text(), Some("This is ADF content\n\n".to_string()));
}

#[test]
fn test_parse_null_description() {
    let f = fields(deserialize_description(None, None));
    assert!(f.description.is_none());
}

#[test]
fn test_unreadable_adf_is_unknown_format() {
    let d = deserialize_description(Some(adf_value("x")), None).unwrap();
    assert!(d.adf.is_none());
    assert_eq!(d.content, Some("Unknown format".to_string()));
}

#[test]
fn test_other_description_keeps_json_text() {
    let d = deserialize_description(Some(JsonValue::Bool(true)), None).unwrap();
    assert_eq!(d.content, Some("true".to_string()));
    assert_eq!(d.to_plain_text(), Some("true".to_string()));
}

#[test]
fn test_blank_document_falls_back_to_content() {
    let d = JiraDescription {
        adf: Some(AdfDocument { doc_type: "doc".to_string(), version: 1, content: None }),
        content: Some("fallback".to_string()),
    };
    assert_eq!(d.to_text(), Some("fallback".to_string()));
    assert_eq!(d.to_plain_text(), Some("fallback".to_string()));
}

#[test]
fn test_issue_from_api_uses_emails_and_dates() {
    let api = JiraIssueApi {
        key: "PROJ-1".to_string(),
        fields: JiraIssueFields {
            priority: Some(JiraPriority { name: "High".to_string() }),
            assignee: Some(JiraUser {
                display_name: "Ann".to_string(),
                email_address: Some("ann@example.com".to_string()),
            }),
            reporter: Some(JiraUser { display_name: "Bob".to_string(), email_address: None }),
            ..fields(deserialize_description(Some(text("desc")), None))
        },
    };
    let now = Timestamp { secs: 5, nanos: 0 };
    let issue = JiraIssue::from_api_at(api, now);
    assert_eq!(issue.key, "PROJ-1");
    assert_eq!(issue.description, Some("desc".to_string()));
    assert_eq!(issue.priority, Some("High".to_string()));
    assert_eq!(issue.assignee, Some("ann@example.com".to_string()));
    assert_eq!(issue.reporter, None);
    assert_eq!(issue.created, Timestamp::parse("2024-01-01T00:00:00Z").unwrap());
    assert_eq!(issue.created.secs, 1704067200);
}

#[test]
fn test_unreadable_date_takes_the_given_instant() {
    let mut f = fields(None);
    f.created = "yesterday".to_string();
    let api = JiraIssueApi { key: "K-1".to_string(), fields: f };
    let now = Timestamp { secs: 42, nanos: 7 };
    let issue = JiraIssue::from_api_at(api, now);
    assert_eq!(issue.created, now);
    assert_ne!(issue.updated, now);
}
