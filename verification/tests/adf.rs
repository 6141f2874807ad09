use lazyjira::api::adf::{AdfDocument, AdfHeadingAttrs, AdfMark, AdfNode};
use lazyjira::json::{JsonMember, JsonValue};
use lazyjira::services::adf::{extract_text_from_adf, parse_description};

fn text(s: &str) -> JsonValue {
    JsonValue::String(s.to_string())
}

fn obj(members: Vec<(&str, JsonValue)>) -> JsonValue {
    JsonValue::Object(
        members
            .into_iter()
            .map(|(k, v)| JsonMember { key: k.to_string(), value: v })
            .collect(),
    )
}

fn paragraph(s: &str) -> JsonValue {
    obj(vec![
        ("type", text("paragraph")),
        ("content", JsonValue::Array(vec![obj(vec![("type", text("text")), ("text", text(s))])])),
    ])
}

fn doc(nodes: Vec<AdfNode>) -> AdfDocument {
    AdfDocument { doc_type: "doc".to_string(), version: 1, content: Some(nodes) }
}

fn text_node(s: &str, marks: Option<Vec<AdfMark>>) -> AdfNode {
    AdfNode::Text { text: s.to_string(), marks }
}

#[test]
fn test_parse_simple_paragraph() {
    let d = doc(vec![AdfNode::Paragraph { content: Some(vec![text_node("this is a test", None)]) }]);
    assert_eq!(d.to_plain_text().trim(), "this is a test");
}

#[test]
fn test_parse_with_formatting() {
    let d = doc(vec![AdfNode::Paragraph {
        content: Some(vec![text_node("bold text", Some(vec![AdfMark::Strong]))]),
    }]);
    assert_eq!(d.to_formatted_text().trim(), "**bold text**");
}

#[test]
fn test_formatted_heading_and_marks() {
    let d = doc(vec![
        AdfNode::Heading {
            attrs: Some(AdfHeadingAttrs { level: 2 }),
            content: Some(vec![text_node("Title", None)]),
        },
        AdfNode::Paragraph {
            content: Some(vec![
                text_node("a", Some(vec![AdfMark::Em])),
                AdfNode::HardBreak,
                text_node("b", Some(vec![AdfMark::Code])),
            ]),
        },
    ]);
    assert_eq!(d.to_formatted_text(), "## Title\n\n*a*\n`b`\n\n");
}

#[test]
fn test_document_without_content_is_empty() {
    let d = AdfDocument { doc_type: "doc".to_string(), version: 1, content: None };
    assert_eq!(d.to_plain_text(), "");
    assert_eq!(d.to_formatted_text(), "");
}

#[test]
fn test_extract_simple_paragraph() {
    let adf_content = JsonValue::Array(vec![paragraph("This is a simple paragraph.")]);
    let result = extract_text_from_adf(&adf_content);
    assert_eq!(result, "This is a simple paragraph.");
}

#[test]
fn test_extract_multiple_paragraphs() {
    let adf_content = JsonValue::Array(vec![paragraph("First paragraph."), paragraph("Second paragraph.")]);
    let result = extract_text_from_adf(&adf_content);
    assert_eq!(result, "First paragraph.\nSecond paragraph.");
}

#[test]
fn test_parse_description_string() {
    let desc = text("Simple string description");
    let result = parse_description(Some(&desc));
    assert_eq!(result, "Simple string description");
}

#[test]
fn test_parse_description_adf() {
    let desc = obj(vec![("content", JsonValue::Array(vec![paragraph("ADF description.")]))]);
    let result = parse_description(Some(&desc));
    assert_eq!(result, "ADF description.");
}

#[test]
fn test_parse_description_none() {
    let result = parse_description(None);
    assert_eq!(result, "No description available");
}

#[test]
fn test_parse_description_other_value_is_its_json() {
    let desc = obj(vec![("id", JsonValue::Number("7".to_string()))]);
    assert_eq!(parse_description(Some(&desc)), "{\"id\":7}");
}

#[test]
fn test_json_text_of_sorted_object_with_escapes() {
    let v = obj(vec![
        ("a", JsonValue::Array(vec![JsonValue::Null, JsonValue::Bool(false), text("x\"y\n\u{1}")])),
        ("b", JsonValue::Number("-2.5".to_string())),
    ]);
    assert_eq!(v.to_json_string(), "{\"a\":[null,false,\"x\\\"y\\n\\u0001\"],\"b\":-2.5}");
    assert_eq!(parse_description(Some(&v)), v.to_json_string());
}

#[test]
fn test_get_in_object_with_unique_keys() {
    let v = obj(vec![("content", text("c")), ("type", text("doc"))]);
    assert_eq!(v.get("type"), Some(&text("doc")));
    assert_eq!(v.get("content"), Some(&text("c")));
    assert_eq!(v.get("version"), None);
}
