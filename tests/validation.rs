use promptivd::error::ValidationError;
use promptivd::models::{InsertTextRequest, SourceInfo, TargetSpec};

fn request() -> InsertTextRequest {
    InsertTextRequest {
        schema_version: "1.0".to_string(),
        source: SourceInfo { client: "test".to_string(), label: None, path: None },
        text: "test content".to_string(),
        placement: None,
        target: None,
        metadata: serde_json::Value::Object(serde_json::Map::new()),
    }
}

#[test]
fn test_insert_text_request_validation() {
    let mut request = request();

    assert!(request.validate().is_ok());

    request.text = "".to_string();
    assert!(request.validate().is_err());

    request.text = "abc".to_string();
    request.target = Some(TargetSpec { provider: Some("".to_string()), session_directive: None });
    assert!(matches!(
        request.validate(),
        Err(ValidationError::MissingField { field }) if field == "target.provider"
    ));
}

#[test]
fn wrong_schema_version_is_rejected() {
    let mut r = request();
    r.schema_version = "2.0".to_string();
    assert!(matches!(
        r.validate(),
        Err(ValidationError::InvalidSchemaVersion { version }) if version == "2.0"
    ));
}

#[test]
fn empty_client_is_rejected() {
    let mut r = request();
    r.source.client = String::new();
    assert!(matches!(
        r.validate(),
        Err(ValidationError::MissingField { field }) if field == "source.client"
    ));
}

#[test]
fn whitespace_only_text_is_rejected() {
    let mut r = request();
    r.text = " \t\n ".to_string();
    assert!(matches!(r.validate(), Err(ValidationError::EmptySnippet)));
}

#[test]
fn blank_provider_is_rejected_and_named_provider_accepted() {
    let mut r = request();
    r.target = Some(TargetSpec { provider: Some("   ".to_string()), session_directive: None });
    assert!(matches!(
        r.validate(),
        Err(ValidationError::MissingField { field }) if field == "target.provider"
    ));
    r.target = Some(TargetSpec { provider: Some("alpha".to_string()), session_directive: None });
    assert!(r.validate().is_ok());
    r.target = Some(TargetSpec { provider: None, session_directive: None });
    assert!(r.validate().is_ok());
}

#[test]
fn schema_is_checked_before_text() {
    let mut r = request();
    r.schema_version = "0.9".to_string();
    r.text = String::new();
    assert!(matches!(r.validate(), Err(ValidationError::InvalidSchemaVersion { .. })));
}

#[test]
fn validation_error_descriptions() {
    let e = ValidationError::MissingField { field: "source.client".to_string() };
    assert_eq!(e.describe(), "Missing required field: source.client");
    assert_eq!(ValidationError::EmptySnippet.describe(), "Empty snippet content");
}
