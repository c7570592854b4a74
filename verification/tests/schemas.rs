use rs_chat::json::JsonValue;
use rs_chat::tools::tool_core::{ToolError, ToolJsonSchema, ToolJsonSchemaType};
use rs_chat::tools::utils::{schema_text, validate_json_schema, validate_parameters};

fn schema(property: JsonValue) -> ToolJsonSchema {
    ToolJsonSchema {
        schema_type: ToolJsonSchemaType::Object,
        properties: vec![("q".to_string(), property)],
        required: Some(vec!["q".to_string()]),
        additional_properties: None,
    }
}

fn string_type() -> JsonValue {
    JsonValue::Object(vec![("type".to_string(), JsonValue::String("string".to_string()))])
}

#[test]
fn valid_schema_is_closed_and_accepted() {
    let mut s = schema(string_type());
    assert!(validate_json_schema(&mut s).is_ok());
    assert_eq!(s.additional_properties, Some(false));
    assert_eq!(
        schema_text(&s),
        "{\"type\":\"object\",\"properties\":{\"q\":{\"type\":\"string\"}},\"required\":[\"q\"],\"additionalProperties\":false}"
    );
}

#[test]
fn invalid_schema_is_refused() {
    let mut s = schema(JsonValue::Object(vec![("type".to_string(), JsonValue::Number("5".to_string()))]));
    match validate_json_schema(&mut s) {
        Err(ToolError::InvalidJsonSchema(m)) => assert!(!m.is_empty()),
        other => panic!("expected an invalid schema, got {:?}", other),
    }
}

#[test]
fn parameters_are_checked_against_the_schema() {
    let mut s = schema(string_type());
    validate_json_schema(&mut s).unwrap();
    let text = schema_text(&s);
    let ok = vec![("q".to_string(), JsonValue::String("rust".to_string()))];
    assert!(validate_parameters(&text, &ok).is_ok());
    let wrong_type = vec![("q".to_string(), JsonValue::Number("1".to_string()))];
    assert!(matches!(validate_parameters(&text, &wrong_type), Err(ToolError::InvalidParameters(_))));
    let extra = vec![
        ("q".to_string(), JsonValue::String("rust".to_string())),
        ("x".to_string(), JsonValue::Bool(true)),
    ];
    assert!(matches!(validate_parameters(&text, &extra), Err(ToolError::InvalidParameters(_))));
}
