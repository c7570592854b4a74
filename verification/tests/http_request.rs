use rs_chat::json::{to_json_text, JsonValue};
use rs_chat::tools::http_request::{
    apply_direct_injection, parameter_map, substitute_json_strings, HttpRequestConfig, HttpRequestTool,
};
use rs_chat::tools::tool_core::{ToolJsonSchema, ToolJsonSchemaType, ToolParameters};
use rs_chat::tools::utils::http_request_builder::HttpRequestBuilder;

fn s(v: &str) -> JsonValue {
    JsonValue::String(v.to_string())
}

fn obj(entries: Vec<(&str, JsonValue)>) -> JsonValue {
    JsonValue::Object(entries.into_iter().map(|(k, v)| (k.to_string(), v)).collect())
}

fn field<'a>(v: &'a JsonValue, key: &str) -> &'a JsonValue {
    match v {
        JsonValue::Object(entries) => &entries.iter().find(|(k, _)| k == key).expect("field").1,
        _ => panic!("not an object"),
    }
}

fn text(v: &JsonValue) -> String {
    to_json_text(v)
}

fn create_test_parameters() -> ToolParameters {
    vec![
        ("user_id".to_string(), s("123")),
        ("name".to_string(), s("John")),
        ("tags".to_string(), JsonValue::Array(vec![s("admin"), s("user")])),
        ("count".to_string(), JsonValue::Number("42".to_string())),
        ("enabled".to_string(), JsonValue::Bool(true)),
    ]
}

fn empty_schema() -> ToolJsonSchema {
    ToolJsonSchema {
        schema_type: ToolJsonSchemaType::Object,
        properties: vec![],
        required: None,
        additional_properties: Some(false),
    }
}

#[test]
fn test_direct_injection() {
    let config = HttpRequestConfig {
        input_schema: empty_schema(),
        url: "https://api.example.com".to_string(),
        method: "POST".to_string(),
        query: None,
        body: Some(obj(vec![
            ("count", s("$count")),
            ("enabled", s("$enabled")),
            ("tags", s("$tags")),
            ("user", s("$user_id")),
        ])),
        headers: None,
    };
    let _tool = HttpRequestTool::new(&config);
    let params = create_test_parameters();

    let result = apply_direct_injection(config.body.as_ref().unwrap(), &params).unwrap();

    assert_eq!(text(field(&result, "user")), "\"123\"");
    assert_eq!(text(field(&result, "tags")), "[\"admin\",\"user\"]");
    assert_eq!(text(field(&result, "count")), "42");
    assert_eq!(text(field(&result, "enabled")), "true");
}

#[test]
fn test_string_templating() {
    let config = HttpRequestConfig {
        input_schema: empty_schema(),
        url: "https://api.example.com/users/${user_id}".to_string(),
        method: "GET".to_string(),
        query: None,
        body: Some(obj(vec![
            ("info", s("User ${user_id} has ${count} items")),
            ("message", s("Hello ${name}!")),
        ])),
        headers: Some(vec![("Authorization".to_string(), "Bearer ${token}".to_string())]),
    };

    let mut params = create_test_parameters();
    params.push(("token".to_string(), s("abc123")));

    let tool = HttpRequestTool::new(&config);

    // URL templating
    let url = tool.build_url(&params).unwrap();
    assert_eq!(url, "https://api.example.com/users/123");

    // Headers templating
    let headers = tool.build_headers(&params).unwrap();
    let auth = headers.iter().find(|(k, _)| k == "Authorization").map(|(_, v)| v.clone());
    assert_eq!(auth.as_deref(), Some("Bearer abc123"));

    // Body templating (after direct injection)
    let body = apply_direct_injection(config.body.as_ref().unwrap(), &params).unwrap();
    let vars = parameter_map(&params);
    let body = substitute_json_strings(&body, &vars).unwrap();

    assert_eq!(text(field(&body, "message")), "\"Hello John!\"");
    assert_eq!(text(field(&body, "info")), "\"User 123 has 42 items\"");
}

#[test]
fn test_mixed_templating() {
    let body_template = obj(vec![
        ("greeting", s("Hello ${name}!")),
        ("summary", s("${name} has ${count} items")),
        ("tags", s("$tags")),
        ("user", s("$user_id")),
    ]);
    let config = HttpRequestConfig {
        input_schema: empty_schema(),
        url: "https://api.example.com".to_string(),
        method: "POST".to_string(),
        query: None,
        body: Some(body_template),
        headers: None,
    };

    let tool = HttpRequestTool::new(&config);
    let params = create_test_parameters();

    let body_result = tool.build_body(&params, &config.body).unwrap().unwrap();
    let parsed: serde_json::Value = serde_json::from_str(&body_result).unwrap();

    assert_eq!(parsed["user"], serde_json::Value::String("123".to_string()));
    assert_eq!(parsed["greeting"], serde_json::Value::String("Hello John!".to_string()));
    assert_eq!(
        parsed["tags"],
        serde_json::Value::Array(vec![
            serde_json::Value::String("admin".to_string()),
            serde_json::Value::String("user".to_string()),
        ])
    );
    assert_eq!(parsed["summary"], serde_json::Value::String("John has 42 items".to_string()));
}

#[test]
fn query_parameters_are_encoded_and_appended() {
    let config = HttpRequestConfig {
        input_schema: empty_schema(),
        url: "https://api.example.com/search?v=1".to_string(),
        method: "GET".to_string(),
        query: Some(vec![
            ("q".to_string(), "${name} & co".to_string()),
            ("empty".to_string(), "${missing:}".to_string()),
        ]),
        body: None,
        headers: None,
    };
    let tool = HttpRequestTool::new(&config);
    let params = create_test_parameters();
    assert_eq!(tool.build_query_params(&params).unwrap(), "q=John%20%26%20co");
    assert_eq!(tool.build_url(&params).unwrap(), "https://api.example.com/search?v=1&q=John%20%26%20co");
}

#[test]
fn missing_variable_is_a_formatting_error() {
    let config = HttpRequestConfig {
        input_schema: empty_schema(),
        url: "https://api.example.com/${nope}".to_string(),
        method: "GET".to_string(),
        query: None,
        body: None,
        headers: None,
    };
    let tool = HttpRequestTool::new(&config);
    let err = tool.build_url(&create_test_parameters()).unwrap_err();
    assert!(err.message().starts_with("Formatting error: URL templating failed: "));
}

#[test]
fn tool_name_and_prepared_request() {
    let config = HttpRequestConfig {
        input_schema: empty_schema(),
        url: "https://x.test/${user_id}".to_string(),
        method: "POST".to_string(),
        query: None,
        body: Some(obj(vec![("n", s("$count")), ("missing", s("$nope"))])),
        headers: Some(vec![("X-Empty".to_string(), "${missing:}".to_string())]),
    };
    let tool = HttpRequestTool::new(&config);
    assert_eq!(tool.name, "HTTP Request (POST https://x.test/${user_id})");
    let p = tool.prepare(&create_test_parameters()).unwrap();
    assert_eq!(p.url, "https://x.test/123");
    assert_eq!(p.headers, vec![("content-type".to_string(), "application/json".to_string())]);
    assert_eq!(p.body.as_deref(), Some("{\"n\":42,\"missing\":null}"));
}

#[test]
fn composite_parameters_template_as_json() {
    let config = HttpRequestConfig {
        input_schema: empty_schema(),
        url: "https://x.test/?t=${tags}".to_string(),
        method: "GET".to_string(),
        query: None,
        body: None,
        headers: None,
    };
    let tool = HttpRequestTool::new(&config);
    assert_eq!(tool.build_url(&create_test_parameters()).unwrap(), "https://x.test/?t=[\"admin\",\"user\"]");
}

#[test]
fn builder_upper_cases_method_and_checks_it() {
    let b = HttpRequestBuilder::new("get", "https://a.test/x");
    assert_eq!(b.method, "GET");
    assert!(b.send_method().is_ok());
    let b = HttpRequestBuilder::new("trace", "https://a.test/x");
    let err = b.send_method().unwrap_err();
    assert_eq!(err.message(), "Formatting error: Unsupported HTTP method: TRACE");
    let b = HttpRequestBuilder::new("GET", "https://a.test/x")._query_param("a b", "ü/~").header("K", "V").unwrap();
    assert_eq!(b.url, "https://a.test/x?a%20b=%C3%BC%2F~");
    assert_eq!(b.headers.len(), 2);
}

#[test]
fn headers_of_the_same_name_replace_each_other() {
    let b = HttpRequestBuilder::new("POST", "https://a.test/x")
        .header("Content-Type", "text/plain")
        .unwrap()
        .header("X-Key", "1")
        .unwrap()
        .headers(vec![("x-key".to_string(), "2".to_string()), ("Accept".to_string(), "*/*".to_string())]);
    assert_eq!(
        b.headers,
        vec![
            ("content-type".to_string(), "text/plain".to_string()),
            ("X-Key".to_string(), "2".to_string()),
            ("Accept".to_string(), "*/*".to_string()),
        ]
    );
    let config = HttpRequestConfig {
        input_schema: empty_schema(),
        url: "https://x.test/".to_string(),
        method: "POST".to_string(),
        query: None,
        body: None,
        headers: Some(vec![
            ("Content-Type".to_string(), "application/xml".to_string()),
            ("X-User".to_string(), "${user_id}".to_string()),
        ]),
    };
    let tool = HttpRequestTool::new(&config);
    let headers = tool.build_headers(&create_test_parameters()).unwrap();
    assert_eq!(
        headers,
        vec![
            ("content-type".to_string(), "application/xml".to_string()),
            ("X-User".to_string(), "123".to_string()),
        ]
    );
}

#[test]
fn invalid_header_names_and_values_are_refused() {
    let b = HttpRequestBuilder::new("GET", "https://a.test/x");
    let err = b.header("Bad Name", "v").err().expect("a space is not a token character");
    assert_eq!(err.message(), "Formatting error: Invalid header name: Bad Name");
    let b = HttpRequestBuilder::new("GET", "https://a.test/x");
    let err = b.header("X-Ok", "line\nbreak").err().expect("a line break is refused");
    assert_eq!(err.message(), "Formatting error: Invalid header value: line\nbreak");
    let b = HttpRequestBuilder::new("GET", "https://a.test/x");
    assert!(b.header("X-Ok", "tab\tand ü").is_ok());
    let config = HttpRequestConfig {
        input_schema: empty_schema(),
        url: "https://x.test/".to_string(),
        method: "POST".to_string(),
        query: None,
        body: None,
        headers: Some(vec![
            ("X:Bad".to_string(), "${user_id}".to_string()),
            ("X-Later".to_string(), "${nope".to_string()),
        ]),
    };
    let tool = HttpRequestTool::new(&config);
    let err = tool.build_headers(&create_test_parameters()).unwrap_err();
    assert_eq!(err.message(), "Formatting error: Invalid header name: X:Bad");
}
