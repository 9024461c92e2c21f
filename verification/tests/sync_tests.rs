use drawer_core::json::JsonValue;
use drawer_core::sync::create_page_request;
use drawer_core::sync::database_metadata_request;
use drawer_core::sync::interpret_ack_response;
use drawer_core::sync::interpret_create_response;
use drawer_core::sync::update_page_request;
use drawer_core::sync::HttpMethod;

fn s(text: &str) -> String {
    text.to_string()
}

fn body_with(field: &str, value: &str) -> JsonValue {
    JsonValue::Obj(vec![(s(field), JsonValue::Str(s(value)))])
}

#[test]
fn test_create_page_request_shape() {
    let payload = body_with("parent", "db-1");
    let r = create_page_request(&s("secret-key"), payload);
    assert_eq!(r.method, HttpMethod::Post);
    assert_eq!(r.url, s("https://api.notion.com/v1/pages"));
    assert_eq!(r.authorization, s("Bearer secret-key"));
    assert_eq!(r.api_version, s("2022-06-28"));
    assert_eq!(r.body, Some(body_with("parent", "db-1")));
}

#[test]
fn test_database_metadata_request_shape() {
    let r = database_metadata_request(&s("k"), &s("db-42"));
    assert_eq!(r.method, HttpMethod::Get);
    assert_eq!(r.url, s("https://api.notion.com/v1/databases/db-42"));
    assert_eq!(r.authorization, s("Bearer k"));
    assert_eq!(r.api_version, s("2022-06-28"));
    assert_eq!(r.body, None);
}

#[test]
fn test_update_page_request_shape() {
    let payload = body_with("status", "Done");
    let r = update_page_request(&s("k"), &s("page-9"), payload);
    assert_eq!(r.method, HttpMethod::Patch);
    assert_eq!(r.url, s("https://api.notion.com/v1/pages/page-9"));
    assert_eq!(r.body, Some(body_with("status", "Done")));
}

#[test]
fn test_create_success_returns_page_id() {
    let body = body_with("id", "page-123");
    let r = interpret_create_response(200, Ok(&body));
    assert_eq!(r, Ok(s("page-123")));
}

#[test]
fn test_create_success_without_id_degrades() {
    let body = body_with("object", "page");
    let r = interpret_create_response(200, Ok(&body));
    assert_eq!(r, Ok(s("Unknown ID")));
}

#[test]
fn test_error_message_mapped() {
    let body = body_with("message", "rate limited");
    let r = interpret_create_response(429, Ok(&body));
    assert_eq!(r, Err(s("rate limited")));
    let ack = interpret_ack_response(429, Ok(&body));
    assert_eq!(ack, Err(s("rate limited")));
}

#[test]
fn test_error_message_placeholder_when_absent() {
    let body = JsonValue::Obj(vec![(s("code"), JsonValue::Int(503))]);
    let r = interpret_create_response(503, Ok(&body));
    assert_eq!(r, Err(s("Unknown Notion error")));
}

#[test]
fn test_error_message_placeholder_when_body_unparsable() {
    let r = interpret_ack_response(500, Err(s("error decoding response body")));
    assert_eq!(r, Err(s("Unknown Notion error")));
}

#[test]
fn test_create_success_with_unparsable_body_reports_decode_error() {
    let r = interpret_create_response(201, Err(s("error decoding response body")));
    assert_eq!(r, Err(s("error decoding response body")));
}

#[test]
fn test_ack_success_ignores_body() {
    let r = interpret_ack_response(204, Err(s("never read")));
    assert_eq!(r, Ok(s("Success")));
    let body = body_with("message", "ignored");
    let r2 = interpret_ack_response(200, Ok(&body));
    assert_eq!(r2, Ok(s("Success")));
}

#[test]
fn test_status_boundaries() {
    let body = body_with("message", "moved");
    assert_eq!(interpret_ack_response(299, Ok(&body)), Ok(s("Success")));
    assert_eq!(interpret_ack_response(300, Ok(&body)), Err(s("moved")));
    assert_eq!(interpret_ack_response(199, Ok(&body)), Err(s("moved")));
}
