//! The sync adapter: a stateless request/response mapper between local JSON
//! records and the external page API.
//!
//! The adapter builds each request (method, URL, headers, body) and
//! interprets each response (status plus parsed body); the host owns the
//! HTTP client that carries requests over the wire. Failure handling is one
//! template: a transport failure is reported with the transport's own
//! message; a non-2xx response with the server's `message` field, falling
//! back to a fixed placeholder; a 2xx response always yields the declared
//! value with no validation beyond the presence checks stated here.

use vstd::prelude::*;

use crate::json::str_field;
use crate::json::Json;
use crate::json::JsonValue;
use vstd::string::StringExecFns;

verus! {

broadcast use vstd::string::group_string_axioms;

/// The HTTP methods the adapter uses.
#[derive(Clone, Copy, Debug, PartialEq, Eq, Structural)]
pub enum HttpMethod {
    Get,
    Post,
    Patch,
}

/// One request against the external page API, ready for an HTTP client.
#[derive(Debug)]
pub struct ApiRequest {
    pub method: HttpMethod,
    pub url: String,
    /// The value of the `Authorization` header.
    pub authorization: String,
    /// The value of the fixed API-version header.
    pub api_version: String,
    pub body: Option<JsonValue>,
}

/// The `Authorization` header for an API key: `Bearer ` plus the key.
pub fn bearer_of(api_key: &String) -> (r: String)
    ensures
        r@ == "Bearer "@ + api_key@,
{
    let mut r = "Bearer ".to_string();
    r.append(api_key.as_str());
    r
}

/// The page-creation request: POST to the pages endpoint with the payload.
pub fn create_page_request(api_key: &String, payload: JsonValue) -> (r: ApiRequest)
    ensures
        r.method == HttpMethod::Post,
        r.url@ == "https://api.notion.com/v1/pages"@,
        r.authorization@ == "Bearer "@ + api_key@,
        r.api_version@ == "2022-06-28"@,
        r.body matches Some(b) && b@ == payload@,
{
    ApiRequest {
        method: HttpMethod::Post,
        url: "https://api.notion.com/v1/pages".to_string(),
        authorization: bearer_of(api_key),
        api_version: "2022-06-28".to_string(),
        body: Some(payload),
    }
}

/// The metadata read: GET of the container's database resource, no body.
pub fn database_metadata_request(api_key: &String, database_id: &String) -> (r: ApiRequest)
    ensures
        r.method == HttpMethod::Get,
        r.url@ == "https://api.notion.com/v1/databases/"@ + database_id@,
        r.authorization@ == "Bearer "@ + api_key@,
        r.api_version@ == "2022-06-28"@,
        r.body is None,
{
    let mut url = "https://api.notion.com/v1/databases/".to_string();
    url.append(database_id.as_str());
    ApiRequest {
        method: HttpMethod::Get,
        url,
        authorization: bearer_of(api_key),
        api_version: "2022-06-28".to_string(),
        body: None,
    }
}

/// The partial update: PATCH of the page resource with the payload.
pub fn update_page_request(api_key: &String, page_id: &String, payload: JsonValue) -> (r: ApiRequest)
    ensures
        r.method == HttpMethod::Patch,
        r.url@ == "https://api.notion.com/v1/pages/"@ + page_id@,
        r.authorization@ == "Bearer "@ + api_key@,
        r.api_version@ == "2022-06-28"@,
        r.body matches Some(b) && b@ == payload@,
{
    let mut url = "https://api.notion.com/v1/pages/".to_string();
    url.append(page_id.as_str());
    ApiRequest {
        method: HttpMethod::Patch,
        url,
        authorization: bearer_of(api_key),
        api_version: "2022-06-28".to_string(),
        body: Some(payload),
    }
}

/// Whether an HTTP status is a success.
pub open spec fn spec_is_success(status: u16) -> bool {
    200 <= status < 300
}

/// The denotation of a response body that either parsed or failed with the
/// transport's message.
pub open spec fn body_view(body: Result<&JsonValue, String>) -> Result<Json, Seq<char>> {
    match body {
        Ok(b) => Ok(b@),
        Err(e) => Err(e@),
    }
}

/// The denotation of an outcome carried as owned strings.
pub open spec fn outcome_view(r: Result<String, String>) -> Result<Seq<char>, Seq<char>> {
    match r {
        Ok(s) => Ok(s@),
        Err(s) => Err(s@),
    }
}

/// The message a failed call reports: the error body's `message` string
/// when there is one, else the fixed placeholder. A malformed error body is
/// masked by the placeholder rather than distinguished.
pub open spec fn spec_error_message(body: Result<Json, Seq<char>>) -> Seq<char> {
    match body {
        Ok(b) => match str_field(b, "message"@) {
            Some(m) => m,
            None => "Unknown Notion error"@,
        },
        Err(_) => "Unknown Notion error"@,
    }
}

/// The id a successful creation reports: the response's `id` string, else
/// the literal `Unknown ID` — a deliberate non-fatal degradation.
pub open spec fn spec_page_id_of(body: Json) -> Seq<char> {
    match str_field(body, "id"@) {
        Some(s) => s,
        None => "Unknown ID"@,
    }
}

/// The outcome of the page-creation call, given the response status and
/// its body (or the transport/decode failure message in place of a body).
pub open spec fn spec_create_outcome(status: u16, body: Result<Json, Seq<char>>) -> Result<
    Seq<char>,
    Seq<char>,
> {
    if spec_is_success(status) {
        match body {
            Ok(b) => Ok(spec_page_id_of(b)),
            Err(e) => Err(e),
        }
    } else {
        Err(spec_error_message(body))
    }
}

/// The outcome of the calls that only acknowledge: `Success` on any 2xx
/// (the body is not read), the error template otherwise.
pub open spec fn spec_ack_outcome(status: u16, body: Result<Json, Seq<char>>) -> Result<
    Seq<char>,
    Seq<char>,
> {
    if spec_is_success(status) {
        Ok("Success"@)
    } else {
        Err(spec_error_message(body))
    }
}

/// The error message of a parsed non-2xx body.
pub fn error_message_of(body: &JsonValue) -> (r: String)
    ensures
        r@ == spec_error_message(Ok(body@)),
{
    let key = "message".to_string();
    match body.get_field(&key) {
        Some(v) => match v.as_str() {
            Some(s) => s.clone(),
            None => "Unknown Notion error".to_string(),
        },
        None => "Unknown Notion error".to_string(),
    }
}

/// The page id of a parsed 2xx creation response.
pub fn page_id_of(body: &JsonValue) -> (r: String)
    ensures
        r@ == spec_page_id_of(body@),
{
    let key = "id".to_string();
    match body.get_field(&key) {
        Some(v) => match v.as_str() {
            Some(s) => s.clone(),
            None => "Unknown ID".to_string(),
        },
        None => "Unknown ID".to_string(),
    }
}

/// Interprets the page-creation response: on 2xx the created page's id
/// (or `Unknown ID`); on non-2xx the server's message (or the placeholder);
/// a body that never parsed is reported by its own message on 2xx and
/// masked by the placeholder otherwise.
pub fn interpret_create_response(status: u16, body: Result<&JsonValue, String>) -> (r: Result<String, String>)
    ensures
        outcome_view(r) == spec_create_outcome(status, body_view(body)),
{
    if 200 <= status && status < 300 {
        match body {
            Ok(b) => Ok(page_id_of(b)),
            Err(e) => Err(e),
        }
    } else {
        match body {
            Ok(b) => Err(error_message_of(b)),
            Err(_) => Err("Unknown Notion error".to_string()),
        }
    }
}

/// Interprets the connection-test and page-update responses: `Success` on
/// any 2xx, the error template otherwise.
pub fn interpret_ack_response(status: u16, body: Result<&JsonValue, String>) -> (r: Result<String, String>)
    ensures
        outcome_view(r) == spec_ack_outcome(status, body_view(body)),
{
    if 200 <= status && status < 300 {
        Ok("Success".to_string())
    } else {
        match body {
            Ok(b) => Err(error_message_of(b)),
            Err(_) => Err("Unknown Notion error".to_string()),
        }
    }
}

/// Law: a non-2xx response is always a failure, carrying the body's
/// `message` string when one is present and the fixed placeholder when the
/// body lacks one or never parsed.
pub proof fn lemma_error_mapping(status: u16, body: Result<Json, Seq<char>>)
    requires
        !spec_is_success(status),
    ensures
        spec_create_outcome(status, body) == Err::<Seq<char>, Seq<char>>(
            spec_error_message(body),
        ),
        spec_ack_outcome(status, body) == Err::<Seq<char>, Seq<char>>(spec_error_message(body)),
        forall|b: Json, m: Seq<char>|
            body == Ok::<Json, Seq<char>>(b) && str_field(b, "message"@) == Some(m)
                ==> spec_error_message(body) == m,
        (body matches Ok(b) && str_field(b, "message"@) is None) ==> spec_error_message(body)
            == "Unknown Notion error"@,
{
}

} // verus!
