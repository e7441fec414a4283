//! Requests to the Azure DevOps REST API, described as plain values.

use vstd::prelude::*;
use crate::config::AdoService;
use crate::error::AdoctlError;
use crate::text;

verus! {

/// The HTTP methods the tool uses.
#[derive(Debug, Clone, Copy, PartialEq, Eq, Structural)]
pub enum HttpMethod {
    Get,
    Put,
    Patch,
    Delete,
}

/// One API call: method, service, path below the service's base URL and query
/// pairs in order.
#[derive(Debug, Clone)]
pub struct ApiRequest {
    pub method: HttpMethod,
    pub service: AdoService,
    pub path: String,
    pub query: Vec<(String, String)>,
}

/// The query pairs as text.
pub open spec fn query_text(query: Seq<(String, String)>) -> Seq<(Seq<char>, Seq<char>)> {
    query.map_values(|p: (String, String)| (p.0@, p.1@))
}

impl ApiRequest {
    /// The request as plain values.
    pub open spec fn describes(&self, method: HttpMethod, service: AdoService, path: Seq<char>, query: Seq<(Seq<char>, Seq<char>)>) -> bool {
        &&& self.method == method
        &&& self.service == service
        &&& self.path@ == path
        &&& query_text(self.query@) == query
    }
}

/// A query pair from two texts.
pub fn pair(key: &str, value: &str) -> (r: (String, String))
    ensures
        r.0@ == key@,
        r.1@ == value@,
{
    (key.to_owned(), value.to_owned())
}

/// What `serde_json::from_str::<serde_json::Value>(text)` followed by
/// `Value::get(key)` and `Value::as_str` gives: `None` when `text` is not
/// JSON; `Some(None)` when the value has no member `key` (it is no object, or
/// lacks that key); `Some(Some(Some(s)))` when the member is the string `s`;
/// `Some(Some(None))` when it is another value.
pub uninterp spec fn json_member(text: Seq<char>, key: Seq<char>) -> Option<Option<Option<Seq<char>>>>;

/// Parses `text` with `serde_json::from_str` into a `serde_json::Value` and
/// reads its member `key` (`Value::get`) as a string (`Value::as_str`). The
/// contract claims only that the outcome is the one `json_member` names.
#[verifier::external_body]
fn json_member_text(text: &str, key: &str) -> (r: Option<Option<Option<String>>>)
    ensures
        match r {
            None => json_member(text@, key@) is None,
            Some(None) => json_member(text@, key@) == Some(None::<Option<Seq<char>>>),
            Some(Some(None)) => json_member(text@, key@) == Some(Some(None::<Seq<char>>)),
            Some(Some(Some(s))) => json_member(text@, key@) == Some(Some(Some(s@))),
        },
{
    match serde_json::from_str::<serde_json::Value>(text) {
        Err(_) => None,
        Ok(value) => match value.get(key) {
            None => Some(None),
            Some(member) => Some(Some(member.as_str().map(str::to_owned))),
        },
    }
}

/// The message of an error response: the body's `message` member, or its
/// `error_description` member where there is no `message`, when that member
/// is a string; else the whole body, trimmed.
pub open spec fn api_message_of(body: Seq<char>) -> Seq<char> {
    let chosen = match json_member(body, "message"@) {
        Some(Some(member)) => Some(member),
        Some(None) => match json_member(body, "error_description"@) {
            Some(Some(member)) => Some(member),
            _ => None,
        },
        None => None,
    };
    match chosen {
        Some(Some(message)) => message,
        _ => text::trim(body),
    }
}

/// Reads the message out of an error response body.
pub fn extract_api_message(body: &str) -> (r: String)
    ensures
        r@ == api_message_of(body@),
{
    let chosen = match json_member_text(body, "message") {
        Some(Some(member)) => Some(member),
        Some(None) => match json_member_text(body, "error_description") {
            Some(Some(member)) => Some(member),
            _ => None,
        },
        None => None,
    };
    match chosen {
        Some(Some(message)) => message,
        _ => text::trimmed(body),
    }
}

/// Whether an HTTP status code is a success (2xx).
pub open spec fn is_success(status: u16) -> bool {
    200 <= status && status < 300
}

/// The outcome of a response with `status` and `body`: success for a 2xx
/// status, else an `Api` error with the status and the body's message.
pub fn response_outcome(status: u16, body: &str) -> (r: Result<(), AdoctlError>)
    ensures
        is_success(status) ==> r is Ok,
        !is_success(status) ==> (r matches Err(AdoctlError::Api { status: s, message: m })
            && s == status && m@ == api_message_of(body@)),
{
    if 200 <= status && status < 300 {
        Ok(())
    } else {
        Err(AdoctlError::Api { status, message: extract_api_message(body) })
    }
}

/// The request that checks that the organization answers with the credential.
pub fn connection_check_request() -> (r: ApiRequest)
    ensures
        r.describes(
            HttpMethod::Get,
            AdoService::Core,
            "_apis/connectionData"@,
            seq![("api-version"@, "7.1-preview.1"@)],
        ),
{
    let mut query: Vec<(String, String)> = Vec::new();
    query.push(pair("api-version", "7.1-preview.1"));
    let r = ApiRequest {
        method: HttpMethod::Get,
        service: AdoService::Core,
        path: "_apis/connectionData".to_owned(),
        query,
    };
    assert(query_text(r.query@) =~= seq![("api-version"@, "7.1-preview.1"@)]);
    r
}

} // verus!
