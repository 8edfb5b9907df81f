//! The API client's verified half: every request against the remote
//! service is described here as plain data — URL, headers and body —
//! with exact contracts; sending it is left to the caller.

use vstd::prelude::*;
use vstd::string::{StrSliceExecFns, StringExecFns};
use crate::connection::Connection;

verus! {

/// An authenticated JSON POST against a named remote operation,
/// ready to be handed to a transport.
pub struct ApiRequest {
    /// `<serverBaseURL>/api/<operation>`.
    pub url: String,
    /// Always `application/json`.
    pub content_type: String,
    /// Always `application/json`.
    pub accept: String,
    /// Always `Bearer <apiKey>`.
    pub authorization: String,
    /// The JSON body, where the operation takes one.
    pub body: Option<String>,
}

/// Builds the authenticated JSON POST for a named operation: the
/// target URL is `<serverBaseURL>/api/<operation>`, and every request
/// carries the content-type, accept and authorization headers.
pub fn build_post_request(conn: &Connection, operation: &str, body: Option<String>) -> (r:
    ApiRequest)
    ensures
        r.url@ == conn.server@ + "/api/"@ + operation@,
        r.content_type@ == "application/json"@,
        r.accept@ == "application/json"@,
        r.authorization@ == "Bearer "@ + conn.apikey@,
        r.body == body,
{
    ApiRequest {
        url: conn.server.clone().concat("/api/").concat(operation),
        content_type: String::from_str("application/json"),
        accept: String::from_str("application/json"),
        authorization: String::from_str("Bearer ").concat(conn.apikey.as_str()),
        body,
    }
}

/// True when the text can stand inside a JSON string literal as it
/// is: no quote, no backslash, no control character.
pub open spec fn plain_json_text(s: Seq<char>) -> bool {
    forall|i: int| 0 <= i < s.len() ==> s[i] != '"' && s[i] != '\\' && s[i] as u32 >= 32
}

/// Whether the text can stand inside a JSON string literal unescaped.
pub fn is_plain_json_text(s: &str) -> (r: bool)
    ensures
        r == plain_json_text(s@),
{
    let len = s.unicode_len();
    let mut i: usize = 0;
    while i < len
        invariant
            len == s@.len(),
            i <= len,
            forall|j: int| 0 <= j < i ==> s@[j] != '"' && s@[j] != '\\' && s@[j] as u32 >= 32,
        decreases len - i,
    {
        let c = s.get_char(i);
        if c == '"' || c == '\\' || (c as u32) < 32 {
            return false;
        }
        i = i + 1;
    }
    true
}

/// The body `{"id":"<id>"}` sent with the info, redirect and delete
/// operations. An id that could not stand in a JSON string unescaped
/// is refused rather than quoted: the service's job ids never carry
/// such characters, so one that does marks a malformed response.
pub fn id_request_body(id: &str) -> (r: Option<String>)
    ensures
        plain_json_text(id@) ==> (r matches Some(b) && b@ == "{\"id\":\""@ + id@ + "\"}"@),
        !plain_json_text(id@) ==> r is None,
{
    if is_plain_json_text(id) {
        Some(String::from_str("{\"id\":\"").concat(id).concat("\"}"))
    } else {
        None
    }
}

} // verus!
