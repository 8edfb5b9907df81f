//! The archive fetcher's decision logic: a redirect response body is
//! either the archive itself, a short error body that yields a
//! working download path, or unrecoverable.

use vstd::prelude::*;
use vstd::string::StringExecFns;
use vstd::utf8::{valid_utf8, decode_utf8, encode_utf8_decode_utf8};
use vstd::string::StringSliceAdditionalSpecFns;
use vstd::string::StrSliceExecFns;
use crate::connection::Connection;
use crate::text::{matches_at, occurs, find_from};

verus! {

/// Byte length below which a redirect response is taken for an error
/// payload rather than archive content. A deliberately crude signal,
/// not a content-type check: on a known authentication-chain failure
/// during redirect the service returns a short XML error body.
pub const SHORT_BODY_LIMIT: usize = 900;

/// The marker that identifies the recoverable redirect failure.
pub open spec fn error_marker() -> Seq<char> {
    "<Error><Code>InvalidRequest</Code>"@
}

/// The tag opening the resource path in the error body.
pub open spec fn resource_open() -> Seq<char> {
    "<Resource>"@
}

/// The tag closing the resource path in the error body.
pub open spec fn resource_close() -> Seq<char> {
    "</Resource>"@
}

/// Where the resource path stands in the error text: `i` is the first
/// occurrence of the opening tag, and `j` the first occurrence of the
/// closing tag at or after the path's start.
pub open spec fn resource_span(t: Seq<char>, i: int, j: int) -> bool {
    &&& matches_at(t, resource_open(), i)
    &&& forall|k: int| 0 <= k < i ==> !matches_at(t, resource_open(), k)
    &&& i + resource_open().len() <= j
    &&& matches_at(t, resource_close(), j)
    &&& forall|k: int| i + resource_open().len() <= k < j ==> !matches_at(t, resource_close(), k)
}

/// True when the error text holds a `<Resource>`...`</Resource>` pair.
pub open spec fn has_resource_span(t: Seq<char>) -> bool {
    exists|i: int, j: int| resource_span(t, i, j)
}

/// The exact substring between the first `<Resource>` and its
/// matching `</Resource>`.
pub open spec fn resource_path(t: Seq<char>) -> Seq<char> {
    let (i, j): (int, int) = choose|i: int, j: int| resource_span(t, i, j);
    t.subrange(i + resource_open().len(), j)
}

/// A resource span is unique: both ends are first occurrences.
proof fn lemma_resource_span_unique(t: Seq<char>, i1: int, j1: int, i2: int, j2: int)
    requires
        resource_span(t, i1, j1),
        resource_span(t, i2, j2),
    ensures
        i1 == i2,
        j1 == j2,
{
    if i1 < i2 {
        assert(!matches_at(t, resource_open(), i1));
    }
    if i2 < i1 {
        assert(!matches_at(t, resource_open(), i2));
    }
    if j1 < j2 {
        assert(!matches_at(t, resource_close(), j1));
    }
    if j2 < j1 {
        assert(!matches_at(t, resource_close(), j2));
    }
}

/// What the fetcher decides for a redirect response body.
#[derive(Debug)]
pub enum RedirectOutcome {
    /// The body is the archive itself.
    Archive,
    /// The known failure: the archive is retrieved by a plain GET to
    /// the server base followed by this path.
    Fallback(String),
    /// A short body of any other shape: the run fails.
    Unrecoverable,
}

/// Relies on core::str::from_utf8: succeeds exactly on valid UTF-8,
/// and the returned text is backed by the given bytes.
#[verifier::external_body]
fn decode_body(body: &Vec<u8>) -> (r: Option<&str>)
    ensures
        r is Some <==> valid_utf8(body@),
        r matches Some(t) ==> t.spec_bytes() == body@,
{
    core::str::from_utf8(body.as_slice()).ok()
}

/// Reads the recoverable-error shape out of a short response text:
/// the known marker must occur, and the download path is the exact
/// substring between the first `<Resource>` and its matching
/// `</Resource>`.
pub fn analyze_error_text(text: &str) -> (r: RedirectOutcome)
    ensures
        !occurs(text@, error_marker()) ==> r == RedirectOutcome::Unrecoverable,
        occurs(text@, error_marker()) && !has_resource_span(text@) ==> r
            == RedirectOutcome::Unrecoverable,
        occurs(text@, error_marker()) && has_resource_span(text@) ==> (r matches
            RedirectOutcome::Fallback(p) && p@ == resource_path(text@)),
{
    let marker_hit = find_from(text, "<Error><Code>InvalidRequest</Code>", 0);
    if marker_hit.is_none() {
        return RedirectOutcome::Unrecoverable;
    }
    let open_hit = find_from(text, "<Resource>", 0);
    let i = match open_hit {
        Some(i) => i,
        None => {
            proof {
                if has_resource_span(text@) {
                    let (si, sj): (int, int) = choose|si: int, sj: int|
                        resource_span(text@, si, sj);
                    assert(!matches_at(text@, resource_open(), si));
                }
            }
            return RedirectOutcome::Unrecoverable;
        },
    };
    let open_len = "<Resource>".unicode_len();
    let text_len = text.unicode_len();
    assert(i + open_len <= text_len);
    let close_hit = find_from(text, "</Resource>", i + open_len);
    let j = match close_hit {
        Some(j) => j,
        None => {
            proof {
                if has_resource_span(text@) {
                    let (si, sj): (int, int) = choose|si: int, sj: int|
                        resource_span(text@, si, sj);
                    assert(si == i);
                    assert(!matches_at(text@, resource_close(), sj));
                }
            }
            return RedirectOutcome::Unrecoverable;
        },
    };
    let path = text.substring_char(i + open_len, j);
    proof {
        assert(resource_span(text@, i as int, j as int));
        let (si, sj): (int, int) = choose|si: int, sj: int| resource_span(text@, si, sj);
        lemma_resource_span_unique(text@, si, sj, i as int, j as int);
    }
    RedirectOutcome::Fallback(String::from_str(path))
}

/// The fetcher's decision for the raw redirect response: a body at or
/// above the length threshold is the archive; a shorter one is read
/// as the known error shape, and anything else is unrecoverable.
pub fn analyze_redirect_body(body: &Vec<u8>) -> (r: RedirectOutcome)
    ensures
        body@.len() >= SHORT_BODY_LIMIT ==> r == RedirectOutcome::Archive,
        body@.len() < SHORT_BODY_LIMIT && !valid_utf8(body@) ==> r
            == RedirectOutcome::Unrecoverable,
        body@.len() < SHORT_BODY_LIMIT && valid_utf8(body@) ==> {
            let t = decode_utf8(body@);
            &&& !occurs(t, error_marker()) ==> r == RedirectOutcome::Unrecoverable
            &&& occurs(t, error_marker()) && !has_resource_span(t) ==> r
                == RedirectOutcome::Unrecoverable
            &&& occurs(t, error_marker()) && has_resource_span(t) ==> (r matches
                RedirectOutcome::Fallback(p) && p@ == resource_path(t))
        },
{
    if body.len() >= SHORT_BODY_LIMIT {
        return RedirectOutcome::Archive;
    }
    match decode_body(body) {
        None => RedirectOutcome::Unrecoverable,
        Some(text) => {
            proof {
                encode_utf8_decode_utf8(text@);
            }
            analyze_error_text(text)
        },
    }
}

/// The URL for the recovery retrieval: the server base followed by
/// the resource path taken from the error body, fetched by a plain
/// unauthenticated GET.
pub fn fallback_url(conn: &Connection, path: &str) -> (r: String)
    ensures
        r@ == conn.server@ + path@,
{
    conn.server.clone().concat(path)
}

} // verus!
