//! Typed reading of the service's JSON responses. Parsing is
//! serde_json's; what it yields for a given text is deterministic, so
//! each reading — whether the text parses, its `status` field, the
//! submitted job id, the reported job state — carries a name, and the
//! response processors are verified against exact contracts over
//! those names: the status gate first, then the one field the step
//! needs, whose absence is a parse failure.

use vstd::prelude::*;
use crate::api::{is_plain_json_text, plain_json_text};
use crate::error::{classify_status, validate_response, FatalError};
use crate::poller::{parse_job_state, state_of_text, JobState};

verus! {

/// Whether the text is a JSON document the parser accepts.
pub uninterp spec fn json_parses(s: Seq<char>) -> bool;

/// The numeric `status` field of the parsed document, where the text
/// parses to an object carrying one.
pub uninterp spec fn status_of(s: Seq<char>) -> Option<u64>;

/// The string at `data.fileOperation.id` of the parsed document,
/// where the text parses and the field is a string.
pub uninterp spec fn submit_id_of(s: Seq<char>) -> Option<Seq<char>>;

/// The string at `data.state` of the parsed document, where the text
/// parses and the field is a string.
pub uninterp spec fn job_state_of(s: Seq<char>) -> Option<Seq<char>>;

/// Relies on serde_json::from_str, Value::get and Value::as_u64: one
/// reading of a response's envelope — whether the text parses, and
/// its numeric `status` field. Both are functions of the text alone.
#[verifier::external_body]
fn read_envelope(text: &str) -> (r: (bool, Option<u64>))
    ensures
        r.0 == json_parses(text@),
        r.1 == status_of(text@),
{
    match serde_json::from_str::<serde_json::Value>(text) {
        Ok(v) => {
            let status = match v.get("status") {
                Some(field) => field.as_u64(),
                None => None,
            };
            (true, status)
        },
        Err(_) => (false, None),
    }
}

/// Relies on serde_json::from_str, Value::get and Value::as_str: the
/// string at `data.fileOperation.id`, a function of the text alone.
#[verifier::external_body]
fn read_submit_id(text: &str) -> (r: Option<String>)
    ensures
        r matches Some(id) ==> submit_id_of(text@) == Some(id@),
        r is None ==> submit_id_of(text@) is None,
{
    let v = match serde_json::from_str::<serde_json::Value>(text) {
        Ok(v) => v,
        Err(_) => return None,
    };
    match v.get("data").and_then(|d| d.get("fileOperation")).and_then(|o| o.get("id")) {
        Some(field) => match field.as_str() {
            Some(id) => Some(id.to_string()),
            None => None,
        },
        None => None,
    }
}

/// Relies on serde_json::from_str, Value::get and Value::as_str: the
/// string at `data.state`, a function of the text alone.
#[verifier::external_body]
fn read_job_state(text: &str) -> (r: Option<String>)
    ensures
        r matches Some(state) ==> job_state_of(text@) == Some(state@),
        r is None ==> job_state_of(text@) is None,
{
    let v = match serde_json::from_str::<serde_json::Value>(text) {
        Ok(v) => v,
        Err(_) => return None,
    };
    match v.get("data").and_then(|d| d.get("state")) {
        Some(field) => match field.as_str() {
            Some(state) => Some(state.to_string()),
            None => None,
        },
        None => None,
    }
}

/// The hard gate every response passes: text that does not parse is a
/// parse failure, a recognized `status` code is its classified error,
/// and a missing or unrecognized status passes.
pub open spec fn status_gate(s: Seq<char>) -> Result<(), FatalError> {
    if !json_parses(s) {
        Err(FatalError::Parse)
    } else {
        match status_of(s) {
            Some(code) => classify_status(code),
            None => Ok(()),
        }
    }
}

/// The result of reading the export-submission response: the error a
/// failing status check classifies, the job id at
/// `data.fileOperation.id` if a plain JSON string stands there, and a
/// parse failure otherwise.
pub open spec fn submit_response_spec(s: Seq<char>) -> Result<Seq<char>, FatalError> {
    match status_gate(s) {
        Err(e) => Err(e),
        Ok(_) => match submit_id_of(s) {
            Some(id) => if plain_json_text(id) {
                Ok(id)
            } else {
                Err(FatalError::Parse)
            },
            None => Err(FatalError::Parse),
        },
    }
}

/// The result of reading one poll response: the error a failing
/// status check classifies — a rate-limit or auth error returned
/// mid-poll has no `data.state` field and is not blindly unwrapped —
/// the state the text at `data.state` denotes, and a parse failure
/// otherwise.
pub open spec fn info_response_spec(s: Seq<char>) -> Result<JobState, FatalError> {
    match status_gate(s) {
        Err(e) => Err(e),
        Ok(_) => match job_state_of(s) {
            Some(state) => Ok(state_of_text(state)),
            None => Err(FatalError::Parse),
        },
    }
}

/// Reads the export-submission response: after the status gate, the
/// job id is taken from `data.fileOperation.id`. A missing or
/// malformed field — including an id that could not stand in a JSON
/// string unescaped — is a parse failure.
pub fn process_submit_response(text: &str) -> (r: Result<String, FatalError>)
    ensures
        r matches Ok(id) ==> submit_response_spec(text@) == Ok::<Seq<char>, FatalError>(id@),
        r matches Err(e) ==> submit_response_spec(text@) == Err::<Seq<char>, FatalError>(e),
        r matches Ok(id) ==> plain_json_text(id@),
{
    let (parses, status) = read_envelope(text);
    if !parses {
        return Err(FatalError::Parse);
    }
    if let Some(code) = status {
        match validate_response(code) {
            Ok(()) => (),
            Err(e) => {
                return Err(e);
            },
        }
    }
    match read_submit_id(text) {
        Some(id) => {
            if is_plain_json_text(id.as_str()) {
                Ok(id)
            } else {
                Err(FatalError::Parse)
            }
        },
        None => Err(FatalError::Parse),
    }
}

/// Reads one poll response: the status gate first, then the job state
/// at `data.state`.
pub fn process_info_response(text: &str) -> (r: Result<JobState, FatalError>)
    ensures
        r == info_response_spec(text@),
{
    let (parses, status) = read_envelope(text);
    if !parses {
        return Err(FatalError::Parse);
    }
    if let Some(code) = status {
        match validate_response(code) {
            Ok(()) => (),
            Err(e) => {
                return Err(e);
            },
        }
    }
    match read_job_state(text) {
        Some(state) => Ok(parse_job_state(state.as_str())),
        None => Err(FatalError::Parse),
    }
}

/// Reads a response that carries no payload the run needs — the
/// cleanup delete — applying only the status gate.
pub fn process_plain_response(text: &str) -> (r: Result<(), FatalError>)
    ensures
        r == status_gate(text@),
{
    let (parses, status) = read_envelope(text);
    if !parses {
        return Err(FatalError::Parse);
    }
    match status {
        Some(code) => validate_response(code),
        None => Ok(()),
    }
}

} // verus!
