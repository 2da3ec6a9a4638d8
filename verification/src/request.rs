//! Parsing the invocation payload: a JSON object with a string field
//! `event_id`. Unknown additional fields are ignored. The JSON reading
//! itself is done by `serde_json` behind a trusted wrapper whose every
//! outcome is named, so the payload-level contracts say exactly when an
//! invocation succeeds and what it returns.

use vstd::prelude::*;
use crate::handler::{Context, HandlerOutput, Request, handle, is_handler_output};

verus! {

/// Why a payload was rejected.
#[derive(Debug, Clone, Copy, PartialEq, Eq)]
pub enum RequestError {
    /// The payload is not valid JSON.
    InvalidJson,
    /// The payload is a JSON value without an `event_id` field.
    MissingEventId,
    /// The payload has an `event_id` field that is not a JSON string.
    EventIdNotString,
}

/// Whether a string is a JSON document that `serde_json` accepts. The
/// outcome depends on the characters alone.
pub uninterp spec fn json_parses(s: Seq<char>) -> bool;

/// Whether a payload that parses as JSON is an object carrying an
/// `event_id` entry. Meaningful only where `json_parses` holds; the
/// outcome depends on the characters alone.
pub uninterp spec fn json_has_event_id(s: Seq<char>) -> bool;

/// Whether the `event_id` entry of a payload is a JSON string. Meaningful
/// only where `json_parses` and `json_has_event_id` hold; the outcome
/// depends on the characters alone.
pub uninterp spec fn json_event_id_is_string(s: Seq<char>) -> bool;

/// The characters of the payload's `event_id` string. Meaningful only
/// where the three predicates above hold; the outcome depends on the
/// characters alone.
pub uninterp spec fn json_event_id(s: Seq<char>) -> Seq<char>;

/// Relies on `serde_json::from_str::<Value>`, `Value::get` and
/// `Value::as_str`: parse the payload, look up `event_id`, take its
/// string content. Each step is deterministic in the payload characters,
/// so each outcome carries a name, and every branch of the result is tied
/// to the names exactly.
#[verifier::external_body]
fn extract_event_id(s: &str) -> (r: Result<String, RequestError>)
    ensures
        r is Ok <==> (json_parses(s@) && json_has_event_id(s@) && json_event_id_is_string(s@)),
        r is Ok ==> r->Ok_0@ == json_event_id(s@),
        r is Err ==> ((r->Err_0 == RequestError::InvalidJson) <==> !json_parses(s@)),
        r is Err ==> ((r->Err_0 == RequestError::MissingEventId) <==> (json_parses(s@)
            && !json_has_event_id(s@))),
        r is Err ==> ((r->Err_0 == RequestError::EventIdNotString) <==> (json_parses(s@)
            && json_has_event_id(s@) && !json_event_id_is_string(s@))),
{
    match serde_json::from_str::<serde_json::Value>(s) {
        Err(_) => Err(RequestError::InvalidJson),
        Ok(v) => match v.get("event_id") {
            None => Err(RequestError::MissingEventId),
            Some(f) => match f.as_str() {
                None => Err(RequestError::EventIdNotString),
                Some(e) => Ok(e.to_string()),
            },
        },
    }
}

/// Parses a payload into a request: succeeds exactly when the payload is
/// valid JSON carrying a string `event_id`, and then returns that field's
/// characters verbatim. Fails with `InvalidJson` exactly when the payload
/// is not valid JSON, with `MissingEventId` exactly when it parses but
/// has no `event_id` field, and with `EventIdNotString` exactly when the
/// field is present but not a JSON string.
pub fn parse_request(payload: &str) -> (r: Result<Request, RequestError>)
    ensures
        r is Ok <==> (json_parses(payload@) && json_has_event_id(payload@)
            && json_event_id_is_string(payload@)),
        r matches Ok(req) ==> req.event_id@ == json_event_id(payload@),
        (r == Err::<Request, RequestError>(RequestError::InvalidJson)) <==> !json_parses(
            payload@,
        ),
        (r == Err::<Request, RequestError>(RequestError::MissingEventId)) <==> (json_parses(
            payload@,
        ) && !json_has_event_id(payload@)),
        (r == Err::<Request, RequestError>(RequestError::EventIdNotString)) <==> (json_parses(
            payload@,
        ) && json_has_event_id(payload@) && !json_event_id_is_string(payload@)),
{
    match extract_event_id(payload) {
        Ok(e) => Ok(Request { event_id: e }),
        Err(err) => Err(err),
    }
}

/// One whole invocation on a raw payload: parse, then handle. Succeeds
/// exactly when the payload is valid JSON carrying a string `event_id`,
/// and the output is then the correct handler outcome for that field and
/// the context's request id; each error comes exactly on the payloads
/// that owe it.
pub fn handle_payload(payload: &str, ctx: Context) -> (r: Result<HandlerOutput, RequestError>)
    ensures
        r is Ok <==> (json_parses(payload@) && json_has_event_id(payload@)
            && json_event_id_is_string(payload@)),
        r matches Ok(out) ==> is_handler_output(out, json_event_id(payload@), ctx.request_id@),
        (r == Err::<HandlerOutput, RequestError>(RequestError::InvalidJson)) <==> !json_parses(
            payload@,
        ),
        (r == Err::<HandlerOutput, RequestError>(RequestError::MissingEventId)) <==> (json_parses(
            payload@,
        ) && !json_has_event_id(payload@)),
        (r == Err::<HandlerOutput, RequestError>(RequestError::EventIdNotString)) <==> (
        json_parses(payload@) && json_has_event_id(payload@) && !json_event_id_is_string(
            payload@,
        )),
{
    match parse_request(payload) {
        Err(e) => Err(e),
        Ok(req) => Ok(handle(req, ctx)),
    }
}

} // verus!
