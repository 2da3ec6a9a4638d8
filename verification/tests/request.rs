use rust_lambda::handler::Context;
use rust_lambda::request::{handle_payload, parse_request, RequestError};

#[test]
fn parse_valid_payload() {
    let r = parse_request("{\"event_id\": \"abc-123\"}").unwrap();
    assert_eq!(r.event_id, "abc-123");
}

#[test]
fn parse_missing_event_id() {
    let r = parse_request("{}");
    assert_eq!(r.unwrap_err(), RequestError::MissingEventId);
}

#[test]
fn parse_non_string_event_id() {
    let r = parse_request("{\"event_id\": 7}");
    assert_eq!(r.unwrap_err(), RequestError::EventIdNotString);
    let r = parse_request("{\"event_id\": null}");
    assert_eq!(r.unwrap_err(), RequestError::EventIdNotString);
    let r = parse_request("{\"event_id\": [\"abc\"]}");
    assert_eq!(r.unwrap_err(), RequestError::EventIdNotString);
}

#[test]
fn parse_invalid_json() {
    let r = parse_request("{");
    assert_eq!(r.unwrap_err(), RequestError::InvalidJson);
    let r = parse_request("not json at all");
    assert_eq!(r.unwrap_err(), RequestError::InvalidJson);
}

#[test]
fn parse_ignores_unknown_fields() {
    let r = parse_request("{\"event_id\": \"x\", \"extra\": true, \"n\": 3}").unwrap();
    assert_eq!(r.event_id, "x");
}

#[test]
fn parse_empty_event_id() {
    let r = parse_request("{\"event_id\": \"\"}").unwrap();
    assert_eq!(r.event_id, "");
}

#[test]
fn payload_scenario() {
    let ctx = Context {
        request_id: String::from("req-0001"),
    };
    let out = handle_payload("{\"event_id\": \"abc-123\"}", ctx).unwrap();
    assert_eq!(out.response.req_id, "req-0001");
    assert_eq!(out.response.msg, "Processed event abc-123");
    assert_eq!(out.log.request_id, "req-0001");
    assert_eq!(out.log.event_id, "abc-123");
    assert_eq!(out.log.message, "Processing new event");
}

#[test]
fn payload_without_event_id_fails() {
    let ctx = Context {
        request_id: String::from("req-0002"),
    };
    let r = handle_payload("{}", ctx);
    assert_eq!(r.unwrap_err(), RequestError::MissingEventId);
}

#[test]
fn payload_idempotent_across_contexts() {
    let payload = "{\"event_id\": \"abc-123\"}";
    let out1 = handle_payload(
        payload,
        Context {
            request_id: String::from("req-0001"),
        },
    )
    .unwrap();
    let out2 = handle_payload(
        payload,
        Context {
            request_id: String::from("req-0002"),
        },
    )
    .unwrap();
    assert_eq!(out1.response.msg, out2.response.msg);
    assert_eq!(out1.response.req_id, "req-0001");
    assert_eq!(out2.response.req_id, "req-0002");
}
