//! The handler: a pure mapping from a request and an invocation context to
//! a response and one structured log record.

use vstd::prelude::*;
use vstd::string::StringExecFns;

verus! {

/// An incoming event: the one field the handler reads from the payload.
#[derive(Debug)]
pub struct Request {
    pub event_id: String,
}

/// Per-invocation metadata supplied by the hosting runtime.
#[derive(Debug)]
pub struct Context {
    pub request_id: String,
}

/// What the handler returns to the runtime: the request id copied verbatim
/// from the context, and a message derived from the event id.
#[derive(Debug)]
pub struct Response {
    pub req_id: String,
    pub msg: String,
}

/// The one structured log record a successful invocation emits: a fixed
/// message plus the request id and the event id as named fields.
#[derive(Debug)]
pub struct LogRecord {
    pub request_id: String,
    pub event_id: String,
    pub message: String,
}

/// Everything one invocation produces: the log record to emit before
/// returning, and the response to hand back.
#[derive(Debug)]
pub struct HandlerOutput {
    pub log: LogRecord,
    pub response: Response,
}

/// The response message for a given event id: the fixed template with the
/// event id substituted verbatim.
pub open spec fn msg_spec(event_id: Seq<char>) -> Seq<char> {
    "Processed event "@ + event_id
}

/// The fixed message of the per-invocation log record.
pub open spec fn processing_message() -> Seq<char> {
    "Processing new event"@
}

/// What a correct invocation outcome looks like for a given event id and
/// request id: the response's `req_id` is the request id verbatim, its
/// `msg` is the template applied to the event id, and the log record
/// carries both identifiers and the fixed message.
pub open spec fn is_handler_output(
    out: HandlerOutput,
    event_id: Seq<char>,
    request_id: Seq<char>,
) -> bool {
    &&& out.response.req_id@ == request_id
    &&& out.response.msg@ == msg_spec(event_id)
    &&& out.log.request_id@ == request_id
    &&& out.log.event_id@ == event_id
    &&& out.log.message@ == processing_message()
}

/// Builds the response message for an event id.
pub fn make_msg(event_id: &str) -> (r: String)
    ensures
        r@ == msg_spec(event_id@),
{
    let mut msg = String::from_str("Processed event ");
    msg.append(event_id);
    msg
}

/// Handles one invocation: produces the log record to emit and the
/// response to return. Always succeeds; the only failure a whole
/// invocation can see is a payload that does not parse, which is decided
/// before this point.
pub fn handle(req: Request, ctx: Context) -> (out: HandlerOutput)
    ensures
        is_handler_output(out, req.event_id@, ctx.request_id@),
{
    let Request { event_id } = req;
    let Context { request_id } = ctx;
    let msg = make_msg(event_id.as_str());
    let log = LogRecord {
        request_id: request_id.clone(),
        event_id,
        message: String::from_str("Processing new event"),
    };
    let response = Response { req_id: request_id, msg };
    HandlerOutput { log, response }
}

/// Handling the same request under two distinct contexts yields outputs
/// that differ only in the request id: the response messages are
/// identical, as are the event id and the fixed message of the two log
/// records.
pub proof fn lemma_handler_idempotent(
    out1: HandlerOutput,
    out2: HandlerOutput,
    event_id: Seq<char>,
    request_id1: Seq<char>,
    request_id2: Seq<char>,
)
    requires
        is_handler_output(out1, event_id, request_id1),
        is_handler_output(out2, event_id, request_id2),
    ensures
        out1.response.msg@ == out2.response.msg@,
        out1.response.req_id@ == request_id1,
        out2.response.req_id@ == request_id2,
        out1.log.event_id@ == out2.log.event_id@,
        out1.log.message@ == out2.log.message@,
{
}

} // verus!
