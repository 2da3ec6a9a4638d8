//! A small event-handling library for a cloud-function entry point.
//!
//! The library receives an event payload carrying an `event_id`, together
//! with a per-invocation context carrying a `request_id`, and produces a
//! response and one structured log record. Parsing the payload and building
//! the response are verified; the surrounding runtime dispatch and the
//! actual log emission are left to the embedding program.

pub mod handler;
pub mod request;
