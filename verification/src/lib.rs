//! A verified client core for a bot-messaging HTTP RPC platform.
//!
//! The crate models the wire data as JSON trees, builds request bodies
//! (plain JSON or multipart when a local file is attached), decodes the
//! uniform response envelope into typed results or structured errors,
//! and drives the long-poll update loop as a verified state machine:
//! offset advancement, failure backoff, and handler routing are all
//! specified and proved.  All I/O stays outside this library: a caller
//! performs the HTTP exchange and hands the raw outcome back in.

pub mod json;
pub mod parse;
pub mod error;
pub mod objects;
pub mod envelope;
pub mod poller;
pub mod dispatcher;
pub mod request;
pub mod client;
pub mod functions;
