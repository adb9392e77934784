//! A minimal single-threaded cooperative executor core together with the
//! adapters that bridge host-managed byte channels to chunk-based sinks and
//! streams, and a handful of value-conversion helpers layered on top.
//!
//! The executor side is expressed as explicit state machines: every decision
//! the run loop, the output sink, the input stream and the send bridge make
//! is a verified function from state and host reply to the next state and
//! action.  The surrounding plumbing (futures, wakers, the blocking host
//! readiness call) lives outside this crate and feeds those functions.

pub mod bridge;
pub mod executor;
pub mod guard;
pub mod http;
pub mod llm;
pub mod pg3;
pub mod sink;
pub mod sqlite;
pub mod stream;
