//! Server-side core of an agent-to-agent task protocol.
//!
//! A client submits a unit of work (a task) carrying a message; a pluggable
//! agent computes a result asynchronously, emitting a stream of events; the
//! server persists task state and history and answers later queries and
//! cancellations by task identifier.

pub mod card;
pub mod codec;
pub mod error;
pub mod executor;
pub mod greeting;
pub mod handler;
pub mod json;
pub mod jsonrpc;
pub mod laws;
pub mod params;
pub mod store;
mod text;
pub mod types;
