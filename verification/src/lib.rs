//! A bidirectional request/response/notification protocol engine and a
//! name-indexed tool dispatcher.
//!
//! The engine keeps the table of outstanding requests, correlates inbound
//! responses with it, and decides what to do with every inbound message.
//! The dispatcher maps tool names to handlers and turns every invocation,
//! including failed ones, into a structured response.

pub mod client;
pub mod error;
pub mod json;
pub mod message;
pub mod protocol;
pub mod server;
pub mod text;
pub mod tools;
pub mod transport;
pub mod types;
