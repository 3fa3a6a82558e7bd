//! Client-side engine for JSON-RPC over one persistent duplex connection:
//! request/response correlation, a notification fan-out bus and one-shot
//! task hooks, written as state machines that an async driver feeds with
//! inbound messages, clock readings and connection events.

pub mod json;
pub mod inbound;
pub mod registry;
pub mod bus;
pub mod hooks;
pub mod client;
pub mod method;
pub mod laws;
