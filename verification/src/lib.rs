//! Client-side protocol engine for the Eludris gateway.
//!
//! The crate keeps one authenticated event stream alive against the gateway
//! and turns its text frames into typed [`Event`] values. Everything here is
//! free of I/O: the state machines take what happened on the socket as plain
//! values and answer with what to do next, so that each rule of the protocol
//! carries a contract that Verus proves.
//!
//! * [`backoff`] computes the wait between failed connection attempts.
//! * [`models`] holds the values of the wire and the events made from them.
//! * [`json`] gives verified code access to parsed JSON documents.
//! * [`codec`] decodes server frames and encodes client frames.
//! * [`cache`] keeps the users of a session and makes the events.
//! * [`heartbeat`] schedules the keep-alive pings of a session.
//! * [`session`] runs the handshake and the life of one connection.
//! * [`gateway`] holds the client and the event stream, the root of it all.
//! * [`http`] holds the decisions of the request client.
use vstd::prelude::*;

pub mod backoff;
pub mod cache;
pub mod codec;
pub mod gateway;
pub mod heartbeat;
pub mod http;
pub mod json;
pub mod models;
pub mod session;

pub use crate::cache::GatewayData;
pub use crate::gateway::{Events, GatewayClient};
pub use crate::http::HttpClient;
pub use crate::models::Event;

verus! {

/// The default rest url
pub const REST_URL: &'static str = "https://eludris.tooty.xyz";

/// The default gateway url
pub const GATEWAY_URL: &'static str = "wss://eludris.tooty.xyz/ws/";

} // verus!
