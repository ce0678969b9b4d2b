//! Tunnel network connections over HTTP.
//!
//! A layline server turns a small HTTP API (`/create`, `/recv`, `/send`, `/close`) into TCP
//! connections to one fixed destination; a layline client turns local connections into requests
//! on that API. This crate holds what the two sides decide as verified code: session
//! identifiers, routing, the session table, the inactivity watchdog, and the step by step
//! behaviour of each transfer. Sockets, timers and HTTP itself are driven from outside, by
//! performing the step that the library asks for and handing back what came of it.

pub mod base_laws;
pub mod client;
pub mod client_laws;
pub mod constants;
pub mod headers;
pub mod ident;
pub mod liveness;
pub mod options;
pub mod reply;
pub mod server;
pub mod server_laws;
pub mod text;
pub mod transfer;
pub mod tunnel;
