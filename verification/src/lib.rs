//! Core of a two-party chat service: session/token authentication and
//! real-time message fan-out.
//!
//! The library proves the request-time authentication verdict (token codec,
//! session validator, route gates), the event-bus announcement of posted
//! messages, and the per-connection stream filtering, all over plain values.
//! Network, database and rendering glue live outside the library and hand it
//! plain values.

pub mod activate;
pub mod auth;
pub mod bus;
pub mod chat;
pub mod codec;
pub mod friends;
pub mod page;
pub mod session;
pub mod stream;
pub mod username;
