//! Request handling for a KCL language server.
//!
//! The library holds the decisions of the server: which requests are admitted
//! and where they go, which documents a handler may look at, when a request has
//! to be tried again, and what is answered. Taking locks, running the analyses
//! and sending messages is left to the caller: a handler takes what is known of
//! its request and the latest event, and says what to do next.

pub mod outside;
pub mod snapshot;

pub mod errors;
pub mod exchange;
pub mod formatting;
pub mod handlers;
pub mod laws;
pub mod messages;
pub mod protocol;
pub mod rename;
pub mod server;
