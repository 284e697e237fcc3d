//! A minimal relay: connected sessions are registered under an identifier,
//! and envelopes are routed to the session named as their receiver.

pub mod wire;
pub mod remote_server;
pub mod remote_session;
