//! The state machine of a browser chat client: the login form, the wire
//! envelopes, the roster and the message list.

pub mod chat;
pub mod envelope;
pub mod json;
pub mod laws;
pub mod login;
pub mod roster;
