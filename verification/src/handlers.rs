//! What the server answers to its clients: over HTTP, and over a session.

pub mod http;
pub mod ws;
