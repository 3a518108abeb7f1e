//! Core of a collaborative text-document server.
//!
//! Clients send edits against named documents. The coordinator puts the
//! edits of a document in one order, rebases each on what was applied since
//! the revision it was written for, applies it, and says what is to be
//! logged, written out and sent. Nothing here reads a file, a socket or a
//! lock: the process around the core hands it plain values and carries out
//! the effects that it returns.
//!
//! Every function is verified against the contract in its header, except for
//! a handful that hand one call to another crate or to the standard library;
//! their comments begin with "Calls" and say what is taken on trust.

/// Passwords and where a request carries them.
pub mod auth;
/// Settings of the process.
pub mod config;
/// Taking edits in, one at a time.
pub mod coordinator;
/// One document and the rebasing of edits.
pub mod document;
/// Answers to HTTP requests and to the messages of a session.
pub mod handlers;
/// Who is connected to which document.
pub mod presence;
/// The bounded memory of operation ids.
pub mod recent;
/// Loading a document from snapshot and log.
pub mod replay;
/// The registry of documents, presence and operation ids.
pub mod state;
/// Slugs, paths, password hashes, and when to write a document out.
pub mod storage;
/// Operations on text.
pub mod text;
/// The values that travel between clients, coordinator and log.
pub mod types;
