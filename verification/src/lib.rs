//! Streaming chat orchestration.
//!
//! The library models a conversation with a pluggable language-model backend:
//! conversation documents with a single-incomplete-message invariant, a
//! cancellation registry, the stream orchestrator that accumulates fragments
//! and time-gates checkpoint writes, and the two wire framings (newline
//! delimited JSON and server-sent events) of the streaming backends.

pub mod config;
pub mod conversations;
pub mod errors;
pub mod framing;
pub mod models;
pub mod orchestrator;
pub mod providers;
pub mod registry;
pub mod secrets;
pub mod settings;
pub mod shortcuts;
pub mod strings;
pub mod strmap;
