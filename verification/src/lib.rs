//! Request pipeline of a code-analysis assistant that talks to a locally
//! hosted language-model server.
//!
//! The crate assembles a bounded message sequence from an analysis template
//! and the caller's input, estimates the context window the request needs,
//! applies admission control against an operator-configured ceiling, and
//! drives the bounded retry of the network exchange. Everything here is pure
//! decision logic; the embedding program performs the network and file I/O.

pub mod config;
pub mod dispatch;
pub mod error;
pub mod estimate;
pub mod file;
pub mod format;
pub mod json;
pub mod message;
pub mod mode;
pub mod ollama;
pub mod pipeline;
pub mod registry;
pub mod reply;
pub mod templates;
pub mod text;
