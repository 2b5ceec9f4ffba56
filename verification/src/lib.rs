//! Orchestration core for a locally hosted inference server: health and
//! readiness probing, model-pack installation sequencing, prompt assembly,
//! and the incremental parser for the server's streamed chat responses.
//!
//! All network and file traffic stays outside this crate; callers hand in
//! the plain values they read (status codes, response bodies, byte chunks)
//! and carry out the requests this crate plans.

pub mod config;
pub mod errors;
pub mod health;
pub mod stream;
pub mod prompts;
pub mod chat;
pub mod install;
