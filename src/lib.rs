//! Provider resolution and dispatch for a command-line assistant that asks a
//! language model to write commit messages, change summaries and READMEs.
//!
//! The library decides which backend and model a request goes to, which
//! credential it carries, what request the backend receives, and how the
//! backend's reply becomes plain text. Network, terminal and file work is
//! left to the caller, which hands plain values in and takes plain values back.
pub mod provider;
pub mod config;
pub mod error;
mod text;
pub mod registry;
pub mod credential;
pub mod llm;
pub mod prompt;
