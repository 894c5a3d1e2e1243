//! Commit-message assistant: the decisions of a pipeline that reads a
//! repository's staged changes, asks a language model for a conventional
//! commit message, lets the operator accept, edit or reject it, and commits.
//!
//! Everything that touches the outside world (processes, network, files,
//! the terminal) is performed by the caller; this crate decides what to do
//! next and builds and interprets the data exchanged.

pub mod text;
pub mod json;
pub mod generation;
pub mod credential;
pub mod confirm;
pub mod pipeline;
pub mod changes;
