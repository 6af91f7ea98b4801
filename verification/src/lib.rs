//! Execution core of a code-runner for an interactive editor: a user selects a
//! fragment of source code, a language backend stages it, wraps it in
//! boilerplate, builds it and runs it, and the output (or a typed failure)
//! is formatted for delivery back to the editor.
//!
//! This crate holds the verified core: the error taxonomy, the support-level
//! order, the request context, the backend pipeline decisions, the launcher
//! and the result formatting. The host side (editor RPC, filesystem and
//! process invocation) lives outside and hands the core plain values.

pub mod data;
pub mod error;
pub mod interpreter;
pub mod launcher;
pub mod messages;
pub mod session;
pub mod strings;
pub mod support;

pub use data::DataHolder;
pub use error::SniprunError;
pub use interpreter::Rust_original;
pub use launcher::Launcher;
pub use messages::Messages;
pub use support::SupportLevel;
