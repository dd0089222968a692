//! Decision logic of `lunac`, the front-end that drives the build tool of the
//! Lunaris project.
//!
//! The library decides; it never touches the file system or a process. A
//! caller inspects directories and runs child processes, and hands what it
//! saw back as plain values.

pub mod arguments;
pub mod config;
pub mod dispatch;
pub mod error;
pub mod invocation;
pub mod text;
pub mod workspace;
