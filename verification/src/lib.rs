//! ptyx: cross-platform PTY/TTY management.
//!
//! The verified core: ANSI escape sequences, spawn options, the
//! command-line and environment encodings handed to a Windows pseudo
//! console, and the decisions that drive sessions, consoles and the
//! I/O multiplexer.

pub mod ansi;
pub mod console;
pub mod error;
pub mod mux;
pub mod session;
pub mod text;
