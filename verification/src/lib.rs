//! The core of a remote keyboard and mouse server: the wire format of the
//! commands, the sealed envelope around them, the session of each
//! connection, and the execution context that performs the commands of all
//! sessions one at a time.
//!
//! The library decides and computes. It reads no socket and injects no
//! input: a driver around it accepts the connections, moves the frames and
//! the messages, and performs the commands.

pub mod execution;
pub mod gui;
pub mod json;
pub mod protocol;
pub mod security;
pub mod server;
pub mod state;
pub mod ui;
pub mod utils;
