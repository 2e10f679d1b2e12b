//! Process-supervision and control-channel core for a privileged launcher.
//!
//! The launcher starts one long-running supervised process, keeps a private
//! control channel open to it, and owns its lifecycle up to and including an
//! escalating termination sequence.  This crate holds the verified core:
//! the wait-status decoder, the child-process handle, the wire-envelope
//! codec, and the bootstrap/dispatch protocol state machine.  The thin
//! layer that performs the actual system calls and channel I/O lives
//! outside and drives these state machines with the events it observes.

pub mod archive;
pub mod codec;
pub mod error;
pub mod process;
pub mod server;
pub mod status;
