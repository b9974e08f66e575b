//! Supervision of an external `codex` command-line process: spawning it,
//! draining its two output streams line by line, publishing each line as an
//! event, and cancelling a run through a single shared process slot.
//!
//! The presentation layer around this library performs the actual process
//! and stream I/O; every decision — how a byte stream splits into lines,
//! which event each line becomes, what the prompt and the command line look
//! like, and how the shared slot changes on install, on terminate and at
//! the end of a stream — is made here, with a contract.

pub mod events;
pub mod publisher;
pub mod reader;
pub mod session;
pub mod supervisor;
pub mod version;
