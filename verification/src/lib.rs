//! Single-instance brightness control: the coordination core.
//!
//! A brightness level is a percentage in `[0, 100]`. One leader process owns
//! the hardware; later invocations become clients that relay a single command
//! to the leader over a local socket. This crate holds the verified core of
//! that scheme: the percentage arithmetic, the command grammar (CLI and wire),
//! the shared observable brightness cell, the per-connection server logic and
//! the leader/client gate decision. Process plumbing (sockets, locks, the
//! window) lives outside the library.

pub mod codec;
pub mod command;
pub mod gate;
pub mod percent;
pub mod server;
pub mod shared;
