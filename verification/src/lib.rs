//! Verified core of a terminal session multiplexer.
//!
//! The library spawns interactive child processes attached to pseudo-terminals,
//! tracks each one as an addressable session in a table, and offers write,
//! resize, kill, reader hand-off, removal and snapshot operations over that
//! table. The pseudo-terminal transport itself is reached through a thin
//! trusted layer; every rule of the table (unique identifiers, the one-shot
//! reader latch, the one-directional `Running` to `Exited` status transition)
//! is stated in contracts and proved.

pub mod args;
pub mod errors;
pub mod manager;
pub mod pump;
pub mod pty;
