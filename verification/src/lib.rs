//! Two-stage cleanup of child processes.
//!
//! A [`ProcessGuard`] owns a child process. Its shutdown sends a configurable graceful signal
//! (`SIGTERM` by default), waits for a bounded interval, escalates to `SIGKILL`, and reaps the
//! direct child. Signals go to the child alone, or to a dedicated process group that the child
//! leads.
//!
//! The library makes the decisions and leaves the system calls to its caller. An operation asks for
//! one [`Action`] at a time and is resumed with the [`Reply`], until it is complete:
//!
//! - [`guard`] owns the child, begins the operations, and lets go of the child once it is reaped.
//! - [`shutdown`] is the two-stage shutdown, in [`direct`] for a guard that signals its child, in
//!   [`group`] for one that owns a process group, with [`force`] as the last resort of the former.
//! - [`wait`] holds the operations that reap or signal the child without shutting it down.
//! - [`protocol`] defines actions and replies, and what to make of a reply by itself.
//! - [`policy`] and [`error`] define what a guard is told to do and how it can fail.
//! - [`history`] and [`laws`] speak of whole shutdowns: which signals are sent, when, to whom, and
//!   how long it takes.
//! - [`calls`] speaks of single calls: what each returns, and how one bears on the next.
//! - [`system`] lists what is taken on trust from the standard library and from `nix`.
pub mod calls;
pub mod direct;
pub mod error;
pub mod force;
pub mod group;
pub mod guard;
pub mod history;
pub mod laws;
pub mod policy;
pub mod protocol;
pub mod shutdown;
pub mod system;
pub mod wait;

pub use error::ShutdownError;
pub use guard::{Child, ProcessGuard, Spawning};
pub use nix::sys::signal::Signal;
pub use policy::{ShutdownPolicy, Target};
pub use protocol::{Action, Attempt, Destination, Reply, Step};
