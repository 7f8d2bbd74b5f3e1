//! How a guarded process is to be shut down, and who receives the signals.
use crate::system;
use nix::sys::signal::Signal;
use nix::unistd::Pid;
use std::time::Duration;
use vstd::prelude::*;

verus! {

/// Longest pause between two polls for process exit, in nanoseconds: a tenth of a second.
pub const POLL_INTERVAL_NANOS: u64 = 100_000_000;

/// Configures how a guarded process is shut down.
#[derive(Clone, Copy, Debug, Eq, PartialEq)]
pub enum ShutdownPolicy {
    /// Forces immediate termination with [`Signal::SIGKILL`].
    Kill,
    /// Requests graceful shutdown before forcing termination.
    Graceful {
        /// Signal sent to the direct child to request graceful shutdown.
        signal: Signal,
        /// Maximum time allowed for graceful shutdown.
        grace_time: Duration,
    },
    /// Requests graceful shutdown from the complete process group before forcing termination.
    GracefulProcessGroup {
        /// Signal sent to the process group to request graceful shutdown.
        signal: Signal,
        /// Maximum time allowed for graceful shutdown.
        grace_time: Duration,
    },
}

/// Identifies the operating-system object that receives shutdown signals.
#[derive(Clone, Copy, Debug, Eq, PartialEq)]
pub enum Target {
    /// Sends signals only to the direct child.
    Child,
    /// Sends signals to a dedicated process group.
    ProcessGroup(Pid),
}

/// The policy that a grace period alone selects: `SIGTERM` and that period, or no grace at all.
pub open spec fn grace_policy(grace_time: Option<Duration>) -> ShutdownPolicy {
    match grace_time {
        Some(grace_time) => ShutdownPolicy::Graceful { signal: Signal::SIGTERM, grace_time },
        None => ShutdownPolicy::Kill,
    }
}

/// The graceful signal and grace period of a policy, if it has any.
pub open spec fn graceful_request(policy: ShutdownPolicy) -> Option<(Signal, Duration)> {
    match policy {
        ShutdownPolicy::Kill => None,
        ShutdownPolicy::Graceful { signal, grace_time } => Some((signal, grace_time)),
        ShutdownPolicy::GracefulProcessGroup { signal, grace_time } => Some((signal, grace_time)),
    }
}

/// The grace period of a policy, if it has any.
pub open spec fn grace_period(policy: ShutdownPolicy) -> Option<Duration> {
    match policy {
        ShutdownPolicy::Kill => None,
        ShutdownPolicy::Graceful { grace_time, .. } => Some(grace_time),
        ShutdownPolicy::GracefulProcessGroup { grace_time, .. } => Some(grace_time),
    }
}

/// Returns the graceful signal and grace period configured by a policy.
pub fn graceful_shutdown(policy: ShutdownPolicy) -> (result: Option<(Signal, Duration)>)
    ensures
        result == graceful_request(policy),
{
    match policy {
        ShutdownPolicy::Kill => None,
        ShutdownPolicy::Graceful { signal, grace_time }
        | ShutdownPolicy::GracefulProcessGroup { signal, grace_time } => Some((signal, grace_time)),
    }
}

/// How much of a grace period is left, in nanoseconds.
pub open spec fn remaining_nanos(grace_time: Duration, elapsed: Duration) -> nat {
    if system::duration_nanos(elapsed) < system::duration_nanos(grace_time) {
        (system::duration_nanos(grace_time) - system::duration_nanos(elapsed)) as nat
    } else {
        0
    }
}

/// The pause before the next poll: the poll interval, cut short where less of the grace period is
/// left, and none at all once the grace period is over.
pub open spec fn pause(grace_time: Duration, elapsed: Duration) -> Option<u64> {
    let remaining = remaining_nanos(grace_time, elapsed);
    if remaining == 0 {
        None
    } else if remaining < POLL_INTERVAL_NANOS {
        Some(remaining as u64)
    } else {
        Some(POLL_INTERVAL_NANOS)
    }
}

/// Decides how many nanoseconds to pause before the next poll, or that the grace period is over.
pub fn poll_pause(grace_time: Duration, elapsed: Duration) -> (result: Option<u64>)
    ensures
        result == pause(grace_time, elapsed),
{
    let grace: u128 = grace_time.as_nanos();
    let spent: u128 = elapsed.as_nanos();
    if grace <= spent {
        return None;
    }
    let remaining: u128 = grace - spent;
    if remaining < POLL_INTERVAL_NANOS as u128 {
        Some(remaining as u64)
    } else {
        Some(POLL_INTERVAL_NANOS)
    }
}

} // verus!
