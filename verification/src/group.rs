//! Shutdown of a guard that owns a dedicated process group.
use crate::error::ShutdownError;
use crate::policy;
use crate::policy::{graceful_shutdown, poll_pause, ShutdownPolicy, Target};
use crate::protocol;
use crate::protocol::{
    io_retry, process_group_exists, send_signal, signal_result, Action, Attempt, Reply, Step,
};
use nix::sys::signal::Signal;
use nix::unistd::Pid;
use std::io;
use std::time::Duration;
use vstd::prelude::*;

verus! {

/// How far the shutdown of a process group has come.
#[derive(Debug)]
pub enum GroupStage<S> {
    /// The graceful signal is being sent.
    Request {
        /// Who receives the graceful signal.
        target: Target,
        /// Graceful signal.
        signal: Signal,
        /// Grace period.
        grace_time: Duration,
    },
    /// The grace period is beginning.
    Start {
        /// Grace period.
        grace_time: Duration,
    },
    /// Whether the direct child has exited within the grace period is being checked.
    Poll {
        /// Grace period.
        grace_time: Duration,
    },
    /// Whether the group still has members is being checked.
    Probe {
        /// Grace period.
        grace_time: Duration,
        /// Exit status of the direct child, once it is reaped.
        status: Option<S>,
    },
    /// How much of the grace period has passed is being measured.
    Measure {
        /// Grace period.
        grace_time: Duration,
        /// Exit status of the direct child, once it is reaped.
        status: Option<S>,
    },
    /// The next poll is being waited for.
    Pause {
        /// Grace period.
        grace_time: Duration,
        /// Exit status of the direct child, once it is reaped.
        status: Option<S>,
        /// Length of the pause.
        nanos: u64,
    },
    /// `SIGKILL` is being sent to the group.
    Kill {
        /// Exit status of the direct child, once it is reaped.
        status: Option<S>,
    },
    /// `SIGKILL` could not be sent; whether the group still has members is being checked.
    Recheck {
        /// Exit status of the direct child, once it is reaped.
        status: Option<S>,
        /// Why the signal could not be sent.
        error: io::Error,
    },
    /// The group is gone or killed, and the direct child is being reaped.
    Reap,
}

/// Shutdown of a process group under way.
#[derive(Debug)]
pub struct GroupShutdown<S> {
    /// Identifier of the direct child.
    pub child: u32,
    /// Identifier of the group.
    pub group: Pid,
    /// How far the shutdown has come.
    pub stage: GroupStage<S>,
}

impl<S> GroupShutdown<S> {
    /// The same shutdown at another stage.
    pub open spec fn at(self, stage: GroupStage<S>) -> GroupShutdown<S> {
        GroupShutdown { stage, ..self }
    }

    /// Where the shutdown stands once nothing is left of the group but the direct child: complete
    /// if the child is reaped already.
    pub open spec fn reaping(self, status: Option<S>) -> Step<
        GroupShutdown<S>,
        Result<S, ShutdownError>,
    > {
        match status {
            Some(status) => Step::Done(Ok(status)),
            None => Step::Perform(self.at(GroupStage::Reap)),
        }
    }

    /// The action that the shutdown asks for.
    pub open spec fn asks(self) -> Action {
        match self.stage {
            GroupStage::Request { target, signal, .. } => Action::Send {
                destination: protocol::destination(self.child, target),
                signal,
            },
            GroupStage::Start { .. } => Action::StartClock,
            GroupStage::Poll { .. } => Action::TryWait,
            GroupStage::Probe { .. } | GroupStage::Recheck { .. } => Action::Probe {
                group: self.group,
            },
            GroupStage::Measure { .. } => Action::ReadClock,
            GroupStage::Pause { nanos, .. } => Action::Sleep { nanos },
            GroupStage::Kill { .. } => Action::Send {
                destination: protocol::destination(self.child, Target::ProcessGroup(self.group)),
                signal: Signal::SIGKILL,
            },
            GroupStage::Reap => Action::Wait,
        }
    }

    /// Where a reply leads. A reply to an action that was not asked for changes nothing.
    pub open spec fn next(self, reply: Reply<S>) -> Step<
        GroupShutdown<S>,
        Result<S, ShutdownError>,
    > {
        match (self.stage, reply) {
            (GroupStage::Request { grace_time, .. }, Reply::Send(_)) => Step::Perform(
                self.at(GroupStage::Start { grace_time }),
            ),
            (GroupStage::Start { grace_time }, Reply::StartClock) => Step::Perform(
                self.at(GroupStage::Poll { grace_time }),
            ),
            (GroupStage::Poll { grace_time }, Reply::TryWait(attempt)) =>
                if protocol::interrupted(attempt) {
                    Step::Perform(self)
                } else {
                    match attempt {
                        Ok(status) => Step::Perform(
                            self.at(GroupStage::Probe { grace_time, status }),
                        ),
                        Err(_) => Step::Perform(self.at(GroupStage::Kill { status: None })),
                    }
                },
            (GroupStage::Probe { grace_time, status }, Reply::Probe(probed)) =>
                match protocol::group_presence(probed) {
                    Err(source) => Step::Done(Err(ShutdownError::Inspect { source })),
                    Ok(exists) => if !exists && status is Some {
                        Step::Done(Ok(status->0))
                    } else {
                        Step::Perform(self.at(GroupStage::Measure { grace_time, status }))
                    },
                },
            (GroupStage::Measure { grace_time, status }, Reply::ReadClock(elapsed)) =>
                match policy::pause(grace_time, elapsed) {
                    Some(nanos) => Step::Perform(
                        self.at(GroupStage::Pause { grace_time, status, nanos }),
                    ),
                    None => Step::Perform(self.at(GroupStage::Kill { status })),
                },
            (GroupStage::Pause { grace_time, status, .. }, Reply::Sleep) => if status is Some {
                Step::Perform(self.at(GroupStage::Probe { grace_time, status }))
            } else {
                Step::Perform(self.at(GroupStage::Poll { grace_time }))
            },
            (GroupStage::Kill { status }, Reply::Send(sent)) => match protocol::delivery(sent) {
                Ok(()) => self.reaping(status),
                Err(error) => Step::Perform(self.at(GroupStage::Recheck { status, error })),
            },
            (GroupStage::Recheck { status, error }, Reply::Probe(probed)) =>
                if protocol::group_presence(probed) == Ok::<bool, io::Error>(false) {
                    self.reaping(status)
                } else {
                    Step::Done(Err(ShutdownError::Kill { source: error }))
                },
            (GroupStage::Reap, Reply::Wait(attempt)) => if protocol::interrupted(attempt) {
                Step::Perform(self)
            } else {
                match attempt {
                    Ok(status) => Step::Done(Ok(status)),
                    Err(source) => Step::Done(Err(ShutdownError::Wait { source })),
                }
            },
            _ => Step::Perform(self),
        }
    }

    /// Returns the action that the shutdown asks for.
    pub fn action(&self) -> (result: Action)
        ensures
            result == self.asks(),
    {
        match &self.stage {
            GroupStage::Request { target, signal, .. } => send_signal(
                self.child,
                *target,
                *signal,
            ),
            GroupStage::Start { .. } => Action::StartClock,
            GroupStage::Poll { .. } => Action::TryWait,
            GroupStage::Probe { .. } | GroupStage::Recheck { .. } => Action::Probe {
                group: self.group,
            },
            GroupStage::Measure { .. } => Action::ReadClock,
            GroupStage::Pause { nanos, .. } => Action::Sleep { nanos: *nanos },
            GroupStage::Kill { .. } => send_signal(
                self.child,
                Target::ProcessGroup(self.group),
                Signal::SIGKILL,
            ),
            GroupStage::Reap => Action::Wait,
        }
    }

    /// Goes on with the reply to the action that the shutdown asked for.
    pub fn resume(self, reply: Reply<S>) -> (result: Step<
        GroupShutdown<S>,
        Result<S, ShutdownError>,
    >)
        ensures
            result == self.next(reply),
    {
        let GroupShutdown { child, group, stage } = self;
        let stage = match (stage, reply) {
            (GroupStage::Request { grace_time, .. }, Reply::Send(_)) => GroupStage::Start {
                grace_time,
            },
            (GroupStage::Start { grace_time }, Reply::StartClock) => GroupStage::Poll {
                grace_time,
            },
            (GroupStage::Poll { grace_time }, Reply::TryWait(attempt)) => match io_retry(attempt) {
                Attempt::Again => GroupStage::Poll { grace_time },
                Attempt::Settled(Ok(status)) => GroupStage::Probe { grace_time, status },
                Attempt::Settled(Err(_)) => GroupStage::Kill { status: None },
            },
            (GroupStage::Probe { grace_time, status }, Reply::Probe(probed)) =>
                match process_group_exists(probed) {
                    Err(source) => {
                        return Step::Done(Err(ShutdownError::Inspect { source }));
                    },
                    Ok(true) => GroupStage::Measure { grace_time, status },
                    Ok(false) => match status {
                        Some(status) => {
                            return Step::Done(Ok(status));
                        },
                        None => GroupStage::Measure { grace_time, status: None },
                    },
                },
            (GroupStage::Measure { grace_time, status }, Reply::ReadClock(elapsed)) =>
                match poll_pause(grace_time, elapsed) {
                    Some(nanos) => GroupStage::Pause { grace_time, status, nanos },
                    None => GroupStage::Kill { status },
                },
            (GroupStage::Pause { grace_time, status, .. }, Reply::Sleep) => match status {
                Some(status) => GroupStage::Probe { grace_time, status: Some(status) },
                None => GroupStage::Poll { grace_time },
            },
            (GroupStage::Kill { status }, Reply::Send(sent)) => match signal_result(sent) {
                Ok(()) => match status {
                    Some(status) => {
                        return Step::Done(Ok(status));
                    },
                    None => GroupStage::Reap,
                },
                Err(error) => GroupStage::Recheck { status, error },
            },
            (GroupStage::Recheck { status, error }, Reply::Probe(probed)) => {
                let group_exists = match process_group_exists(probed) {
                    Ok(exists) => exists,
                    Err(_) => true,
                };
                if group_exists {
                    return Step::Done(Err(ShutdownError::Kill { source: error }));
                }
                match status {
                    Some(status) => {
                        return Step::Done(Ok(status));
                    },
                    None => GroupStage::Reap,
                }
            },
            (GroupStage::Reap, Reply::Wait(attempt)) => match io_retry(attempt) {
                Attempt::Again => GroupStage::Reap,
                Attempt::Settled(Ok(status)) => {
                    return Step::Done(Ok(status));
                },
                Attempt::Settled(Err(source)) => {
                    return Step::Done(Err(ShutdownError::Wait { source }));
                },
            },
            (stage, _) => stage,
        };
        Step::Perform(GroupShutdown { child, group, stage })
    }
}

/// Who receives the graceful signal of a guard that owns a process group: the direct child, unless
/// the policy addresses the complete group.
pub open spec fn graceful_target(group: Pid, policy: ShutdownPolicy) -> Target {
    if policy is GracefulProcessGroup {
        Target::ProcessGroup(group)
    } else {
        Target::Child
    }
}

/// The start of the shutdown of a process group.
pub open spec fn group_start<S>(child: u32, group: Pid, policy: ShutdownPolicy) -> GroupShutdown<
    S,
> {
    GroupShutdown {
        child,
        group,
        stage: match policy::graceful_request(policy) {
            Some((signal, grace_time)) => GroupStage::Request {
                target: graceful_target(group, policy),
                signal,
                grace_time,
            },
            None => GroupStage::Kill { status: None },
        },
    }
}

/// Shuts down a process group and reaps its direct child.
pub fn shutdown_process_group<S>(child: u32, group: Pid, policy: ShutdownPolicy) -> (result:
    GroupShutdown<S>)
    ensures
        result == group_start::<S>(child, group, policy),
{
    let stage = match graceful_shutdown(policy) {
        Some((signal, grace_time)) => {
            let target = match policy {
                ShutdownPolicy::GracefulProcessGroup { .. } => Target::ProcessGroup(group),
                _ => Target::Child,
            };
            GroupStage::Request { target, signal, grace_time }
        },
        None => GroupStage::Kill { status: None },
    };
    GroupShutdown { child, group, stage }
}

} // verus!
