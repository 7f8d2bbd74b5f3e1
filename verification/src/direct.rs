//! Shutdown of a guard that signals only its direct child.
use crate::error::ShutdownError;
use crate::force;
use crate::force::{force_shutdown, ForceShutdown};
use crate::policy;
use crate::policy::{graceful_shutdown, poll_pause, ShutdownPolicy, Target};
use crate::protocol;
use crate::protocol::{io_retry, send_signal, Action, Attempt, Reply, Step};
use nix::sys::signal::Signal;
use std::time::Duration;
use vstd::prelude::*;

verus! {

/// How far the shutdown of a direct child has come.
#[derive(Debug)]
pub enum DirectStage {
    /// Whether the child has already exited is being checked.
    Inspect {
        /// Graceful signal and grace period of the policy.
        graceful: Option<(Signal, Duration)>,
    },
    /// The graceful signal is being sent.
    Request {
        /// Graceful signal.
        signal: Signal,
        /// Grace period.
        grace_time: Duration,
    },
    /// The graceful signal could not be sent; whether the child has exited is being checked.
    Recheck,
    /// The grace period is beginning.
    Start {
        /// Grace period.
        grace_time: Duration,
    },
    /// Whether the child has exited within the grace period is being checked.
    Poll {
        /// Grace period.
        grace_time: Duration,
    },
    /// How much of the grace period has passed is being measured.
    Measure {
        /// Grace period.
        grace_time: Duration,
    },
    /// The next poll is being waited for.
    Pause {
        /// Grace period.
        grace_time: Duration,
        /// Length of the pause.
        nanos: u64,
    },
    /// The child is being forced to stop.
    Force(ForceShutdown),
}

/// Shutdown of a direct child under way.
#[derive(Debug)]
pub struct DirectShutdown {
    /// Identifier of the direct child.
    pub child: u32,
    /// How far the shutdown has come.
    pub stage: DirectStage,
}

impl DirectShutdown {
    /// The same shutdown at another stage.
    pub open spec fn at(self, stage: DirectStage) -> DirectShutdown {
        DirectShutdown { stage, ..self }
    }

    /// The same shutdown at the point where force begins.
    pub open spec fn escalated(self) -> DirectShutdown {
        self.at(DirectStage::Force(force::forced(self.child, Target::Child)))
    }

    /// The action that the shutdown asks for.
    pub open spec fn asks(self) -> Action {
        match self.stage {
            DirectStage::Inspect { .. } | DirectStage::Recheck | DirectStage::Poll { .. } =>
                Action::TryWait,
            DirectStage::Request { signal, .. } => Action::Send {
                destination: protocol::destination(self.child, Target::Child),
                signal,
            },
            DirectStage::Start { .. } => Action::StartClock,
            DirectStage::Measure { .. } => Action::ReadClock,
            DirectStage::Pause { nanos, .. } => Action::Sleep { nanos },
            DirectStage::Force(force) => force.asks(),
        }
    }

    /// Where a reply leads. A reply to an action that was not asked for changes nothing.
    pub open spec fn next<S>(self, reply: Reply<S>) -> Step<
        DirectShutdown,
        Result<S, ShutdownError>,
    > {
        match (self.stage, reply) {
            (DirectStage::Inspect { graceful }, Reply::TryWait(attempt)) =>
                if protocol::interrupted(attempt) {
                    Step::Perform(self)
                } else {
                    match attempt {
                        Err(source) => Step::Done(Err(ShutdownError::Inspect { source })),
                        Ok(Some(status)) => Step::Done(Ok(status)),
                        Ok(None) => match graceful {
                            Some((signal, grace_time)) => Step::Perform(
                                self.at(DirectStage::Request { signal, grace_time }),
                            ),
                            None => Step::Perform(self.escalated()),
                        },
                    }
                },
            (DirectStage::Request { grace_time, .. }, Reply::Send(sent)) => if sent is Ok {
                Step::Perform(self.at(DirectStage::Start { grace_time }))
            } else {
                Step::Perform(self.at(DirectStage::Recheck))
            },
            (DirectStage::Recheck, Reply::TryWait(attempt)) => if protocol::interrupted(attempt) {
                Step::Perform(self)
            } else {
                match attempt {
                    Ok(Some(status)) => Step::Done(Ok(status)),
                    _ => Step::Perform(self.escalated()),
                }
            },
            (DirectStage::Start { grace_time }, Reply::StartClock) => Step::Perform(
                self.at(DirectStage::Poll { grace_time }),
            ),
            (DirectStage::Poll { grace_time }, Reply::TryWait(attempt)) =>
                if protocol::interrupted(attempt) {
                    Step::Perform(self)
                } else {
                    match attempt {
                        Ok(Some(status)) => Step::Done(Ok(status)),
                        Ok(None) => Step::Perform(self.at(DirectStage::Measure { grace_time })),
                        Err(_) => Step::Perform(self.escalated()),
                    }
                },
            (DirectStage::Measure { grace_time }, Reply::ReadClock(elapsed)) =>
                match policy::pause(grace_time, elapsed) {
                    Some(nanos) => Step::Perform(self.at(DirectStage::Pause { grace_time, nanos })),
                    None => Step::Perform(self.escalated()),
                },
            (DirectStage::Pause { grace_time, .. }, Reply::Sleep) => Step::Perform(
                self.at(DirectStage::Poll { grace_time }),
            ),
            (DirectStage::Force(force), reply) => match force.next(reply) {
                Step::Perform(force) => Step::Perform(self.at(DirectStage::Force(force))),
                Step::Done(result) => Step::Done(result),
            },
            _ => Step::Perform(self),
        }
    }

    /// Returns the action that the shutdown asks for.
    pub fn action(&self) -> (result: Action)
        ensures
            result == self.asks(),
    {
        match &self.stage {
            DirectStage::Inspect { .. } | DirectStage::Recheck | DirectStage::Poll { .. } =>
                Action::TryWait,
            DirectStage::Request { signal, .. } => send_signal(self.child, Target::Child, *signal),
            DirectStage::Start { .. } => Action::StartClock,
            DirectStage::Measure { .. } => Action::ReadClock,
            DirectStage::Pause { nanos, .. } => Action::Sleep { nanos: *nanos },
            DirectStage::Force(force) => force.action(),
        }
    }

    /// Goes on with the reply to the action that the shutdown asked for.
    pub fn resume<S>(self, reply: Reply<S>) -> (result: Step<
        DirectShutdown,
        Result<S, ShutdownError>,
    >)
        ensures
            result == self.next(reply),
    {
        let DirectShutdown { child, stage } = self;
        let stage = match (stage, reply) {
            (DirectStage::Inspect { graceful }, Reply::TryWait(attempt)) => match io_retry(
                attempt,
            ) {
                Attempt::Again => DirectStage::Inspect { graceful },
                Attempt::Settled(Err(source)) => {
                    return Step::Done(Err(ShutdownError::Inspect { source }));
                },
                Attempt::Settled(Ok(Some(status))) => {
                    return Step::Done(Ok(status));
                },
                // An unreaped child retains its PID, so it cannot be reused between this check
                // and the wait.
                Attempt::Settled(Ok(None)) => match graceful {
                    Some((signal, grace_time)) => DirectStage::Request { signal, grace_time },
                    None => DirectStage::Force(force_shutdown(child, Target::Child)),
                },
            },
            (DirectStage::Request { grace_time, .. }, Reply::Send(sent)) => match sent {
                Ok(()) => DirectStage::Start { grace_time },
                Err(_) => DirectStage::Recheck,
            },
            (DirectStage::Recheck, Reply::TryWait(attempt)) => match io_retry(attempt) {
                Attempt::Again => DirectStage::Recheck,
                Attempt::Settled(Ok(Some(status))) => {
                    return Step::Done(Ok(status));
                },
                Attempt::Settled(_) => DirectStage::Force(force_shutdown(child, Target::Child)),
            },
            (DirectStage::Start { grace_time }, Reply::StartClock) => DirectStage::Poll {
                grace_time,
            },
            (DirectStage::Poll { grace_time }, Reply::TryWait(attempt)) => match io_retry(attempt) {
                Attempt::Again => DirectStage::Poll { grace_time },
                Attempt::Settled(Ok(None)) => DirectStage::Measure { grace_time },
                Attempt::Settled(Ok(Some(status))) => {
                    return Step::Done(Ok(status));
                },
                Attempt::Settled(Err(_)) => DirectStage::Force(
                    force_shutdown(child, Target::Child),
                ),
            },
            (DirectStage::Measure { grace_time }, Reply::ReadClock(elapsed)) => match poll_pause(
                grace_time,
                elapsed,
            ) {
                Some(nanos) => DirectStage::Pause { grace_time, nanos },
                None => DirectStage::Force(force_shutdown(child, Target::Child)),
            },
            (DirectStage::Pause { grace_time, .. }, Reply::Sleep) => DirectStage::Poll {
                grace_time,
            },
            (DirectStage::Force(force), reply) => match force.resume(reply) {
                Step::Perform(force) => DirectStage::Force(force),
                Step::Done(result) => {
                    return Step::Done(result);
                },
            },
            (stage, _) => stage,
        };
        Step::Perform(DirectShutdown { child, stage })
    }
}

/// The start of the shutdown of a direct child.
pub open spec fn direct_start(child: u32, policy: ShutdownPolicy) -> DirectShutdown {
    DirectShutdown {
        child,
        stage: DirectStage::Inspect { graceful: policy::graceful_request(policy) },
    }
}

/// Shuts down and reaps a direct child process.
pub fn shutdown_direct_child(child: u32, policy: ShutdownPolicy) -> (result: DirectShutdown)
    ensures
        result == direct_start(child, policy),
{
    DirectShutdown { child, stage: DirectStage::Inspect { graceful: graceful_shutdown(policy) } }
}

} // verus!
