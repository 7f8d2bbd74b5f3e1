//! Forceful termination: kill, and reap.
use crate::error::ShutdownError;
use crate::policy::Target;
use crate::protocol;
use crate::protocol::{io_retry, send_signal, signal_result, Action, Attempt, Reply, Step};
use nix::sys::signal::Signal;
use std::io;
use vstd::prelude::*;

verus! {

/// How far a forceful termination has come.
#[derive(Debug)]
pub enum ForceStage {
    /// `SIGKILL` is being sent.
    Kill,
    /// `SIGKILL` could not be sent; whether the child has exited anyway is being checked.
    Recheck {
        /// Why the signal could not be sent.
        error: io::Error,
    },
    /// `SIGKILL` was sent, and the child is being reaped.
    Reap,
}

/// A forceful termination under way.
#[derive(Debug)]
pub struct ForceShutdown {
    /// Identifier of the direct child.
    pub child: u32,
    /// Who receives `SIGKILL`.
    pub target: Target,
    /// How far the termination has come.
    pub stage: ForceStage,
}

impl ForceShutdown {
    /// The same termination at another stage.
    pub open spec fn at(self, stage: ForceStage) -> ForceShutdown {
        ForceShutdown { stage, ..self }
    }

    /// The action that the termination asks for.
    pub open spec fn asks(self) -> Action {
        match self.stage {
            ForceStage::Kill => Action::Send {
                destination: protocol::destination(self.child, self.target),
                signal: Signal::SIGKILL,
            },
            ForceStage::Recheck { .. } => Action::TryWait,
            ForceStage::Reap => Action::Wait,
        }
    }

    /// Where a reply leads. A reply to an action that was not asked for changes nothing.
    pub open spec fn next<S>(self, reply: Reply<S>) -> Step<
        ForceShutdown,
        Result<S, ShutdownError>,
    > {
        match (self.stage, reply) {
            (ForceStage::Kill, Reply::Send(sent)) => match protocol::delivery(sent) {
                Ok(()) => Step::Perform(self.at(ForceStage::Reap)),
                Err(error) => Step::Perform(self.at(ForceStage::Recheck { error })),
            },
            (ForceStage::Recheck { error }, Reply::TryWait(attempt)) => if protocol::interrupted(
                attempt,
            ) {
                Step::Perform(self)
            } else {
                match attempt {
                    Ok(Some(status)) => Step::Done(Ok(status)),
                    _ => Step::Done(Err(ShutdownError::Kill { source: error })),
                }
            },
            (ForceStage::Reap, Reply::Wait(attempt)) => if protocol::interrupted(attempt) {
                Step::Perform(self)
            } else {
                match attempt {
                    Ok(status) => Step::Done(Ok(status)),
                    Err(source) => Step::Done(Err(ShutdownError::Wait { source })),
                }
            },
            _ => Step::Perform(self),
        }
    }

    /// Returns the action that the termination asks for.
    pub fn action(&self) -> (result: Action)
        ensures
            result == self.asks(),
    {
        match self.stage {
            ForceStage::Kill => send_signal(self.child, self.target, Signal::SIGKILL),
            ForceStage::Recheck { .. } => Action::TryWait,
            ForceStage::Reap => Action::Wait,
        }
    }

    /// Goes on with the reply to the action that the termination asked for.
    pub fn resume<S>(self, reply: Reply<S>) -> (result: Step<
        ForceShutdown,
        Result<S, ShutdownError>,
    >)
        ensures
            result == self.next(reply),
    {
        let ForceShutdown { child, target, stage } = self;
        let stage = match (stage, reply) {
            (ForceStage::Kill, Reply::Send(sent)) => match signal_result(sent) {
                Ok(()) => ForceStage::Reap,
                Err(error) => ForceStage::Recheck { error },
            },
            (ForceStage::Recheck { error }, Reply::TryWait(attempt)) => match io_retry(attempt) {
                Attempt::Again => ForceStage::Recheck { error },
                Attempt::Settled(Ok(Some(status))) => {
                    return Step::Done(Ok(status));
                },
                Attempt::Settled(_) => {
                    return Step::Done(Err(ShutdownError::Kill { source: error }));
                },
            },
            (ForceStage::Reap, Reply::Wait(attempt)) => match io_retry(attempt) {
                Attempt::Again => ForceStage::Reap,
                Attempt::Settled(Ok(status)) => {
                    return Step::Done(Ok(status));
                },
                Attempt::Settled(Err(source)) => {
                    return Step::Done(Err(ShutdownError::Wait { source }));
                },
            },
            (stage, _) => stage,
        };
        Step::Perform(ForceShutdown { child, target, stage })
    }
}

/// The start of a forceful termination.
pub open spec fn forced(child: u32, target: Target) -> ForceShutdown {
    ForceShutdown { child, target, stage: ForceStage::Kill }
}

/// Forces a direct child or process group to stop and reaps the direct child.
pub fn force_shutdown(child: u32, target: Target) -> (result: ForceShutdown)
    ensures
        result == forced(child, target),
{
    ForceShutdown { child, target, stage: ForceStage::Kill }
}

} // verus!
