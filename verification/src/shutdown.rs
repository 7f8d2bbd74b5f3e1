//! Shutdown of a guarded process, whoever receives its signals.
use crate::direct;
use crate::direct::{shutdown_direct_child, DirectShutdown};
use crate::error::ShutdownError;
use crate::group;
use crate::group::{shutdown_process_group, GroupShutdown};
use crate::policy::{ShutdownPolicy, Target};
use crate::protocol::{Action, Reply, Step};
use vstd::prelude::*;

verus! {

/// A shutdown under way.
#[derive(Debug)]
pub enum Shutdown<S> {
    /// Only the direct child is signaled.
    Direct(DirectShutdown),
    /// A dedicated process group is signaled.
    Group(GroupShutdown<S>),
}

impl<S> Shutdown<S> {
    /// The action that the shutdown asks for.
    pub open spec fn asks(self) -> Action {
        match self {
            Shutdown::Direct(shutdown) => shutdown.asks(),
            Shutdown::Group(shutdown) => shutdown.asks(),
        }
    }

    /// Where a reply leads.
    pub open spec fn next(self, reply: Reply<S>) -> Step<Shutdown<S>, Result<S, ShutdownError>> {
        match self {
            Shutdown::Direct(shutdown) => match shutdown.next(reply) {
                Step::Perform(shutdown) => Step::Perform(Shutdown::Direct(shutdown)),
                Step::Done(result) => Step::Done(result),
            },
            Shutdown::Group(shutdown) => match shutdown.next(reply) {
                Step::Perform(shutdown) => Step::Perform(Shutdown::Group(shutdown)),
                Step::Done(result) => Step::Done(result),
            },
        }
    }

    /// Returns the action that the shutdown asks for.
    pub fn action(&self) -> (result: Action)
        ensures
            result == self.asks(),
    {
        match self {
            Shutdown::Direct(shutdown) => shutdown.action(),
            Shutdown::Group(shutdown) => shutdown.action(),
        }
    }

    /// Goes on with the reply to the action that the shutdown asked for.
    pub fn resume(self, reply: Reply<S>) -> (result: Step<Shutdown<S>, Result<S, ShutdownError>>)
        ensures
            result == self.next(reply),
    {
        match self {
            Shutdown::Direct(shutdown) => match shutdown.resume(reply) {
                Step::Perform(shutdown) => Step::Perform(Shutdown::Direct(shutdown)),
                Step::Done(result) => Step::Done(result),
            },
            Shutdown::Group(shutdown) => match shutdown.resume(reply) {
                Step::Perform(shutdown) => Step::Perform(Shutdown::Group(shutdown)),
                Step::Done(result) => Step::Done(result),
            },
        }
    }
}

/// The start of a shutdown.
pub open spec fn shutdown_start<S>(child: u32, policy: ShutdownPolicy, target: Target) -> Shutdown<
    S,
> {
    match target {
        Target::Child => Shutdown::Direct(direct::direct_start(child, policy)),
        Target::ProcessGroup(group) => Shutdown::Group(group::group_start(child, group, policy)),
    }
}

/// Shuts down and reaps an owned child process.
pub fn shutdown_child<S>(child: u32, policy: ShutdownPolicy, target: Target) -> (result: Shutdown<
    S,
>)
    ensures
        result == shutdown_start::<S>(child, policy, target),
{
    match target {
        Target::Child => Shutdown::Direct(shutdown_direct_child(child, policy)),
        Target::ProcessGroup(group) => Shutdown::Group(
            shutdown_process_group(child, group, policy),
        ),
    }
}

} // verus!
