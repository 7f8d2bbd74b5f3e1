//! The guard: who owns the child, how it is shut down, and when it is let go.
use crate::error::ShutdownError;
use crate::history;
use crate::policy;
use crate::policy::{ShutdownPolicy, Target};
use crate::protocol;
use crate::protocol::{Reply, Step};
use crate::shutdown;
use crate::shutdown::{shutdown_child, Shutdown};
use crate::wait;
use crate::wait::{signal_child, Signaling, TryWaiting, Waiting};
use nix::sys::signal::Signal;
use nix::unistd::Pid;
use std::io;
use std::time::Duration;
use vstd::prelude::*;

verus! {

/// A process that was started: its identifier, and the handle through which it can be reaped.
#[derive(Debug)]
pub struct Child<H> {
    /// Process identifier.
    pub id: u32,
    /// Handle of the process.
    pub handle: H,
}

/// Owns a child process, decides how it is shut down, and lets it go once it is reaped.
#[derive(Debug)]
pub struct ProcessGuard<H> {
    /// Direct child owned by the guard.
    child: Option<Child<H>>,
    /// Policy used when shutting down the process.
    policy: ShutdownPolicy,
    /// Object that receives shutdown signals.
    target: Target,
}

/// Whether an operation has ended with an exit status.
pub open spec fn reaped<T, S, E>(step: Step<T, Result<Option<S>, E>>) -> bool {
    step matches Step::Done(Ok(Some(_)))
}

/// How an operation begins on a guard: `operation` where there is a child, nothing otherwise.
pub open spec fn begun<T, H, S, E>(child: Option<Child<H>>, operation: T) -> Step<
    T,
    Result<Option<S>, E>,
> {
    if child is Some {
        Step::Perform(operation)
    } else {
        Step::Done(Ok(None))
    }
}

/// The result of a shutdown, as the guard reports it.
pub open spec fn reported<S>(step: Step<Shutdown<S>, Result<S, ShutdownError>>) -> Step<
    Shutdown<S>,
    Result<Option<S>, ShutdownError>,
> {
    match step {
        Step::Perform(shutdown) => Step::Perform(shutdown),
        Step::Done(Ok(status)) => Step::Done(Ok(Some(status))),
        Step::Done(Err(error)) => Step::Done(Err(error)),
    }
}

impl<H> ProcessGuard<H> {
    /// The direct child, while the guard owns it.
    pub closed spec fn child(&self) -> Option<Child<H>> {
        self.child
    }

    /// The policy used when shutting down the process.
    pub closed spec fn policy(&self) -> ShutdownPolicy {
        self.policy
    }

    /// The object that receives shutdown signals.
    pub closed spec fn target(&self) -> Target {
        self.target
    }

    /// A process group that the guard signals is the one that its direct child leads.
    pub open spec fn well_formed(&self) -> bool {
        self.target() is ProcessGroup && self.child() is Some ==> self.target()
            == Target::ProcessGroup(protocol::child_pid(self.child()->0.id))
    }

    /// The guard that `step` leaves behind: an exit status means that the child was reaped, and
    /// the guard lets go of it; otherwise nothing changes.
    pub open spec fn follows<T, S, E>(
        &self,
        before: &ProcessGuard<H>,
        step: Step<T, Result<Option<S>, E>>,
    ) -> bool {
        &&& self.child() == if reaped(step) {
            None
        } else {
            before.child()
        }
        &&& self.policy() == before.policy()
        &&& self.target() == before.target()
    }

    /// Creates a guard for an existing child process.
    pub fn new(child: Child<H>, grace_time: Option<Duration>) -> (result: ProcessGuard<H>)
        ensures
            result.child() == Some(child),
            result.policy() == policy::grace_policy(grace_time),
            result.target() == Target::Child,
            result.well_formed(),
    {
        let policy = match grace_time {
            Some(grace_time) => ShutdownPolicy::Graceful { signal: Signal::SIGTERM, grace_time },
            None => ShutdownPolicy::Kill,
        };
        Self::with_policy(child, policy)
    }

    /// Creates a guard with an explicit shutdown policy.
    pub fn with_policy(child: Child<H>, policy: ShutdownPolicy) -> (result: ProcessGuard<H>)
        ensures
            result.child() == Some(child),
            result.policy() == policy,
            result.target() == Target::Child,
            result.well_formed(),
    {
        ProcessGuard { child: Some(child), policy, target: Target::Child }
    }

    /// Returns the direct child's process identifier.
    pub fn id(&self) -> (result: Option<u32>)
        ensures
            result == match self.child() {
                Some(child) => Some(child.id),
                None => None,
            },
    {
        match &self.child {
            Some(child) => Some(child.id),
            None => None,
        }
    }

    /// Removes and returns the direct child without shutting it down.
    pub fn take(&mut self) -> (result: Option<Child<H>>)
        ensures
            result == old(self).child(),
            final(self).child() is None,
            final(self).policy() == old(self).policy(),
            final(self).target() == old(self).target(),
            final(self).well_formed(),
    {
        self.child.take()
    }

    /// Lends out the direct child's handle.
    pub fn handle_mut(&mut self) -> (result: Option<&mut H>)
        ensures
            match result {
                Some(handle) => {
                    &&& old(self).child() is Some
                    &&& *handle == old(self).child()->0.handle
                    &&& final(self).child() == Some(
                        Child { id: old(self).child()->0.id, handle: *final(handle) },
                    )
                },
                None => old(self).child() is None && final(self).child() is None,
            },
            final(self).policy() == old(self).policy(),
            final(self).target() == old(self).target(),
            old(self).well_formed() ==> final(self).well_formed(),
    {
        match &mut self.child {
            Some(child) => Some(&mut child.handle),
            None => None,
        }
    }

    /// Spawns a command with forceful shutdown.
    ///
    /// Equivalent to spawning the command and calling [`ProcessGuard::new`] without a grace
    /// period.
    pub fn spawn() -> (result: Spawning)
        ensures
            result == (Spawning { policy: ShutdownPolicy::Kill, dedicated_group: false }),
    {
        Self::spawn_with_policy(ShutdownPolicy::Kill)
    }

    /// Spawns a command with graceful `SIGTERM` shutdown.
    ///
    /// Equivalent to spawning the command and calling [`ProcessGuard::new`] with `grace_time`.
    pub fn spawn_graceful(grace_time: Duration) -> (result: Spawning)
        ensures
            result == (Spawning {
                policy: ShutdownPolicy::Graceful { signal: Signal::SIGTERM, grace_time },
                dedicated_group: false,
            }),
    {
        Self::spawn_with_policy(ShutdownPolicy::Graceful { signal: Signal::SIGTERM, grace_time })
    }

    /// Spawns a command with an explicit shutdown policy.
    pub fn spawn_with_policy(policy: ShutdownPolicy) -> (result: Spawning)
        ensures
            result == (Spawning { policy, dedicated_group: false }),
    {
        Spawning { policy, dedicated_group: false }
    }

    /// Spawns a command as the leader of a dedicated process group.
    ///
    /// Shutdown signals are sent to the complete process group. The resulting guard owns and reaps
    /// only the direct child.
    pub fn spawn_process_group(policy: ShutdownPolicy) -> (result: Spawning)
        ensures
            result == (Spawning { policy, dedicated_group: true }),
    {
        Spawning { policy, dedicated_group: true }
    }

    /// Sends a signal to the guarded child or process group.
    ///
    /// Ends with the direct child's exit status if it had already exited; a process group is
    /// signaled all the same. `None` means either that the signal was delivered or that the guard
    /// no longer owns a child.
    pub fn signal<S>(&self, signal: Signal) -> (result: Step<
        Signaling<S>,
        Result<Option<S>, io::Error>,
    >)
        ensures
            result == begun::<_, H, S, io::Error>(
                self.child(),
                wait::signal_start::<S>(self.child()->0.id, self.target(), signal),
            ),
    {
        match &self.child {
            Some(child) => Step::Perform(signal_child(child.id, self.target, signal)),
            None => Step::Done(Ok(None)),
        }
    }

    /// Goes on with the sending of a signal.
    pub fn resume_signal<S>(&mut self, signaling: Signaling<S>, reply: Reply<S>) -> (result: Step<
        Signaling<S>,
        Result<Option<S>, io::Error>,
    >)
        ensures
            result == signaling.next(reply),
            final(self).follows(old(self), result),
            old(self).well_formed() ==> final(self).well_formed(),
    {
        let step = signaling.resume(reply);
        self.settle(&step);
        step
    }

    /// Checks whether the direct child has exited without blocking.
    ///
    /// A completed child is reaped and removed from the guard. `None` means either that the child
    /// remains running or that the guard no longer owns one.
    pub fn try_wait<S>(&self) -> (result: Step<TryWaiting, Result<Option<S>, io::Error>>)
        ensures
            result == begun::<_, H, S, io::Error>(self.child(), TryWaiting),
    {
        match &self.child {
            Some(_) => Step::Perform(TryWaiting),
            None => Step::Done(Ok(None)),
        }
    }

    /// Goes on with the check whether the direct child has exited.
    pub fn resume_try_wait<S>(&mut self, waiting: TryWaiting, reply: Reply<S>) -> (result: Step<
        TryWaiting,
        Result<Option<S>, io::Error>,
    >)
        ensures
            result == waiting.next(reply),
            final(self).follows(old(self), result),
            old(self).well_formed() ==> final(self).well_formed(),
    {
        let step = waiting.resume(reply);
        self.settle(&step);
        step
    }

    /// Waits for and reaps the direct child without requesting shutdown.
    ///
    /// Ends with `None` if the guard no longer owns a child. Waiting for a process-group leader
    /// does not wait for other members of that group.
    pub fn wait<S>(&self) -> (result: Step<Waiting, Result<Option<S>, io::Error>>)
        ensures
            result == begun::<_, H, S, io::Error>(self.child(), Waiting),
    {
        match &self.child {
            Some(_) => Step::Perform(Waiting),
            None => Step::Done(Ok(None)),
        }
    }

    /// Goes on with the wait for the direct child.
    pub fn resume_wait<S>(&mut self, waiting: Waiting, reply: Reply<S>) -> (result: Step<
        Waiting,
        Result<Option<S>, io::Error>,
    >)
        ensures
            result == waiting.next(reply),
            final(self).follows(old(self), result),
            old(self).well_formed() ==> final(self).well_formed(),
    {
        let step = waiting.resume(reply);
        self.settle(&step);
        step
    }

    /// Shuts the process down and reaps it.
    ///
    /// Ends with `None` if the guard no longer owns a process. If shutdown fails, the process
    /// remains guarded so the operation can be retried.
    pub fn shutdown<S>(&self) -> (result: Step<Shutdown<S>, Result<Option<S>, ShutdownError>>)
        ensures
            result == begun::<_, H, S, ShutdownError>(
                self.child(),
                shutdown::shutdown_start::<S>(
                    self.child()->0.id,
                    self.policy(),
                    self.target(),
                ),
            ),
    {
        match &self.child {
            Some(child) => Step::Perform(shutdown_child(child.id, self.policy, self.target)),
            None => Step::Done(Ok(None)),
        }
    }

    /// Goes on with the shutdown of the process.
    pub fn resume_shutdown<S>(&mut self, shutdown: Shutdown<S>, reply: Reply<S>) -> (result: Step<
        Shutdown<S>,
        Result<Option<S>, ShutdownError>,
    >)
        ensures
            result == reported(shutdown.next(reply)),
            final(self).follows(old(self), result),
            old(self).well_formed() ==> final(self).well_formed(),
    {
        let step = match shutdown.resume(reply) {
            Step::Perform(shutdown) => Step::Perform(shutdown),
            Step::Done(Ok(status)) => Step::Done(Ok(Some(status))),
            Step::Done(Err(error)) => Step::Done(Err(error)),
        };
        self.settle(&step);
        step
    }

    /// Returns the process identifier that a guard names when its cleanup fails as it is dropped:
    /// that of the direct child, or zero where there is none.
    pub fn drop_id(&self) -> (result: u32)
        ensures
            result == match self.child() {
                Some(child) => child.id,
                None => 0,
            },
    {
        match &self.child {
            Some(child) => child.id,
            None => 0,
        }
    }

    /// Lets go of the direct child once an operation has ended with its exit status.
    fn settle<T, S, E>(&mut self, step: &Step<T, Result<Option<S>, E>>)
        ensures
            final(self).follows(old(self), *step),
    {
        match step {
            Step::Done(Ok(Some(_))) => {
                self.child.take();
            },
            _ => {},
        }
    }
}

/// The start of a command under way.
#[derive(Clone, Copy, Debug, Eq, PartialEq)]
pub struct Spawning {
    /// Policy of the guard to be.
    pub policy: ShutdownPolicy,
    /// Whether the command becomes the leader of a process group of its own.
    pub dedicated_group: bool,
}

impl Spawning {
    /// Returns the process group that the command has to be started in, if not in the group of its
    /// parent. Zero stands for a new group that the command leads.
    pub fn process_group(&self) -> (result: Option<i32>)
        ensures
            result == if self.dedicated_group {
                Some(0i32)
            } else {
                None
            },
    {
        if self.dedicated_group {
            Some(0)
        } else {
            None
        }
    }

    /// Who receives the signals of a guard for the child `child`.
    pub open spec fn target(self, child: u32) -> Target {
        if self.dedicated_group {
            Target::ProcessGroup(protocol::child_pid(child))
        } else {
            Target::Child
        }
    }

    /// Guards the child, given what starting the command returned.
    pub fn resume<H>(self, spawned: Result<Child<H>, io::Error>) -> (result: Result<
        ProcessGuard<H>,
        io::Error,
    >)
        ensures
            match spawned {
                Ok(child) => {
                    &&& result is Ok
                    &&& result->Ok_0.child() == Some(child)
                    &&& result->Ok_0.policy() == self.policy
                    &&& result->Ok_0.target() == self.target(child.id)
                    &&& result->Ok_0.well_formed()
                },
                Err(error) => result == Err::<ProcessGuard<H>, io::Error>(error),
            },
    {
        match spawned {
            Ok(child) => {
                if self.dedicated_group {
                    let process_group = Pid::from_raw(child.id as i32);
                    Ok(
                        ProcessGuard {
                            child: Some(child),
                            policy: self.policy,
                            target: Target::ProcessGroup(process_group),
                        },
                    )
                } else {
                    Ok(ProcessGuard::with_policy(child, self.policy))
                }
            },
            Err(error) => Err(error),
        }
    }
}

/// Spawning a command is the same as starting it and guarding the child: without a grace period for
/// [`ProcessGuard::spawn`], and with one for [`ProcessGuard::spawn_graceful`].
pub proof fn spawning_is_guarding<H>(
    child: Child<H>,
    grace_time: Option<Duration>,
    spawning: Spawning,
    spawned: ProcessGuard<H>,
    created: ProcessGuard<H>,
)
    requires
        spawning == (match grace_time {
            Some(grace_time) => Spawning {
                policy: ShutdownPolicy::Graceful { signal: Signal::SIGTERM, grace_time },
                dedicated_group: false,
            },
            None => Spawning { policy: ShutdownPolicy::Kill, dedicated_group: false },
        }),
        spawned.child() == Some(child),
        spawned.policy() == spawning.policy,
        spawned.target() == spawning.target(child.id),
        created.child() == Some(child),
        created.policy() == policy::grace_policy(grace_time),
        created.target() == Target::Child,
    ensures
        spawned == created,
{
}

/// A guard is its child, its policy and its target, and nothing else.
pub proof fn guard_is_what_it_shows<H>(one: ProcessGuard<H>, other: ProcessGuard<H>)
    requires
        one.child() == other.child(),
        one.policy() == other.policy(),
        one.target() == other.target(),
    ensures
        one == other,
{
}

/// A guard without a child does nothing: every operation is complete at once, with nothing to
/// report. Such is a guard whose child was taken, or reaped.
pub proof fn released_guard_does_nothing<H, S>(guard: ProcessGuard<H>, signal: Signal)
    requires
        guard.child() is None,
    ensures
        begun::<_, H, S, ShutdownError>(
            guard.child(),
            shutdown::shutdown_start::<S>(guard.child()->0.id, guard.policy(), guard.target()),
        ) == Step::<Shutdown<S>, Result<Option<S>, ShutdownError>>::Done(Ok(None)),
        begun::<_, H, S, io::Error>(
            guard.child(),
            wait::signal_start::<S>(guard.child()->0.id, guard.target(), signal),
        ) == Step::<Signaling<S>, Result<Option<S>, io::Error>>::Done(Ok(None)),
        begun::<_, H, S, io::Error>(guard.child(), TryWaiting) == Step::<
            TryWaiting,
            Result<Option<S>, io::Error>,
        >::Done(Ok(None)),
        begun::<_, H, S, io::Error>(guard.child(), Waiting) == Step::<
            Waiting,
            Result<Option<S>, io::Error>,
        >::Done(Ok(None)),
{
}

/// The child that a guard owns after a sequence of replies to its shutdown.
pub open spec fn owned<H, S>(
    child: Child<H>,
    first: Shutdown<S>,
    replies: Seq<Reply<S>>,
) -> Option<Child<H>>
    decreases replies.len(),
{
    if replies.len() == 0 {
        Some(child)
    } else {
        match history::run(first, replies.drop_last()) {
            Step::Perform(shutdown) if reaped(reported(shutdown.next(replies.last()))) => None,
            _ => owned(child, first, replies.drop_last()),
        }
    }
}

/// A guard lets go of its child when the shutdown succeeds, and not before: a failed shutdown
/// leaves the child guarded, so that it can be attempted again.
pub proof fn ownership_ends_with_success<H, S>(
    child: Child<H>,
    first: Shutdown<S>,
    replies: Seq<Reply<S>>,
)
    ensures
        owned(child, first, replies) == match history::run(first, replies) {
            Step::Done(Ok(_)) => None,
            _ => Some(child),
        },
    decreases replies.len(),
{
    if replies.len() > 0 {
        ownership_ends_with_success(child, first, replies.drop_last());
    }
}

/// A shutdown that is attempted again after a failure begins like the first one.
pub proof fn failed_shutdown_can_be_retried<H, S>(
    before: ProcessGuard<H>,
    after: ProcessGuard<H>,
    error: ShutdownError,
)
    requires
        after.follows(
            &before,
            Step::<Shutdown<S>, Result<Option<S>, ShutdownError>>::Done(Err(error)),
        ),
    ensures
        after == before,
{
}

} // verus!
