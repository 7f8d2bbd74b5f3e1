//! Whole shutdowns: where a sequence of replies leads, and what happened on the way.
use crate::error::ShutdownError;
use crate::policy::{ShutdownPolicy, Target};
use crate::protocol::{Action, Destination, Reply, Step};
use crate::shutdown::Shutdown;
use crate::system;
use nix::errno::Errno;
use nix::sys::signal::Signal;
use nix::unistd::Pid;
use std::io;
use std::time::Duration;
use vstd::prelude::*;

verus! {

/// An action that was asked for, together with the reply to it.
pub struct Exchange<S> {
    /// What was asked for.
    pub action: Action,
    /// What came of it.
    pub reply: Reply<S>,
}

/// Where a shutdown stands after a sequence of replies.
pub open spec fn run<S>(first: Shutdown<S>, replies: Seq<Reply<S>>) -> Step<
    Shutdown<S>,
    Result<S, ShutdownError>,
>
    decreases replies.len(),
{
    if replies.len() == 0 {
        Step::Perform(first)
    } else {
        match run(first, replies.drop_last()) {
            Step::Perform(shutdown) => shutdown.next(replies.last()),
            Step::Done(result) => Step::Done(result),
        }
    }
}

/// What happened between a shutdown and the operating system during a sequence of replies. Replies
/// that answer nothing the shutdown asked for leave no trace.
pub open spec fn history<S>(first: Shutdown<S>, replies: Seq<Reply<S>>) -> Seq<Exchange<S>>
    decreases replies.len(),
{
    if replies.len() == 0 {
        seq![]
    } else {
        let before = history(first, replies.drop_last());
        match run(first, replies.drop_last()) {
            Step::Perform(shutdown) if replies.last().answers(shutdown.asks()) => before.push(
                Exchange { action: shutdown.asks(), reply: replies.last() },
            ),
            _ => before,
        }
    }
}

/// Whether every reply answers the action that the shutdown asks for at that point, as long as it
/// asks for any.
pub open spec fn answered<S>(first: Shutdown<S>, replies: Seq<Reply<S>>) -> bool
    decreases replies.len(),
{
    replies.len() == 0 || {
        &&& answered(first, replies.drop_last())
        &&& run(first, replies.drop_last()) matches Step::Perform(shutdown)
            ==> replies.last().answers(shutdown.asks())
    }
}

/// The signals that were sent, in order, delivered or not.
pub open spec fn sent<S>(history: Seq<Exchange<S>>) -> Seq<Action>
    decreases history.len(),
{
    if history.len() == 0 {
        seq![]
    } else if history.last().action is Send {
        sent(history.drop_last()).push(history.last().action)
    } else {
        sent(history.drop_last())
    }
}

/// What came of the signals that were sent, in order.
pub open spec fn deliveries<S>(history: Seq<Exchange<S>>) -> Seq<Result<(), Errno>>
    decreases history.len(),
{
    if history.len() == 0 {
        seq![]
    } else {
        match history.last().reply {
            Reply::Send(delivery) => deliveries(history.drop_last()).push(delivery),
            _ => deliveries(history.drop_last()),
        }
    }
}

/// The exit status that a reply reports, if any.
pub open spec fn status<S>(reply: Reply<S>) -> Option<S> {
    match reply {
        Reply::TryWait(Ok(status)) => status,
        Reply::Wait(Ok(status)) => Some(status),
        _ => None,
    }
}

/// The exit statuses that were reported, in order: how often the direct child was reaped.
pub open spec fn statuses<S>(history: Seq<Exchange<S>>) -> Seq<S>
    decreases history.len(),
{
    if history.len() == 0 {
        seq![]
    } else {
        match status(history.last().reply) {
            Some(status) => statuses(history.drop_last()).push(status),
            None => statuses(history.drop_last()),
        }
    }
}

/// How often the shutdown slept.
pub open spec fn naps<S>(history: Seq<Exchange<S>>) -> nat
    decreases history.len(),
{
    if history.len() == 0 {
        0
    } else if history.last().action is Sleep {
        naps(history.drop_last()) + 1
    } else {
        naps(history.drop_last())
    }
}

/// How long the shutdown slept in all, in nanoseconds.
pub open spec fn slept<S>(history: Seq<Exchange<S>>) -> nat
    decreases history.len(),
{
    if history.len() == 0 {
        0
    } else {
        match history.last().action {
            Action::Sleep { nanos } => slept(history.drop_last()) + nanos as nat,
            _ => slept(history.drop_last()),
        }
    }
}

/// The least that the clock can show: the last reading, and what was slept since.
pub open spec fn due<S>(history: Seq<Exchange<S>>) -> nat
    decreases history.len(),
{
    if history.len() == 0 {
        0
    } else {
        match (history.last().action, history.last().reply) {
            (_, Reply::ReadClock(elapsed)) => system::duration_nanos(elapsed),
            (Action::Sleep { nanos }, _) => due(history.drop_last()) + nanos as nat,
            _ => due(history.drop_last()),
        }
    }
}

/// Whether the clock never ran backwards and every sleep lasted as long as it should.
pub open spec fn steady_clock<S>(history: Seq<Exchange<S>>) -> bool
    decreases history.len(),
{
    history.len() == 0 || {
        &&& steady_clock(history.drop_last())
        &&& history.last().reply matches Reply::ReadClock(elapsed) ==> due(history.drop_last())
            <= system::duration_nanos(elapsed)
    }
}

/// Whether a wait failed for no other reason than that a signal interrupted it.
pub open spec fn unsettled<T>(attempt: Result<T, io::Error>) -> bool {
    match attempt {
        Ok(_) => false,
        Err(error) => system::error_kind(error) == io::ErrorKind::Interrupted,
    }
}

/// Whether a reply reports that a wait was interrupted.
pub open spec fn interruption<S>(reply: Reply<S>) -> bool {
    match reply {
        Reply::TryWait(attempt) => unsettled(attempt),
        Reply::Wait(attempt) => unsettled(attempt),
        _ => false,
    }
}

/// How many waits were interrupted.
pub open spec fn interruptions<S>(history: Seq<Exchange<S>>) -> nat
    decreases history.len(),
{
    if history.len() == 0 {
        0
    } else if interruption(history.last().reply) {
        interruptions(history.drop_last()) + 1
    } else {
        interruptions(history.drop_last())
    }
}

/// Whether some exchange has a property.
pub open spec fn seen<S>(
    history: Seq<Exchange<S>>,
    property: spec_fn(Exchange<S>) -> bool,
) -> bool {
    exists|i: int| 0 <= i < history.len() && #[trigger] property(history[i])
}

/// A reading of the clock that the grace period does not outlast.
pub open spec fn expiry<S>(grace_time: Duration) -> spec_fn(Exchange<S>) -> bool {
    |exchange: Exchange<S>|
        exchange.reply matches Reply::ReadClock(elapsed) && system::duration_nanos(grace_time)
            <= system::duration_nanos(elapsed)
}

/// A check for the child's exit that failed for good.
pub open spec fn failed_check<S>() -> spec_fn(Exchange<S>) -> bool {
    |exchange: Exchange<S>|
        exchange.reply matches Reply::TryWait(attempt) && attempt is Err && !unsettled(
            attempt,
        )
}

/// A signal that could not be sent.
pub open spec fn failed_send<S>() -> spec_fn(Exchange<S>) -> bool {
    |exchange: Exchange<S>| exchange.reply matches Reply::Send(Err(_))
}

/// A `SIGKILL` that a process group received.
pub open spec fn group_killed<S>(group: Pid) -> spec_fn(Exchange<S>) -> bool {
    |exchange: Exchange<S>|
        exchange.action == (Action::Send {
            destination: Destination::Group(group),
            signal: Signal::SIGKILL,
        }) && exchange.reply matches Reply::Send(Ok(_))
}

/// A probe that found a process group without members.
pub open spec fn group_gone<S>(group: Pid) -> spec_fn(Exchange<S>) -> bool {
    |exchange: Exchange<S>|
        exchange.action == (Action::Probe { group }) && exchange.reply == Reply::<S>::Probe(
            Err(Errno::ESRCH),
        )
}

/// A `SIGKILL` to `destination` that failed with `error`.
pub open spec fn kill_error<S>(destination: Destination, error: io::Error) -> spec_fn(
    Exchange<S>,
) -> bool {
    |exchange: Exchange<S>|
        {
            &&& exchange.action == (Action::Send { destination, signal: Signal::SIGKILL })
            &&& exchange.reply matches Reply::Send(Err(errno)) && error == system::os_error(
                errno as i32,
            )
        }
}

/// The direct child, as the receiver of a signal.
pub open spec fn child_alone(child: u32) -> Destination {
    Destination::Process(system::pid_from_raw(child as i32))
}

/// The child or process group that a guard signals, as the receiver of a signal.
pub open spec fn everyone(child: u32, target: Target) -> Destination {
    match target {
        Target::Child => child_alone(child),
        Target::ProcessGroup(group) => Destination::Group(group),
    }
}

/// Who receives the graceful signal: the direct child, unless the guard owns a process group and
/// the policy addresses it.
pub open spec fn graceful_destination(
    child: u32,
    policy: ShutdownPolicy,
    target: Target,
) -> Destination {
    if policy is GracefulProcessGroup {
        everyone(child, target)
    } else {
        child_alone(child)
    }
}

/// The signals that a shutdown has in store: the graceful signal of its policy, if any, to the
/// direct child, or to everyone if the policy addresses the process group; and `SIGKILL` to
/// everyone.
pub open spec fn escalation(child: u32, policy: ShutdownPolicy, target: Target) -> Seq<Action> {
    let kill = Action::Send { destination: everyone(child, target), signal: Signal::SIGKILL };
    match policy {
        ShutdownPolicy::Kill => seq![kill],
        ShutdownPolicy::Graceful { signal, .. } => seq![
            Action::Send { destination: graceful_destination(child, policy, target), signal },
            kill,
        ],
        ShutdownPolicy::GracefulProcessGroup { signal, .. } => seq![
            Action::Send { destination: graceful_destination(child, policy, target), signal },
            kill,
        ],
    }
}

/// Whether the last exchange leaves a shutdown without a way on, `plan` being the signals that it
/// has in store:
///
/// - the first check of a direct child, before any signal, failed;
/// - with every signal sent, a check found that the child has not exited, or failed;
/// - a probe of the process group failed, or, with every signal sent, found members;
/// - the final wait failed.
///
/// An interrupted wait is not among these, nor is a graceful signal that could not be sent, a check
/// that failed within the grace period, or a `SIGKILL` that could not be sent as such.
pub open spec fn trouble<S>(plan: Seq<Action>, history: Seq<Exchange<S>>) -> bool {
    history.len() > 0 && match history.last().reply {
        Reply::TryWait(attempt) => !unsettled(attempt) && {
            ||| sent(history).len() == 0 && attempt is Err
            ||| sent(history).len() == plan.len() && status(history.last().reply) is None
        },
        Reply::Probe(Ok(_)) => sent(history).len() == plan.len(),
        Reply::Probe(Err(errno)) => errno != Errno::ESRCH,
        Reply::Wait(attempt) => attempt is Err && !unsettled(attempt),
        _ => false,
    }
}

} // verus!
