//! What single calls promise, and how one call bears on the next.
//!
//! Each law speaks of a call by its arguments and its result: `call_ensures(f, arguments, result)`
//! says that a call of `f` returned `result`.
use crate::direct::{shutdown_direct_child, DirectShutdown};
use crate::error::ShutdownError;
use crate::force::{force_shutdown, ForceShutdown};
use crate::group::{shutdown_process_group, GroupShutdown};
use crate::guard::{Child, ProcessGuard, Spawning};
use crate::history;
use crate::policy::{graceful_shutdown, poll_pause, ShutdownPolicy, Target};
use crate::protocol;
use crate::protocol::{
    io_retry, process_group_exists, send_signal, signal_result, Action, Attempt, Destination, Reply,
    Step,
};
use crate::shutdown;
use crate::shutdown::{shutdown_child, Shutdown};
use crate::system;
use crate::wait;
use crate::wait::{signal_child, Signaling, TryWaiting, Waiting};
use nix::errno::Errno;
use nix::sys::signal::Signal;
use nix::unistd::Pid;
use std::io;
use std::time::Duration;
use vstd::prelude::*;

verus! {

/// A guard made of an existing child owns that child and signals it alone. Its policy is the one
/// given, or `SIGTERM` with the grace period given, or no grace.
pub proof fn created_guard_is_as_told<H>(
    child: Child<H>,
    grace_time: Option<Duration>,
    policy: ShutdownPolicy,
    created: ProcessGuard<H>,
    told: ProcessGuard<H>,
)
    requires
        call_ensures(ProcessGuard::<H>::new, (child, grace_time), created),
        call_ensures(ProcessGuard::<H>::with_policy, (child, policy), told),
    ensures
        created.child() == Some(child),
        created.target() == Target::Child,
        grace_time is None ==> created.policy() == ShutdownPolicy::Kill,
        grace_time matches Some(grace_time) ==> created.policy() == (ShutdownPolicy::Graceful {
            signal: Signal::SIGTERM,
            grace_time,
        }),
        told.child() == Some(child),
        told.target() == Target::Child,
        told.policy() == policy,
{
}

/// A command that is spawned with a policy is started in the process group of its parent, and its
/// guard signals the child alone, whatever the policy. A command that does not start leaves its
/// error.
pub proof fn spawned_child_is_signaled_alone<H>(
    policy: ShutdownPolicy,
    spawning: Spawning,
    process_group: Option<i32>,
    spawned: Result<Child<H>, io::Error>,
    result: Result<ProcessGuard<H>, io::Error>,
)
    requires
        call_ensures(ProcessGuard::<H>::spawn_with_policy, (policy,), spawning),
        call_ensures(Spawning::process_group, (&spawning,), process_group),
        call_ensures(Spawning::resume::<H>, (spawning, spawned), result),
    ensures
        process_group is None,
        match spawned {
            Ok(child) => {
                &&& result is Ok
                &&& result->Ok_0.child() == Some(child)
                &&& result->Ok_0.policy() == policy
                &&& result->Ok_0.target() == Target::Child
            },
            Err(error) => result is Err && result->Err_0 == error,
        },
{
}

/// A command that is spawned as the leader of a process group of its own is started in a new group,
/// and its guard signals the group whose raw identifier is that of the child, whatever the policy. A
/// command that does not start leaves its error.
pub proof fn spawned_leader_is_signaled_with_its_group<H>(
    policy: ShutdownPolicy,
    raw: i32,
    spawning: Spawning,
    process_group: Option<i32>,
    spawned: Result<Child<H>, io::Error>,
    result: Result<ProcessGuard<H>, io::Error>,
)
    requires
        spawned matches Ok(child) ==> raw == child.id || raw == child.id - 0x1_0000_0000,
        call_ensures(ProcessGuard::<H>::spawn_process_group, (policy,), spawning),
        call_ensures(Spawning::process_group, (&spawning,), process_group),
        call_ensures(Spawning::resume::<H>, (spawning, spawned), result),
    ensures
        process_group == Some(0i32),
        match spawned {
            Ok(child) => {
                &&& result is Ok
                &&& result->Ok_0.child() == Some(child)
                &&& result->Ok_0.policy() == policy
                &&& result->Ok_0.target() == Target::ProcessGroup(system::pid_from_raw(raw))
            },
            Err(error) => result is Err && result->Err_0 == error,
        },
{
    if spawned is Ok {
        protocol::raw_identifier_keeps_the_value(spawned->Ok_0.id, raw);
    }
}

/// Spawning with or without a grace period is spawning with the policy that the grace period
/// selects: `SIGTERM` and that period, or no grace.
pub proof fn grace_period_selects_the_policy<H>(
    grace_time: Duration,
    plain: Spawning,
    told_kill: Spawning,
    graceful: Spawning,
    told_graceful: Spawning,
)
    requires
        call_ensures(ProcessGuard::<H>::spawn, (), plain),
        call_ensures(ProcessGuard::<H>::spawn_with_policy, (ShutdownPolicy::Kill,), told_kill),
        call_ensures(ProcessGuard::<H>::spawn_graceful, (grace_time,), graceful),
        call_ensures(
            ProcessGuard::<H>::spawn_with_policy,
            (ShutdownPolicy::Graceful { signal: Signal::SIGTERM, grace_time },),
            told_graceful,
        ),
    ensures
        plain == told_kill,
        graceful == told_graceful,
{
}

/// A guard names the identifier of the child that it owns, and of no other.
pub proof fn guard_names_its_child<H>(guard: ProcessGuard<H>, id: Option<u32>, drop_id: u32)
    requires
        call_ensures(ProcessGuard::<H>::id, (&guard,), id),
        call_ensures(ProcessGuard::<H>::drop_id, (&guard,), drop_id),
    ensures
        id is Some == guard.child() is Some,
        guard.child() matches Some(child) ==> id == Some(child.id) && drop_id == child.id,
        guard.child() is None ==> drop_id == 0,
{
}

/// A child that is taken is handed over as it is, and the guard owns none from then on.
pub proof fn taken_child_is_handed_over<H, S>(guard: &mut ProcessGuard<H>, taken: Option<Child<H>>)
    requires
        call_ensures(ProcessGuard::<H>::take, (guard,), taken),
    ensures
        taken == old(guard).child(),
        final(guard).child() is None,
        has_nothing_left::<H, S>(*final(guard)),
        final(guard).policy() == old(guard).policy(),
        final(guard).target() == old(guard).target(),
{
}

/// Lending out the handle of a child leaves the guard as it was, but for what is done to the handle.
pub proof fn lent_handle_is_that_of_the_child<H>(
    guard: &mut ProcessGuard<H>,
    handle: Option<&mut H>,
)
    requires
        call_ensures(ProcessGuard::<H>::handle_mut, (guard,), handle),
    ensures
        handle is Some == old(guard).child() is Some,
        handle matches Some(handle) ==> {
            &&& *handle == old(guard).child()->0.handle
            &&& final(guard).child() == Some(
                Child { id: old(guard).child()->0.id, handle: *final(handle) },
            )
        },
        handle is None ==> final(guard).child() is None,
        final(guard).policy() == old(guard).policy(),
        final(guard).target() == old(guard).target(),
{
}

/// Whether a guard has nothing left to look after: it names no child, and every operation on it is
/// complete at once, with nothing to report.
pub open spec fn has_nothing_left<H, S>(guard: ProcessGuard<H>) -> bool {
    &&& forall|id: Option<u32>| #[trigger]
        call_ensures(ProcessGuard::<H>::id, (&guard,), id) ==> id is None
    &&& forall|step: Step<Shutdown<S>, Result<Option<S>, ShutdownError>>| #[trigger]
        call_ensures(ProcessGuard::<H>::shutdown::<S>, (&guard,), step) ==> (step
            matches Step::Done(Ok(None)))
    &&& forall|signal: Signal, step: Step<Signaling<S>, Result<Option<S>, io::Error>>| #[trigger]
        call_ensures(ProcessGuard::<H>::signal::<S>, (&guard, signal), step) ==> (step
            matches Step::Done(Ok(None)))
    &&& forall|step: Step<TryWaiting, Result<Option<S>, io::Error>>| #[trigger]
        call_ensures(ProcessGuard::<H>::try_wait::<S>, (&guard,), step) ==> (step
            matches Step::Done(Ok(None)))
    &&& forall|step: Step<Waiting, Result<Option<S>, io::Error>>| #[trigger]
        call_ensures(ProcessGuard::<H>::wait::<S>, (&guard,), step) ==> (step
            matches Step::Done(Ok(None)))
}

/// A shutdown that is driven through its guard goes on exactly as the shutdown itself does: it asks
/// for what the shutdown asks for as long as that is not complete, and ends with the status or the
/// error of the shutdown, never without either. The guard lets go of the child when there is a
/// status, whatever its policy and target, and is left as it was otherwise.
pub proof fn guarded_shutdown_is_the_shutdown<H, S>(
    guard: &mut ProcessGuard<H>,
    shutdown: Shutdown<S>,
    reply: Reply<S>,
    next: Step<Shutdown<S>, Result<S, ShutdownError>>,
    result: Step<Shutdown<S>, Result<Option<S>, ShutdownError>>,
)
    requires
        call_ensures(Shutdown::<S>::resume, (shutdown, reply), next),
        call_ensures(ProcessGuard::<H>::resume_shutdown::<S>, (guard, shutdown, reply), result),
    ensures
        next matches Step::Perform(on) ==> result is Perform && result->Perform_0 == on,
        next matches Step::Done(Ok(status)) ==> result is Done && result->Done_0 == Ok::<
            Option<S>,
            ShutdownError,
        >(Some(status)),
        next matches Step::Done(Err(error)) ==> result is Done && result->Done_0 == Err::<
            Option<S>,
            ShutdownError,
        >(error),
        !(result matches Step::Done(Ok(None))),
        final(guard).child() == match next {
            Step::Done(Ok(_)) => None,
            _ => old(guard).child(),
        },
        result matches Step::Done(Ok(Some(_))) ==> has_nothing_left::<H, S>(*final(guard)),
        final(guard).policy() == old(guard).policy(),
        final(guard).target() == old(guard).target(),
{
}

/// A signal that is sent through a guard is sent exactly as the sending itself goes on. The guard
/// lets go of the child when there is a status, whatever its policy and target, and is left as it
/// was otherwise.
pub proof fn guarded_signal_is_the_signal<H, S>(
    guard: &mut ProcessGuard<H>,
    signaling: Signaling<S>,
    reply: Reply<S>,
    next: Step<Signaling<S>, Result<Option<S>, io::Error>>,
    result: Step<Signaling<S>, Result<Option<S>, io::Error>>,
)
    requires
        call_ensures(Signaling::<S>::resume, (signaling, reply), next),
        call_ensures(ProcessGuard::<H>::resume_signal::<S>, (guard, signaling, reply), result),
    ensures
        result == next,
        final(guard).child() == match next {
            Step::Done(Ok(Some(_))) => None,
            _ => old(guard).child(),
        },
        result matches Step::Done(Ok(Some(_))) ==> has_nothing_left::<H, S>(*final(guard)),
        final(guard).policy() == old(guard).policy(),
        final(guard).target() == old(guard).target(),
{
}

/// A check for the child's exit goes on only if it was interrupted or answered with something else;
/// any other answer is its result. The guard lets go of the child when there is a status, whatever
/// its policy and target, and is left as it was otherwise.
pub proof fn guarded_check_ends_with_its_answer<H, S>(
    guard: &mut ProcessGuard<H>,
    waiting: TryWaiting,
    reply: Reply<S>,
    action: Action,
    result: Step<TryWaiting, Result<Option<S>, io::Error>>,
)
    requires
        call_ensures(TryWaiting::action, (&waiting,), action),
        call_ensures(ProcessGuard::<H>::resume_try_wait::<S>, (guard, waiting, reply), result),
    ensures
        action == Action::TryWait,
        match reply {
            Reply::TryWait(attempt) => if history::unsettled(attempt) {
                result is Perform
            } else {
                result is Done && result->Done_0 == attempt
            },
            _ => result is Perform,
        },
        final(guard).child() == match reply {
            Reply::TryWait(Ok(Some(_))) => None,
            _ => old(guard).child(),
        },
        result matches Step::Done(Ok(Some(_))) ==> has_nothing_left::<H, S>(*final(guard)),
        final(guard).policy() == old(guard).policy(),
        final(guard).target() == old(guard).target(),
{
}

/// A wait for the child's exit goes on only if it was interrupted or answered with something else;
/// any other answer is its result. The guard lets go of the child when there is a status, whatever
/// its policy and target, and is left as it was otherwise.
pub proof fn guarded_wait_ends_with_its_answer<H, S>(
    guard: &mut ProcessGuard<H>,
    waiting: Waiting,
    reply: Reply<S>,
    action: Action,
    result: Step<Waiting, Result<Option<S>, io::Error>>,
)
    requires
        call_ensures(Waiting::action, (&waiting,), action),
        call_ensures(ProcessGuard::<H>::resume_wait::<S>, (guard, waiting, reply), result),
    ensures
        action == Action::Wait,
        match reply {
            Reply::Wait(Ok(status)) => result is Done && result->Done_0 == Ok::<
                Option<S>,
                io::Error,
            >(Some(status)),
            Reply::Wait(Err(error)) => if system::error_kind(error) == io::ErrorKind::Interrupted {
                result is Perform
            } else {
                result is Done && result->Done_0 == Err::<Option<S>, io::Error>(error)
            },
            _ => result is Perform,
        },
        final(guard).child() == match reply {
            Reply::Wait(Ok(_)) => None,
            _ => old(guard).child(),
        },
        result matches Step::Done(Ok(Some(_))) ==> has_nothing_left::<H, S>(*final(guard)),
        final(guard).policy() == old(guard).policy(),
        final(guard).target() == old(guard).target(),
{
}

/// Operations on a guard that owns a child begin with that child, its policy and its target;
/// operations on a guard that owns none are complete at once, with nothing to report, and such a
/// guard has no identifier. Whatever the policy and target.
pub proof fn operations_begin_with_the_child<H, S>(
    guard: ProcessGuard<H>,
    signal: Signal,
    id: Option<u32>,
    shutting: Step<Shutdown<S>, Result<Option<S>, ShutdownError>>,
    signaling: Step<Signaling<S>, Result<Option<S>, io::Error>>,
    checking: Step<TryWaiting, Result<Option<S>, io::Error>>,
    waiting: Step<Waiting, Result<Option<S>, io::Error>>,
)
    requires
        call_ensures(ProcessGuard::<H>::id, (&guard,), id),
        call_ensures(ProcessGuard::<H>::shutdown::<S>, (&guard,), shutting),
        call_ensures(ProcessGuard::<H>::signal::<S>, (&guard, signal), signaling),
        call_ensures(ProcessGuard::<H>::try_wait::<S>, (&guard,), checking),
        call_ensures(ProcessGuard::<H>::wait::<S>, (&guard,), waiting),
    ensures
        match guard.child() {
            Some(child) => {
                &&& id == Some(child.id)
                &&& shutting is Perform
                &&& shutting->Perform_0 == shutdown::shutdown_start::<S>(
                    child.id,
                    guard.policy(),
                    guard.target(),
                )
                &&& signaling is Perform
                &&& signaling->Perform_0 == wait::signal_start::<S>(
                    child.id,
                    guard.target(),
                    signal,
                )
                &&& checking is Perform
                &&& waiting is Perform
            },
            None => {
                &&& id is None
                &&& shutting is Done
                &&& shutting->Done_0 == Ok::<Option<S>, ShutdownError>(None)
                &&& signaling is Done
                &&& signaling->Done_0 == Ok::<Option<S>, io::Error>(None)
                &&& checking is Done
                &&& checking->Done_0 == Ok::<Option<S>, io::Error>(None)
                &&& waiting is Done
                &&& waiting->Done_0 == Ok::<Option<S>, io::Error>(None)
            },
        },
{
}

/// A shutdown asks for the action, and goes on with a reply, in the way that the laws on whole
/// shutdowns speak of.
pub proof fn shutdown_calls_are_steps<S>(
    child: u32,
    policy: ShutdownPolicy,
    target: Target,
    first: Shutdown<S>,
    shutdown: Shutdown<S>,
    reply: Reply<S>,
    action: Action,
    next: Step<Shutdown<S>, Result<S, ShutdownError>>,
)
    requires
        call_ensures(shutdown_child::<S>, (child, policy, target), first),
        call_ensures(Shutdown::<S>::action, (&shutdown,), action),
        call_ensures(Shutdown::<S>::resume, (shutdown, reply), next),
    ensures
        first == shutdown::shutdown_start::<S>(child, policy, target),
        action == shutdown.asks(),
        next == shutdown.next(reply),
{
}

/// The shutdown of a guarded process is that of its direct child, or that of its process group: it
/// begins, asks and goes on in the same way, and comes to the same result.
pub proof fn shutdown_is_that_of_the_child_or_the_group<S>(
    child: u32,
    group: Pid,
    policy: ShutdownPolicy,
    direct: DirectShutdown,
    direct_action: Action,
    direct_next: Step<DirectShutdown, Result<S, ShutdownError>>,
    grouped: GroupShutdown<S>,
    group_action: Action,
    group_next: Step<GroupShutdown<S>, Result<S, ShutdownError>>,
    first_direct: DirectShutdown,
    first_grouped: GroupShutdown<S>,
    reply: Reply<S>,
)
    requires
        call_ensures(shutdown_direct_child, (child, policy), first_direct),
        call_ensures(shutdown_process_group::<S>, (child, group, policy), first_grouped),
        call_ensures(DirectShutdown::action, (&direct,), direct_action),
        call_ensures(DirectShutdown::resume::<S>, (direct, reply), direct_next),
        call_ensures(GroupShutdown::<S>::action, (&grouped,), group_action),
        call_ensures(GroupShutdown::<S>::resume, (grouped, reply), group_next),
    ensures
        shutdown::shutdown_start::<S>(child, policy, Target::Child) == Shutdown::<S>::Direct(
            first_direct,
        ),
        shutdown::shutdown_start::<S>(child, policy, Target::ProcessGroup(group))
            == Shutdown::Group(first_grouped),
        Shutdown::<S>::Direct(direct).asks() == direct_action,
        Shutdown::Group(grouped).asks() == group_action,
        match (direct_next, Shutdown::<S>::Direct(direct).next(reply)) {
            (Step::Perform(part), Step::Perform(whole)) => whole == Shutdown::<S>::Direct(part),
            (Step::Done(part), Step::Done(whole)) => whole == part,
            _ => false,
        },
        match (group_next, Shutdown::Group(grouped).next(reply)) {
            (Step::Perform(part), Step::Perform(whole)) => whole == Shutdown::Group(part),
            (Step::Done(part), Step::Done(whole)) => whole == part,
            _ => false,
        },
{
}

/// A forceful termination asks for the action, and goes on with a reply, in the way that the law on
/// it speaks of. A reply to an action that it did not ask for changes nothing.
pub proof fn force_calls_are_steps<S>(
    force: ForceShutdown,
    reply: Reply<S>,
    action: Action,
    next: Step<ForceShutdown, Result<S, ShutdownError>>,
)
    requires
        call_ensures(ForceShutdown::action, (&force,), action),
        call_ensures(ForceShutdown::resume::<S>, (force, reply), next),
    ensures
        action == force.asks(),
        next == force.next(reply),
        !reply.answers(action) ==> next is Perform && next->Perform_0 == force,
{
}

/// The sending of a signal asks for the action, and goes on with a reply, in the way that the laws
/// on the sending speak of.
pub proof fn signal_calls_are_steps<S>(
    child: u32,
    target: Target,
    signal: Signal,
    first: Signaling<S>,
    signaling: Signaling<S>,
    reply: Reply<S>,
    action: Action,
    next: Step<Signaling<S>, Result<Option<S>, io::Error>>,
)
    requires
        call_ensures(signal_child::<S>, (child, target, signal), first),
        call_ensures(Signaling::<S>::action, (&signaling,), action),
        call_ensures(Signaling::<S>::resume, (signaling, reply), next),
    ensures
        first == wait::signal_start::<S>(child, target, signal),
        action == signaling.asks(),
        next == signaling.next(reply),
{
}

/// A forceful termination sends `SIGKILL` to the process whose raw identifier is that of the child,
/// or to the process group given, and then waits for the child. If `SIGKILL` could not be sent, the
/// child is checked: it has exited, or the termination fails for the reason that `SIGKILL` did.
/// Interrupted waits are repeated.
pub proof fn force_kills_and_reaps<S>(
    child: u32,
    raw: i32,
    target: Target,
    errno: Errno,
    check: Result<Option<S>, io::Error>,
    waited: Result<S, io::Error>,
    force: ForceShutdown,
    action: Action,
    sent: Step<ForceShutdown, Result<S, ShutdownError>>,
    unsent: Step<ForceShutdown, Result<S, ShutdownError>>,
)
    requires
        raw == child || raw == child - 0x1_0000_0000,
        call_ensures(force_shutdown, (child, target), force),
        call_ensures(ForceShutdown::action, (&force,), action),
        call_ensures(ForceShutdown::resume::<S>, (force, Reply::Send(Ok(()))), sent),
        call_ensures(ForceShutdown::resume::<S>, (force, Reply::Send(Err(errno))), unsent),
    ensures
        action == (Action::Send {
            destination: match target {
                Target::Child => Destination::Process(system::pid_from_raw(raw)),
                Target::ProcessGroup(group) => Destination::Group(group),
            },
            signal: Signal::SIGKILL,
        }),
        sent is Perform,
        sent->Perform_0.asks() == Action::Wait,
        ({
            let end = sent->Perform_0.next(Reply::Wait(waited));
            if history::unsettled(waited) {
                end == sent
            } else {
                match waited {
                    Ok(status) => end is Done && end->Done_0 == Ok::<S, ShutdownError>(status),
                    Err(source) => end is Done && end->Done_0 == Err::<S, ShutdownError>(
                        ShutdownError::Wait { source },
                    ),
                }
            }
        }),
        unsent is Perform,
        unsent->Perform_0.asks() == Action::TryWait,
        ({
            let end = unsent->Perform_0.next(Reply::TryWait(check));
            if history::unsettled(check) {
                end == unsent
            } else {
                match check {
                    Ok(Some(status)) => end is Done && end->Done_0 == Ok::<S, ShutdownError>(
                        status,
                    ),
                    _ => end is Done && end->Done_0 == Err::<S, ShutdownError>(
                        ShutdownError::Kill { source: system::os_error(errno as i32) },
                    ),
                }
            }
        }),
{
    protocol::raw_identifier_keeps_the_value(child, raw);
}

/// A signal goes to the process whose raw identifier is that of the child, or to the process group
/// given, and is the signal given.
pub proof fn signal_is_addressed(
    child: u32,
    raw: i32,
    target: Target,
    signal: Signal,
    action: Action,
)
    requires
        raw == child || raw == child - 0x1_0000_0000,
        call_ensures(send_signal, (child, target, signal), action),
    ensures
        target is Child ==> action == (Action::Send {
            destination: Destination::Process(system::pid_from_raw(raw)),
            signal,
        }),
        target matches Target::ProcessGroup(group) ==> action == (Action::Send {
            destination: Destination::Group(group),
            signal,
        }),
{
    protocol::raw_identifier_keeps_the_value(child, raw);
}

/// An attempt at an I/O operation is repeated if it was interrupted, and counts as it is otherwise.
pub proof fn only_interruption_is_repeated<T>(
    attempt: Result<T, io::Error>,
    judged: Attempt<T>,
)
    requires
        call_ensures(io_retry::<T>, (attempt,), judged),
    ensures
        attempt matches Err(error) ==> (judged is Again <==> system::error_kind(error)
            == io::ErrorKind::Interrupted),
        attempt is Ok ==> judged is Settled,
        judged matches Attempt::Settled(result) ==> result == attempt,
{
}

/// A system call that failed is reported with the error of its number. Of a probe, the number that
/// says that there is no such group is an answer, not an error.
pub proof fn system_calls_are_taken_at_their_word(
    outcome: Result<(), Errno>,
    sent: Result<(), io::Error>,
    exists: Result<bool, io::Error>,
)
    requires
        call_ensures(signal_result, (outcome,), sent),
        call_ensures(process_group_exists, (outcome,), exists),
    ensures
        sent is Ok == outcome is Ok,
        outcome is Ok ==> exists == Ok::<bool, io::Error>(true),
        outcome matches Err(errno) ==> {
            &&& sent->Err_0 == system::os_error(errno as i32)
            &&& errno == Errno::ESRCH ==> exists == Ok::<bool, io::Error>(false)
            &&& errno != Errno::ESRCH ==> exists == Err::<bool, io::Error>(
                system::os_error(errno as i32),
            )
        },
{
}

/// A policy asks for the signal and the grace period that it holds, whomever it addresses, and for
/// none if it only kills.
pub proof fn policy_asks_for_what_it_holds(
    signal: Signal,
    grace_time: Duration,
    none: Option<(Signal, Duration)>,
    alone: Option<(Signal, Duration)>,
    together: Option<(Signal, Duration)>,
)
    requires
        call_ensures(graceful_shutdown, (ShutdownPolicy::Kill,), none),
        call_ensures(graceful_shutdown, (ShutdownPolicy::Graceful { signal, grace_time },), alone),
        call_ensures(
            graceful_shutdown,
            (ShutdownPolicy::GracefulProcessGroup { signal, grace_time },),
            together,
        ),
    ensures
        none is None,
        alone == Some((signal, grace_time)),
        together == Some((signal, grace_time)),
{
}

/// There is a pause exactly while the grace period is not over. It never ends later than the grace
/// period, and lasts a tenth of a second unless it ends with the grace period earlier than that.
pub proof fn pause_fits_the_grace_period(
    grace_time: Duration,
    elapsed: Duration,
    pause: Option<u64>,
)
    requires
        call_ensures(poll_pause, (grace_time, elapsed), pause),
    ensures
        pause is Some <==> system::duration_nanos(elapsed) < system::duration_nanos(grace_time),
        pause matches Some(nanos) ==> {
            let end = system::duration_nanos(elapsed) + nanos;
            &&& 0 < nanos <= 100_000_000
            &&& end <= system::duration_nanos(grace_time)
            &&& nanos == 100_000_000 || end == system::duration_nanos(grace_time)
        },
{
}

/// Every failure says what could not be done, and names its reason.
pub proof fn failure_says_what_and_why(
    error: ShutdownError,
    message: &'static str,
    source: &io::Error,
)
    requires
        call_ensures(ShutdownError::message, (&error,), message),
        call_ensures(ShutdownError::source, (&error,), source),
    ensures
        match error {
            ShutdownError::Inspect { source: reason } => {
                &&& message@ == "failed to inspect the child before shutdown"@
                &&& *source == reason
            },
            ShutdownError::Kill { source: reason } => {
                &&& message@ == "failed to forcefully terminate the child"@
                &&& *source == reason
            },
            ShutdownError::Wait { source: reason } => {
                &&& message@ == "failed to reap the terminated child"@
                &&& *source == reason
            },
        },
{
}

} // verus!
