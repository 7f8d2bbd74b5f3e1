//! What holds of every shutdown, whatever the operating system replies.
use crate::direct::{DirectShutdown, DirectStage};
use crate::error::ShutdownError;
use crate::force::ForceStage;
use crate::group;
use crate::group::{GroupShutdown, GroupStage};
use crate::history;
use crate::history::Exchange;
use crate::policy;
use crate::policy::{ShutdownPolicy, Target, POLL_INTERVAL_NANOS};
use crate::protocol;
use crate::protocol::{Action, Destination, Reply, Step};
use crate::shutdown;
use crate::shutdown::Shutdown;
use crate::system;
use nix::errno::Errno;
use nix::sys::signal::Signal;
use nix::unistd::Pid;
use std::io;
use std::time::Duration;
use vstd::prelude::*;

verus! {

/// What one more exchange adds to everything that is told of a history.
proof fn lemma_push<S>(past: Seq<Exchange<S>>, exchange: Exchange<S>)
    ensures
        history::sent(past.push(exchange)) == if exchange.action is Send {
            history::sent(past).push(exchange.action)
        } else {
            history::sent(past)
        },
        history::deliveries(past.push(exchange)) == match exchange.reply {
            Reply::Send(delivery) => history::deliveries(past).push(delivery),
            _ => history::deliveries(past),
        },
        history::statuses(past.push(exchange)) == match history::status(exchange.reply) {
            Some(status) => history::statuses(past).push(status),
            None => history::statuses(past),
        },
        history::naps(past.push(exchange)) == history::naps(past) + if exchange.action is Sleep {
            1nat
        } else {
            0nat
        },
        history::slept(past.push(exchange)) == history::slept(past) + match exchange.action {
            Action::Sleep { nanos } => nanos as nat,
            _ => 0nat,
        },
        history::due(past.push(exchange)) == match (exchange.action, exchange.reply) {
            (_, Reply::ReadClock(elapsed)) => system::duration_nanos(elapsed),
            (Action::Sleep { nanos }, _) => history::due(past) + nanos as nat,
            _ => history::due(past),
        },
        history::steady_clock(past.push(exchange)) == (history::steady_clock(past) && (
        exchange.reply matches Reply::ReadClock(elapsed) ==> history::due(past)
            <= system::duration_nanos(elapsed))),
        history::interruptions(past.push(exchange)) == history::interruptions(past)
            + if history::interruption(exchange.reply) {
            1nat
        } else {
            0nat
        },
        forall|property: spec_fn(Exchange<S>) -> bool|
            #![trigger history::seen(past.push(exchange), property)]
            history::seen(past, property) || property(exchange) ==> history::seen(
                past.push(exchange),
                property,
            ),
{
    let longer = past.push(exchange);
    assert(longer.drop_last() =~= past);
    assert(longer.last() == exchange);
    assert forall|property: spec_fn(Exchange<S>) -> bool|
        history::seen(past, property) || property(
            exchange,
        ) implies #[trigger] history::seen(longer, property) by {
        if property(exchange) {
            assert(property(longer[past.len() as int]));
        } else {
            let i = choose|i: int| 0 <= i < past.len() && #[trigger] property(past[i]);
            assert(property(longer[i]));
        }
    }
}

/// Whether the grace period has a reason to be over, for a guard that signals its direct child.
spec fn direct_cause<S>(past: Seq<Exchange<S>>, grace_time: Duration) -> bool {
    ||| history::seen(past, history::expiry(grace_time))
    ||| history::seen(past, history::failed_check())
    ||| history::seen(past, history::failed_send())
}

/// Whether the last signal that was attempted could not be sent, for the reason
/// `error`.
spec fn rejected<S>(past: Seq<Exchange<S>>, error: io::Error) -> bool {
    let results = history::deliveries(past);
    &&& results.len() > 0
    &&& results.last() is Err
    &&& error == system::os_error(results.last()->Err_0 as i32)
}

/// Whether the graceful signal was attempted, with or without success.
spec fn requested<S>(past: Seq<Exchange<S>>, success: bool) -> bool {
    let results = history::deliveries(past);
    &&& results.len() == 1
    &&& results[0] is Ok == success
}

/// Whether the shutdown of a direct child can have come to its stage after the exchanges `past`.
spec fn direct_stands<S>(
    child: u32,
    policy: ShutdownPolicy,
    shutdown: DirectShutdown,
    past: Seq<Exchange<S>>,
) -> bool {
    let plan = history::escalation(child, policy, Target::Child);
    let graceful = policy::graceful_request(policy);
    let grace = policy::grace_period(policy);
    let count = |n: nat| past.len() <= n + 4 * history::naps(past) + history::interruptions(past);
    &&& shutdown.child == child
    &&& !history::trouble(plan, past)
    &&& history::deliveries(past).len() == history::sent(past).len()
    &&& history::statuses(past) =~= seq![]
    &&& match shutdown.stage {
        DirectStage::Inspect { graceful: request } => {
            &&& request == graceful
            &&& history::sent(past) =~= seq![]
            &&& count(0)
        },
        DirectStage::Request { signal, grace_time } => {
            &&& graceful == Some((signal, grace_time))
            &&& history::sent(past) =~= seq![]
            &&& count(1)
        },
        DirectStage::Recheck => {
            &&& graceful is Some
            &&& history::sent(past) =~= plan.take(1)
            &&& history::seen(past, history::failed_send())
            &&& requested(past, false)
            &&& count(2)
        },
        DirectStage::Start { grace_time } => {
            &&& grace == Some(grace_time)
            &&& history::sent(past) =~= plan.take(1)
            &&& requested(past, true)
            &&& count(2)
        },
        DirectStage::Poll { grace_time } => {
            &&& grace == Some(grace_time)
            &&& history::sent(past) =~= plan.take(1)
            &&& requested(past, true)
            &&& count(3)
        },
        DirectStage::Measure { grace_time } => {
            &&& grace == Some(grace_time)
            &&& history::sent(past) =~= plan.take(1)
            &&& requested(past, true)
            &&& count(4)
        },
        DirectStage::Pause { grace_time, nanos } => {
            &&& grace == Some(grace_time)
            &&& history::sent(past) =~= plan.take(1)
            &&& requested(past, true)
            &&& past.len() > 0
            &&& past.last().reply is ReadClock
            &&& policy::pause(grace_time, past.last().reply->ReadClock_0) == Some(nanos)
            &&& count(5)
        },
        DirectStage::Force(force) => {
            &&& force.child == child
            &&& force.target == Target::Child
            &&& grace matches Some(grace_time) ==> direct_cause(past, grace_time)
            &&& match force.stage {
                ForceStage::Kill => {
                    &&& history::sent(past) =~= plan.drop_last()
                    &&& count(5)
                },
                ForceStage::Recheck { error } => {
                    &&& history::sent(past) =~= plan
                    &&& rejected(past, error)
                    &&& history::seen(
                        past,
                        history::kill_error(history::child_alone(child), error),
                    )
                    &&& count(6)
                },
                ForceStage::Reap => {
                    &&& history::sent(past) =~= plan
                    &&& count(6)
                },
            }
        },
    }
}

/// What holds of a shutdown that is complete after the exchanges `past`.
spec fn ends<S>(
    child: u32,
    policy: ShutdownPolicy,
    target: Target,
    result: Result<S, ShutdownError>,
    past: Seq<Exchange<S>>,
) -> bool {
    let plan = history::escalation(child, policy, target);
    &&& history::sent(past).len() <= plan.len()
    &&& history::sent(past) =~= plan.take(history::sent(past).len() as int)
    &&& past.len() <= 8 + 4 * history::naps(past) + history::interruptions(past)
    &&& past.len() > 0
    &&& history::trouble(plan, past) == (result is Err)
    &&& history::statuses(past).len() <= 1
    &&& match result {
        Ok(status) => {
            &&& history::statuses(past) =~= seq![status]
            &&& target matches Target::ProcessGroup(group) ==> {
                ||| history::seen(past, history::group_killed(group))
                ||| history::seen(past, history::group_gone(group))
            }
        },
        Err(ShutdownError::Inspect { source }) => match target {
            Target::Child => {
                &&& past.last() == (Exchange {
                    action: Action::TryWait,
                    reply: Reply::<S>::TryWait(Err(source)),
                })
                &&& system::error_kind(source) != io::ErrorKind::Interrupted
                &&& history::sent(past) =~= seq![]
                &&& history::statuses(past) =~= seq![]
            },
            Target::ProcessGroup(group) => {
                &&& past.last().action == Action::Probe { group }
                &&& past.last().reply matches Reply::Probe(probed)
                    && protocol::group_presence(probed) == Err::<bool, io::Error>(source)
            },
        },
        Err(ShutdownError::Kill { source }) => {
            &&& history::seen(
                past,
                history::kill_error(history::everyone(child, target), source),
            )
            &&& match target {
                Target::Child => {
                    &&& past.last().reply is TryWait
                    &&& history::status(past.last().reply) is None
                    &&& history::statuses(past) =~= seq![]
                },
                Target::ProcessGroup(_) => {
                    &&& past.last().reply is Probe
                    &&& protocol::group_presence(past.last().reply->Probe_0) != Ok::<
                        bool,
                        io::Error,
                    >(false)
                },
            }
        },
        Err(ShutdownError::Wait { source }) => {
            &&& past.last() == (Exchange {
                action: Action::Wait,
                reply: Reply::<S>::Wait(Err(source)),
            })
            &&& system::error_kind(source) != io::ErrorKind::Interrupted
            &&& history::statuses(past) =~= seq![]
        },
    }
}

/// The shutdown of a direct child stands wherever its history leads.
proof fn lemma_direct<S>(child: u32, policy: ShutdownPolicy, replies: Seq<Reply<S>>)
    ensures
        ({
            let first = shutdown::shutdown_start::<S>(child, policy, Target::Child);
            let past = history::history(first, replies);
            match history::run(first, replies) {
                Step::Perform(Shutdown::Direct(shutdown)) => direct_stands(
                    child,
                    policy,
                    shutdown,
                    past,
                ),
                Step::Perform(Shutdown::Group(_)) => false,
                Step::Done(result) => ends(child, policy, Target::Child, result, past),
            }
        }),
    decreases replies.len(),
{
    let first = shutdown::shutdown_start::<S>(child, policy, Target::Child);
    if replies.len() > 0 {
        let before = replies.drop_last();
        lemma_direct(child, policy, before);
        let past = history::history(first, before);
        match history::run(first, before) {
            Step::Perform(Shutdown::Direct(shutdown)) => {
                if replies.last().answers(shutdown.asks()) {
                    lemma_direct_step(child, policy, shutdown, past, replies.last());
                }
            },
            _ => {},
        }
    }
}

/// One reply takes the shutdown of a direct child from one sound stage to another.
proof fn lemma_direct_step<S>(
    child: u32,
    policy: ShutdownPolicy,
    shutdown: DirectShutdown,
    past: Seq<Exchange<S>>,
    reply: Reply<S>,
)
    requires
        direct_stands(child, policy, shutdown, past),
        reply.answers(shutdown.asks()),
    ensures
        ({
            let now = past.push(Exchange { action: shutdown.asks(), reply });
            match shutdown.next(reply) {
                Step::Perform(shutdown) => direct_stands(child, policy, shutdown, now),
                Step::Done(result) => ends(child, policy, Target::Child, result, now),
            }
        }),
{
    let exchange = Exchange { action: shutdown.asks(), reply };
    lemma_push(past, exchange);
}

/// Whether the grace period has a reason to be over, for a guard that owns a process group.
spec fn group_cause<S>(past: Seq<Exchange<S>>, grace_time: Duration) -> bool {
    ||| history::seen(past, history::expiry(grace_time))
    ||| history::seen(past, history::failed_check())
}

/// What is known of the direct child's status after the exchanges `past`.
spec fn known<S>(status: Option<S>, past: Seq<Exchange<S>>) -> bool {
    history::statuses(past) =~= match status {
        Some(status) => seq![status],
        None => seq![],
    }
}

/// Whether the shutdown of a process group can have come to its stage after the exchanges `past`.
spec fn group_stands<S>(
    child: u32,
    group: Pid,
    policy: ShutdownPolicy,
    shutdown: GroupShutdown<S>,
    past: Seq<Exchange<S>>,
) -> bool {
    let plan = history::escalation(child, policy, Target::ProcessGroup(group));
    let graceful = policy::graceful_request(policy);
    let grace = policy::grace_period(policy);
    let count = |n: nat| past.len() <= n + 4 * history::naps(past) + history::interruptions(past);
    &&& shutdown.child == child
    &&& shutdown.group == group
    &&& !history::trouble(plan, past)
    &&& history::deliveries(past).len() == history::sent(past).len()
    &&& match shutdown.stage {
        GroupStage::Request { target, signal, grace_time } => {
            &&& graceful == Some((signal, grace_time))
            &&& target == group::graceful_target(group, policy)
            &&& history::sent(past) =~= seq![]
            &&& known(None, past)
            &&& count(0)
        },
        GroupStage::Start { grace_time } => {
            &&& grace == Some(grace_time)
            &&& history::sent(past) =~= plan.take(1)
            &&& known(None, past)
            &&& count(1)
        },
        GroupStage::Poll { grace_time } => {
            &&& grace == Some(grace_time)
            &&& history::sent(past) =~= plan.take(1)
            &&& known(None, past)
            &&& count(2)
        },
        GroupStage::Probe { grace_time, status } => {
            &&& grace == Some(grace_time)
            &&& history::sent(past) =~= plan.take(1)
            &&& known(status, past)
            &&& count(3)
        },
        GroupStage::Measure { grace_time, status } => {
            &&& grace == Some(grace_time)
            &&& history::sent(past) =~= plan.take(1)
            &&& known(status, past)
            &&& count(4)
        },
        GroupStage::Pause { grace_time, status, nanos } => {
            &&& grace == Some(grace_time)
            &&& history::sent(past) =~= plan.take(1)
            &&& known(status, past)
            &&& past.len() > 0
            &&& past.last().reply is ReadClock
            &&& policy::pause(grace_time, past.last().reply->ReadClock_0) == Some(nanos)
            &&& count(5)
        },
        GroupStage::Kill { status } => {
            &&& grace matches Some(grace_time) ==> group_cause(past, grace_time)
            &&& history::sent(past) =~= plan.drop_last()
            &&& known(status, past)
            &&& count(5)
        },
        GroupStage::Recheck { status, error } => {
            &&& grace matches Some(grace_time) ==> group_cause(past, grace_time)
            &&& history::sent(past) =~= plan
            &&& rejected(past, error)
            &&& history::seen(past, history::kill_error(Destination::Group(group), error))
            &&& known(status, past)
            &&& count(6)
        },
        GroupStage::Reap => {
            &&& grace matches Some(grace_time) ==> group_cause(past, grace_time)
            &&& history::sent(past) =~= plan
            &&& history::seen(past, history::group_killed(group)) || history::seen(
                past,
                history::group_gone(group),
            )
            &&& known(None, past)
            &&& count(7)
        },
    }
}

/// One reply takes the shutdown of a process group from one sound stage to another.
proof fn lemma_group_step<S>(
    child: u32,
    group: Pid,
    policy: ShutdownPolicy,
    shutdown: GroupShutdown<S>,
    past: Seq<Exchange<S>>,
    reply: Reply<S>,
)
    requires
        group_stands(child, group, policy, shutdown, past),
        reply.answers(shutdown.asks()),
    ensures
        ({
            let now = past.push(Exchange { action: shutdown.asks(), reply });
            match shutdown.next(reply) {
                Step::Perform(shutdown) => group_stands(child, group, policy, shutdown, now),
                Step::Done(result) => ends(
                    child,
                    policy,
                    Target::ProcessGroup(group),
                    result,
                    now,
                ),
            }
        }),
{
    let exchange = Exchange { action: shutdown.asks(), reply };
    lemma_push(past, exchange);
}

/// The shutdown of a process group stands wherever its history leads.
proof fn lemma_group<S>(child: u32, group: Pid, policy: ShutdownPolicy, replies: Seq<Reply<S>>)
    ensures
        ({
            let target = Target::ProcessGroup(group);
            let first = shutdown::shutdown_start::<S>(child, policy, target);
            let past = history::history(first, replies);
            match history::run(first, replies) {
                Step::Perform(Shutdown::Direct(_)) => false,
                Step::Perform(Shutdown::Group(shutdown)) => group_stands(
                    child,
                    group,
                    policy,
                    shutdown,
                    past,
                ),
                Step::Done(result) => ends(child, policy, target, result, past),
            }
        }),
    decreases replies.len(),
{
    let first = shutdown::shutdown_start::<S>(child, policy, Target::ProcessGroup(group));
    if replies.len() > 0 {
        let before = replies.drop_last();
        lemma_group(child, group, policy, before);
        let past = history::history(first, before);
        match history::run(first, before) {
            Step::Perform(Shutdown::Group(shutdown)) => {
                if replies.last().answers(shutdown.asks()) {
                    lemma_group_step(child, group, policy, shutdown, past, replies.last());
                }
            },
            _ => {},
        }
    }
}

/// Whether a shutdown can stand where it does after the exchanges `past`.
spec fn stands<S>(
    child: u32,
    policy: ShutdownPolicy,
    target: Target,
    shutdown: Shutdown<S>,
    past: Seq<Exchange<S>>,
) -> bool {
    match (target, shutdown) {
        (Target::Child, Shutdown::Direct(shutdown)) => direct_stands(child, policy, shutdown, past),
        (Target::ProcessGroup(group), Shutdown::Group(shutdown)) => group_stands(
            child,
            group,
            policy,
            shutdown,
            past,
        ),
        _ => false,
    }
}

/// A shutdown stands wherever its history leads.
proof fn lemma_stands<S>(
    child: u32,
    policy: ShutdownPolicy,
    target: Target,
    replies: Seq<Reply<S>>,
)
    ensures
        ({
            let first = shutdown::shutdown_start::<S>(child, policy, target);
            let past = history::history(first, replies);
            match history::run(first, replies) {
                Step::Perform(shutdown) => stands(child, policy, target, shutdown, past),
                Step::Done(result) => ends(child, policy, target, result, past),
            }
        }),
{
    match target {
        Target::Child => lemma_direct(child, policy, replies),
        Target::ProcessGroup(group) => lemma_group(child, group, policy, replies),
    }
}

/// How many nanoseconds a policy allows for graceful shutdown.
pub open spec fn allowance(policy: ShutdownPolicy) -> nat {
    match policy::grace_period(policy) {
        Some(grace_time) => system::duration_nanos(grace_time),
        None => 0,
    }
}

/// Whether a shutdown has yet to begin its grace period.
spec fn waits_to_start<S>(shutdown: Shutdown<S>) -> bool {
    match shutdown {
        Shutdown::Direct(shutdown) => {
            ||| shutdown.stage is Inspect
            ||| shutdown.stage is Request
            ||| shutdown.stage is Start
        },
        Shutdown::Group(shutdown) => {
            ||| shutdown.stage is Request
            ||| shutdown.stage is Start
        },
    }
}

/// Whether a shutdown is within its grace period.
spec fn polls<S>(shutdown: Shutdown<S>) -> bool {
    match shutdown {
        Shutdown::Direct(shutdown) => {
            ||| shutdown.stage is Poll
            ||| shutdown.stage is Measure
            ||| shutdown.stage is Pause
        },
        Shutdown::Group(shutdown) => {
            ||| shutdown.stage is Poll
            ||| shutdown.stage is Probe
            ||| shutdown.stage is Measure
            ||| shutdown.stage is Pause
        },
    }
}

/// What a steady clock makes of the pauses of a shutdown.
spec fn paced<S>(
    policy: ShutdownPolicy,
    step: Step<Shutdown<S>, Result<S, ShutdownError>>,
    past: Seq<Exchange<S>>,
) -> bool {
    let interval = POLL_INTERVAL_NANOS as nat;
    let naps = history::naps(past);
    &&& history::slept(past) <= history::due(past)
    &&& history::slept(past) <= allowance(policy)
    &&& naps * interval < allowance(policy) + interval
    &&& match step {
        Step::Perform(shutdown) => {
            &&& waits_to_start(shutdown) ==> naps == 0 && history::slept(past) == 0
            &&& polls(shutdown) ==> allowance(policy) <= history::due(past) || naps * interval
                <= history::due(past)
        },
        Step::Done(_) => true,
    }
}

/// A steady clock paces every shutdown.
proof fn lemma_paced<S>(
    child: u32,
    policy: ShutdownPolicy,
    target: Target,
    replies: Seq<Reply<S>>,
)
    requires
        history::steady_clock(
            history::history(shutdown::shutdown_start::<S>(child, policy, target), replies),
        ),
    ensures
        ({
            let first = shutdown::shutdown_start::<S>(child, policy, target);
            paced(policy, history::run(first, replies), history::history(first, replies))
        }),
    decreases replies.len(),
{
    let first = shutdown::shutdown_start::<S>(child, policy, target);
    if replies.len() > 0 {
        let before = replies.drop_last();
        let reply = replies.last();
        let past = history::history(first, before);
        match history::run(first, before) {
            Step::Perform(shutdown) => {
                if reply.answers(shutdown.asks()) {
                    let exchange = Exchange { action: shutdown.asks(), reply };
                    lemma_push(past, exchange);
                    lemma_stands(child, policy, target, before);
                    lemma_paced(child, policy, target, before);
                    if past.len() > 0 {
                        assert(past =~= past.drop_last().push(past.last()));
                        lemma_push(past.drop_last(), past.last());
                    }
                } else {
                    lemma_paced(child, policy, target, before);
                }
            },
            Step::Done(_) => {
                lemma_paced(child, policy, target, before);
            },
        }
    }
}

/// Signals escalate: a shutdown sends the graceful signal of its policy, if it has one, then
/// `SIGKILL`, each at most once, and nothing else.
pub proof fn signals_escalate<S>(
    child: u32,
    policy: ShutdownPolicy,
    target: Target,
    replies: Seq<Reply<S>>,
)
    ensures
        ({
            let first = shutdown::shutdown_start::<S>(child, policy, target);
            let sent = history::sent(history::history(first, replies));
            let plan = history::escalation(child, policy, target);
            &&& sent.len() <= plan.len()
            &&& sent == plan.take(sent.len() as int)
            &&& history::run(first, replies) matches Step::Perform(shutdown) ==> (
            shutdown.asks() is Send ==> sent.len() < plan.len() && shutdown.asks()
                == plan[sent.len() as int])
        }),
{
    lemma_stands(child, policy, target, replies);
    let plan = history::escalation(child, policy, target);
    assert(plan.take(plan.len() as int) =~= plan);
    assert(plan.take(plan.len() - 1) =~= plan.drop_last());
    assert(plan.take(0) =~= seq![]);
}

/// A guard without a grace period never sends anything but `SIGKILL`, and never waits for the
/// clock.
pub proof fn kill_policy_forces_at_once<S>(child: u32, target: Target, replies: Seq<Reply<S>>)
    ensures
        ({
            let first = shutdown::shutdown_start::<S>(child, ShutdownPolicy::Kill, target);
            history::run(first, replies) matches Step::Perform(shutdown) ==> {
                let action = shutdown.asks();
                &&& action matches Action::Send { destination, signal } ==> {
                    &&& destination == history::everyone(child, target)
                    &&& signal == Signal::SIGKILL
                }
                &&& !(action is StartClock)
                &&& !(action is ReadClock)
                &&& !(action is Sleep)
            }
        }),
{
    lemma_stands(child, ShutdownPolicy::Kill, target, replies);
}

/// A guard that signals its direct child never signals, or asks after, any process group: every
/// signal goes to the child alone.
pub proof fn direct_guard_leaves_groups_alone<S>(
    child: u32,
    policy: ShutdownPolicy,
    replies: Seq<Reply<S>>,
)
    ensures
        ({
            let first = shutdown::shutdown_start::<S>(child, policy, Target::Child);
            history::run(first, replies) matches Step::Perform(shutdown) ==> {
                let action = shutdown.asks();
                &&& action matches Action::Send { destination, .. } ==> destination
                    == Destination::Process(system::pid_from_raw(child as i32))
                &&& !(action is Probe)
            }
        }),
{
    lemma_stands(child, policy, Target::Child, replies);
}

/// On a guard that signals its direct child, `GracefulProcessGroup` behaves like `Graceful`.
pub proof fn direct_guard_ignores_group_policy<S>(child: u32, signal: Signal, grace_time: Duration)
    ensures
        shutdown::shutdown_start::<S>(
            child,
            ShutdownPolicy::GracefulProcessGroup { signal, grace_time },
            Target::Child,
        ) == shutdown::shutdown_start::<S>(
            child,
            ShutdownPolicy::Graceful { signal, grace_time },
            Target::Child,
        ),
{
}

/// A guard that owns a process group asks the direct child alone under `Graceful` and the complete
/// group under `GracefulProcessGroup`; force always goes to the complete group.
pub proof fn group_guard_forces_the_complete_group(
    child: u32,
    group: Pid,
    signal: Signal,
    grace_time: Duration,
)
    ensures
        ({
            let target = Target::ProcessGroup(group);
            let kill = Action::Send {
                destination: Destination::Group(group),
                signal: Signal::SIGKILL,
            };
            &&& history::escalation(child, ShutdownPolicy::Kill, target) == seq![kill]
            &&& history::escalation(
                child,
                ShutdownPolicy::Graceful { signal, grace_time },
                target,
            ) == seq![
                Action::Send {
                    destination: Destination::Process(system::pid_from_raw(child as i32)),
                    signal,
                },
                kill,
            ]
            &&& history::escalation(
                child,
                ShutdownPolicy::GracefulProcessGroup { signal, grace_time },
                target,
            ) == seq![Action::Send { destination: Destination::Group(group), signal }, kill]
        }),
{
}

/// The direct child is reaped at most once. A shutdown that succeeds reports the status with which
/// the child was reaped, and none asks after a child that it has reaped; once a direct child is
/// reaped, its shutdown has succeeded.
pub proof fn child_is_reaped_once<S>(
    child: u32,
    policy: ShutdownPolicy,
    target: Target,
    replies: Seq<Reply<S>>,
)
    ensures
        ({
            let first = shutdown::shutdown_start::<S>(child, policy, target);
            let statuses = history::statuses(history::history(first, replies));
            &&& statuses.len() <= 1
            &&& match history::run(first, replies) {
                Step::Perform(shutdown) => {
                    &&& shutdown.asks() is TryWait || shutdown.asks() is Wait ==> statuses.len()
                        == 0
                    &&& target is Child ==> statuses.len() == 0
                },
                Step::Done(Ok(status)) => statuses == seq![status],
                Step::Done(Err(_)) => target is Child ==> statuses.len() == 0,
            }
        }),
{
    lemma_stands(child, policy, target, replies);
}

/// The grace period is observed: once the graceful signal is sent, `SIGKILL` follows only when the
/// clock has shown that the grace period is over, when a check for the child's exit has failed, or,
/// for a direct child, when the graceful signal could not be sent.
pub proof fn grace_period_is_observed<S>(
    child: u32,
    policy: ShutdownPolicy,
    target: Target,
    replies: Seq<Reply<S>>,
)
    ensures
        ({
            let first = shutdown::shutdown_start::<S>(child, policy, target);
            let past = history::history(first, replies);
            history::run(first, replies) matches Step::Perform(shutdown) ==> (
            policy::grace_period(policy) matches Some(grace_time) ==> (shutdown.asks() is Send
                && history::sent(past).len() > 0 ==> {
                ||| history::seen(past, history::expiry(grace_time))
                ||| history::seen(past, history::failed_check())
                ||| target is Child && history::seen(past, history::failed_send())
            }))
        }),
{
    lemma_stands(child, policy, target, replies);
}

/// No pause outlasts the grace period: each is at most one poll interval, is never empty, and ends
/// no later than the grace period, counted from the last reading of the clock.
pub proof fn pauses_keep_the_deadline<S>(
    child: u32,
    policy: ShutdownPolicy,
    target: Target,
    replies: Seq<Reply<S>>,
)
    ensures
        ({
            let first = shutdown::shutdown_start::<S>(child, policy, target);
            let past = history::history(first, replies);
            history::run(first, replies) matches Step::Perform(shutdown) ==> (
            shutdown.asks() matches Action::Sleep { nanos } ==> {
                &&& 0 < nanos <= POLL_INTERVAL_NANOS
                &&& past.len() > 0
                &&& past.last().reply is ReadClock
                &&& system::duration_nanos(past.last().reply->ReadClock_0) + nanos <= allowance(
                    policy,
                )
            })
        }),
{
    lemma_stands(child, policy, target, replies);
}

/// Shutdown is bounded: on a clock that never runs backwards, with sleeps that last as long as they
/// should, it sleeps no longer than the grace period in all, no more often than one poll interval
/// at a time requires, and exchanges a bounded number of messages with the operating system besides
/// interrupted waits.
pub proof fn shutdown_is_bounded<S>(
    child: u32,
    policy: ShutdownPolicy,
    target: Target,
    replies: Seq<Reply<S>>,
)
    requires
        history::steady_clock(
            history::history(shutdown::shutdown_start::<S>(child, policy, target), replies),
        ),
    ensures
        ({
            let first = shutdown::shutdown_start::<S>(child, policy, target);
            let past = history::history(first, replies);
            let interval = POLL_INTERVAL_NANOS as nat;
            &&& history::slept(past) <= allowance(policy)
            &&& history::naps(past) * interval < allowance(policy) + interval
            &&& past.len() <= 8 + 4 * history::naps(past) + history::interruptions(past)
        }),
{
    lemma_stands(child, policy, target, replies);
    lemma_paced(child, policy, target, replies);
}

/// As long as a shutdown is not complete, every answer is an exchange.
proof fn lemma_answered<S>(first: Shutdown<S>, replies: Seq<Reply<S>>)
    requires
        history::answered(first, replies),
    ensures
        history::run(first, replies) is Perform ==> history::history(first, replies).len()
            == replies.len(),
    decreases replies.len(),
{
    if replies.len() > 0 {
        lemma_answered(first, replies.drop_last());
    }
}

/// Every shutdown comes to an end: on a steady clock, with every action answered, it is complete
/// after a number of replies that depends on the grace period and on the interrupted waits alone.
pub proof fn shutdown_ends<S>(
    child: u32,
    policy: ShutdownPolicy,
    target: Target,
    replies: Seq<Reply<S>>,
)
    requires
        ({
            let first = shutdown::shutdown_start::<S>(child, policy, target);
            let past = history::history(first, replies);
            &&& history::answered(first, replies)
            &&& history::steady_clock(past)
            &&& 12 + 4 * (allowance(policy) / POLL_INTERVAL_NANOS as nat)
                + history::interruptions(past) < replies.len()
        }),
    ensures
        history::run(shutdown::shutdown_start::<S>(child, policy, target), replies) is Done,
{
    let first = shutdown::shutdown_start::<S>(child, policy, target);
    lemma_answered(first, replies);
    lemma_paced(child, policy, target, replies);
    lemma_stands(child, policy, target, replies);
}

/// A shutdown fails exactly when the last exchange left it without a way on; one that is complete
/// without such trouble has succeeded.
pub proof fn shutdown_fails_only_in_trouble<S>(
    child: u32,
    policy: ShutdownPolicy,
    target: Target,
    replies: Seq<Reply<S>>,
)
    ensures
        ({
            let first = shutdown::shutdown_start::<S>(child, policy, target);
            let past = history::history(first, replies);
            let trouble = history::trouble(history::escalation(child, policy, target), past);
            match history::run(first, replies) {
                Step::Perform(_) => !trouble,
                Step::Done(Ok(_)) => !trouble,
                Step::Done(Err(_)) => trouble,
            }
        }),
{
    lemma_stands(child, policy, target, replies);
}

/// When the shutdown of a process group succeeds, the group was found to have no members, or
/// `SIGKILL` was sent to all of them.
pub proof fn group_is_gone_or_killed<S>(
    child: u32,
    group: Pid,
    policy: ShutdownPolicy,
    replies: Seq<Reply<S>>,
)
    ensures
        ({
            let first = shutdown::shutdown_start::<S>(child, policy, Target::ProcessGroup(group));
            let past = history::history(first, replies);
            history::run(first, replies) matches Step::Done(Ok(_)) ==> {
                ||| history::seen(past, history::group_gone(group))
                ||| history::seen(past, history::group_killed(group))
            }
        }),
{
    lemma_stands(child, policy, Target::ProcessGroup(group), replies);
}

/// A failed shutdown names the error that stopped it: that of the last check, of the last wait, or
/// of the `SIGKILL` that was not sent, and this only if the check after it did not find that the
/// child has exited, or that the process group is gone. An interrupted wait is never the reason.
pub proof fn failure_names_its_cause<S>(
    child: u32,
    policy: ShutdownPolicy,
    target: Target,
    replies: Seq<Reply<S>>,
)
    ensures
        ({
            let first = shutdown::shutdown_start::<S>(child, policy, target);
            let past = history::history(first, replies);
            history::run(first, replies) matches Step::Done(Err(error)) ==> past.len() > 0 && {
                let last = past.last();
                match error {
                    ShutdownError::Inspect { source } => match target {
                        Target::Child => {
                            &&& last.reply == Reply::<S>::TryWait(Err(source))
                            &&& !history::interruption(last.reply)
                        },
                        Target::ProcessGroup(_) => last.reply matches Reply::Probe(Err(errno))
                            && errno != Errno::ESRCH && source == system::os_error(errno as i32),
                    },
                    ShutdownError::Kill { source } => {
                        &&& history::seen(
                            past,
                            history::kill_error(history::everyone(child, target), source),
                        )
                        &&& match target {
                            Target::Child => {
                                &&& last.reply is TryWait
                                &&& !history::interruption(last.reply)
                                &&& history::status(last.reply) is None
                            },
                            Target::ProcessGroup(_) => {
                                &&& last.reply is Probe
                                &&& last.reply != Reply::<S>::Probe(Err(Errno::ESRCH))
                            },
                        }
                    },
                    ShutdownError::Wait { source } => {
                        &&& last.reply == Reply::<S>::Wait(Err(source))
                        &&& !history::interruption(last.reply)
                    },
                }
            }
        }),
{
    lemma_stands(child, policy, target, replies);
}

/// An interrupted wait changes nothing: the shutdown asks for the same action again.
pub proof fn interruption_is_retried<S>(shutdown: Shutdown<S>, reply: Reply<S>)
    requires
        history::interruption(reply),
    ensures
        shutdown.next(reply) == Step::<Shutdown<S>, Result<S, ShutdownError>>::Perform(shutdown),
{
}

/// A reply to an action that was not asked for changes nothing.
pub proof fn stray_reply_is_ignored<S>(shutdown: Shutdown<S>, reply: Reply<S>)
    requires
        !reply.answers(shutdown.asks()),
    ensures
        shutdown.next(reply) == Step::<Shutdown<S>, Result<S, ShutdownError>>::Perform(shutdown),
{
}

/// Whether a shutdown goes on, with a certain action.
pub open spec fn goes_on<S>(
    now: Step<Shutdown<S>, Result<S, ShutdownError>>,
    action: Action,
) -> bool {
    now matches Step::Perform(shutdown) && shutdown.asks() == action
}

/// Whether a shutdown has ended with a certain result.
pub open spec fn comes_to<S>(
    now: Step<Shutdown<S>, Result<S, ShutdownError>>,
    result: Result<S, ShutdownError>,
) -> bool {
    now matches Step::Done(end) && end == result
}

/// Whether a shutdown has ended because `SIGKILL`, the last signal it sent, could not be sent.
pub open spec fn comes_to_rejection<S>(
    now: Step<Shutdown<S>, Result<S, ShutdownError>>,
    deliveries: Seq<Result<(), Errno>>,
) -> bool {
    now matches Step::Done(Err(ShutdownError::Kill { source })) && deliveries.last() is Err
        && source == system::os_error(deliveries.last()->Err_0 as i32)
}

/// What a reading of the clock leads to: to `kill` once the grace period is over, and before that
/// to a pause of a tenth of a second, or of what is left of the grace period if that is less.
pub open spec fn heeds_the_clock<S>(
    now: Step<Shutdown<S>, Result<S, ShutdownError>>,
    grace_time: Duration,
    elapsed: Duration,
    kill: Action,
) -> bool {
    let left = system::duration_nanos(grace_time) - system::duration_nanos(elapsed);
    if left <= 0 {
        goes_on(now, kill)
    } else {
        now matches Step::Perform(shutdown) && shutdown.asks() matches Action::Sleep { nanos }
            && nanos == if left < 100_000_000 {
            left
        } else {
            100_000_000
        }
    }
}

/// What the shutdown of a direct child makes of everything that happened so far.
///
/// Whatever was replied, the last exchange and the signals sent before decide what comes next:
///
/// - The shutdown begins with a check for the child's exit. A check that is interrupted is repeated,
///   and one that finds the child exited ends the shutdown with its status, at any point.
/// - A child that was found running is sent the graceful signal, or `SIGKILL` if there is none. If
///   the first check fails, so does the shutdown.
/// - Once the graceful signal is sent, the clock is started and the child is checked. While it is
///   running, the clock is read, and a pause, or `SIGKILL`, follows. After a pause the child is
///   checked before anything else is done.
/// - A graceful signal that could not be sent, and then a child that was not found exited, lead to
///   `SIGKILL`, and so does a check that fails within the grace period.
/// - After `SIGKILL` the child is waited for. A `SIGKILL` that could not be sent is the reason of
///   failure, unless a check finds that the child has exited.
///
/// Every signal goes to the process whose raw identifier is that of the child.
pub proof fn direct_shutdown_follows_its_exchanges<S>(
    child: u32,
    raw: i32,
    policy: ShutdownPolicy,
    replies: Seq<Reply<S>>,
)
    requires
        raw == child || raw == child - 0x1_0000_0000,
    ensures
        ({
            let first = shutdown::shutdown_start::<S>(child, policy, Target::Child);
            let past = history::history(first, replies);
            let now = history::run(first, replies);
            let deliveries = history::deliveries(past);
            let process = Destination::Process(system::pid_from_raw(raw));
            let kill = Action::Send { destination: process, signal: Signal::SIGKILL };
            let request = match policy {
                ShutdownPolicy::Kill => kill,
                ShutdownPolicy::Graceful { signal, .. } => Action::Send {
                    destination: process,
                    signal,
                },
                ShutdownPolicy::GracefulProcessGroup { signal, .. } => Action::Send {
                    destination: process,
                    signal,
                },
            };
            let killed = deliveries.len() == if policy is Kill {
                1nat
            } else {
                2nat
            };
            if past.len() == 0 {
                goes_on(now, Action::TryWait)
            } else {
                match past.last().reply {
                    Reply::TryWait(attempt) => if history::unsettled(attempt) {
                        goes_on(now, Action::TryWait)
                    } else {
                        match attempt {
                            Ok(Some(status)) => comes_to(now, Ok(status)),
                            Ok(None) => if deliveries.len() == 0 {
                                goes_on(now, request)
                            } else if killed {
                                comes_to_rejection(now, deliveries)
                            } else if deliveries[0] is Ok {
                                goes_on(now, Action::ReadClock)
                            } else {
                                goes_on(now, kill)
                            },
                            Err(source) => if deliveries.len() == 0 {
                                comes_to(now, Err(ShutdownError::Inspect { source }))
                            } else if killed {
                                comes_to_rejection(now, deliveries)
                            } else {
                                goes_on(now, kill)
                            },
                        }
                    },
                    Reply::Send(sent) => if sent is Err {
                        goes_on(now, Action::TryWait)
                    } else if killed {
                        goes_on(now, Action::Wait)
                    } else {
                        goes_on(now, Action::StartClock)
                    },
                    Reply::StartClock => goes_on(now, Action::TryWait),
                    Reply::ReadClock(elapsed) => match policy {
                        ShutdownPolicy::Kill => false,
                        ShutdownPolicy::Graceful { grace_time, .. } => heeds_the_clock(
                            now,
                            grace_time,
                            elapsed,
                            kill,
                        ),
                        ShutdownPolicy::GracefulProcessGroup { grace_time, .. } => heeds_the_clock(
                            now,
                            grace_time,
                            elapsed,
                            kill,
                        ),
                    },
                    Reply::Sleep => goes_on(now, Action::TryWait),
                    Reply::Wait(attempt) => if history::unsettled(attempt) {
                        goes_on(now, Action::Wait)
                    } else {
                        match attempt {
                            Ok(status) => comes_to(now, Ok(status)),
                            Err(source) => comes_to(now, Err(ShutdownError::Wait { source })),
                        }
                    },
                    Reply::Probe(_) => false,
                }
            }
        }),
    decreases replies.len(),
{
    let first = shutdown::shutdown_start::<S>(child, policy, Target::Child);
    protocol::raw_identifier_keeps_the_value(child, raw);
    if replies.len() > 0 {
        let before = replies.drop_last();
        direct_shutdown_follows_its_exchanges(child, raw, policy, before);
        lemma_direct(child, policy, before);
        match history::run(first, before) {
            Step::Perform(shutdown) => {
                let reply = replies.last();
                if reply.answers(shutdown.asks()) {
                    lemma_push(
                        history::history(first, before),
                        Exchange { action: shutdown.asks(), reply },
                    );
                }
            },
            _ => {},
        }
    }
}

/// What the shutdown of a process group makes of everything that happened so far.
///
/// Whatever was replied, the last exchange, the signals sent before, and whether the direct child
/// is reaped decide what comes next:
///
/// - The shutdown begins with the graceful signal, to the direct child or to the complete group as
///   the policy says, or with `SIGKILL` if there is no graceful signal. Whether the graceful signal
///   could be sent does not matter.
/// - Within the grace period, first the child is checked, until it is reaped, then the group is
///   probed. If the child is reaped and the group is gone, the shutdown succeeds; otherwise the
///   clock is read, and a pause, or `SIGKILL`, follows. A probe that fails ends the shutdown, a
///   check that fails leads to `SIGKILL`.
/// - `SIGKILL` goes to the complete group. If it could not be sent, that is the reason of failure,
///   unless a probe finds that the group is gone. After that the child is waited for, unless it is
///   reaped.
pub proof fn group_shutdown_follows_its_exchanges<S>(
    child: u32,
    raw: i32,
    group: Pid,
    policy: ShutdownPolicy,
    replies: Seq<Reply<S>>,
)
    requires
        raw == child || raw == child - 0x1_0000_0000,
    ensures
        ({
            let first = shutdown::shutdown_start::<S>(child, policy, Target::ProcessGroup(group));
            let past = history::history(first, replies);
            let now = history::run(first, replies);
            let deliveries = history::deliveries(past);
            let statuses = history::statuses(past);
            let kill = Action::Send {
                destination: Destination::Group(group),
                signal: Signal::SIGKILL,
            };
            let request = match policy {
                ShutdownPolicy::Kill => kill,
                ShutdownPolicy::Graceful { signal, .. } => Action::Send {
                    destination: Destination::Process(system::pid_from_raw(raw)),
                    signal,
                },
                ShutdownPolicy::GracefulProcessGroup { signal, .. } => Action::Send {
                    destination: Destination::Group(group),
                    signal,
                },
            };
            let killed = deliveries.len() == if policy is Kill {
                1nat
            } else {
                2nat
            };
            if past.len() == 0 {
                goes_on(now, request)
            } else {
                match past.last().reply {
                    Reply::Send(sent) => if !killed {
                        goes_on(now, Action::StartClock)
                    } else if sent is Err {
                        goes_on(now, Action::Probe { group })
                    } else if statuses.len() > 0 {
                        comes_to(now, Ok(statuses[0]))
                    } else {
                        goes_on(now, Action::Wait)
                    },
                    Reply::StartClock => goes_on(now, Action::TryWait),
                    Reply::TryWait(attempt) => if history::unsettled(attempt) {
                        goes_on(now, Action::TryWait)
                    } else if attempt is Ok {
                        goes_on(now, Action::Probe { group })
                    } else {
                        goes_on(now, kill)
                    },
                    Reply::Probe(probed) => {
                        let gone = probed is Err && probed->Err_0 == Errno::ESRCH;
                        if gone && statuses.len() > 0 {
                            comes_to(now, Ok(statuses[0]))
                        } else if killed {
                            if gone {
                                goes_on(now, Action::Wait)
                            } else {
                                comes_to_rejection(now, deliveries)
                            }
                        } else if gone || probed is Ok {
                            goes_on(now, Action::ReadClock)
                        } else {
                            comes_to(
                                now,
                                Err(
                                    ShutdownError::Inspect {
                                        source: system::os_error(probed->Err_0 as i32),
                                    },
                                ),
                            )
                        }
                    },
                    Reply::ReadClock(elapsed) => match policy {
                        ShutdownPolicy::Kill => false,
                        ShutdownPolicy::Graceful { grace_time, .. } => heeds_the_clock(
                            now,
                            grace_time,
                            elapsed,
                            kill,
                        ),
                        ShutdownPolicy::GracefulProcessGroup { grace_time, .. } => heeds_the_clock(
                            now,
                            grace_time,
                            elapsed,
                            kill,
                        ),
                    },
                    Reply::Sleep => if statuses.len() > 0 {
                        goes_on(now, Action::Probe { group })
                    } else {
                        goes_on(now, Action::TryWait)
                    },
                    Reply::Wait(attempt) => if history::unsettled(attempt) {
                        goes_on(now, Action::Wait)
                    } else {
                        match attempt {
                            Ok(status) => comes_to(now, Ok(status)),
                            Err(source) => comes_to(now, Err(ShutdownError::Wait { source })),
                        }
                    },
                }
            }
        }),
    decreases replies.len(),
{
    let first = shutdown::shutdown_start::<S>(child, policy, Target::ProcessGroup(group));
    protocol::raw_identifier_keeps_the_value(child, raw);
    if replies.len() > 0 {
        let before = replies.drop_last();
        group_shutdown_follows_its_exchanges(child, raw, group, policy, before);
        lemma_group(child, group, policy, before);
        match history::run(first, before) {
            Step::Perform(shutdown) => {
                let reply = replies.last();
                if reply.answers(shutdown.asks()) {
                    lemma_push(
                        history::history(first, before),
                        Exchange { action: shutdown.asks(), reply },
                    );
                }
            },
            _ => {},
        }
    }
}

/// What a shutdown asked for as its `i`-th action, counting from zero, or asks for now.
pub open spec fn asked<S>(first: Shutdown<S>, replies: Seq<Reply<S>>, i: int) -> Option<Action> {
    let past = history::history(first, replies);
    if 0 <= i < past.len() {
        Some(past[i].action)
    } else {
        match history::run(first, replies) {
            Step::Perform(shutdown) if i == past.len() => Some(shutdown.asks()),
            _ => None,
        }
    }
}

/// Whether a check came to an end without finding that the child had exited.
pub open spec fn unrewarding<S>(reply: Reply<S>) -> bool {
    reply matches Reply::TryWait(attempt) && !history::unsettled(attempt) && match attempt {
        Ok(status) => status is None,
        Err(_) => true,
    }
}

/// Whether a reading of the clock found that the grace period of a policy was over.
pub open spec fn found_overdue<S>(reply: Reply<S>, policy: ShutdownPolicy) -> bool {
    reply matches Reply::ReadClock(elapsed) && match policy {
        ShutdownPolicy::Kill => false,
        ShutdownPolicy::Graceful { grace_time, .. } => system::duration_nanos(grace_time)
            <= system::duration_nanos(elapsed),
        ShutdownPolicy::GracefulProcessGroup { grace_time, .. } => system::duration_nanos(
            grace_time,
        ) <= system::duration_nanos(elapsed),
    }
}

/// A direct child is not killed without a last look. Within the grace period every pause is
/// followed by a check for its exit, before anything else is done; the clock is read only directly
/// after a check that found it running; and a child that was asked to exit is sent `SIGKILL` only
/// directly after a check that did not find it exited, or directly after a reading of the clock
/// that found the grace period over.
pub proof fn direct_child_is_checked_after_every_pause<S>(
    child: u32,
    policy: ShutdownPolicy,
    replies: Seq<Reply<S>>,
    i: int,
)
    requires
        0 <= i,
    ensures
        ({
            let first = shutdown::shutdown_start::<S>(child, policy, Target::Child);
            let past = history::history(first, replies);
            &&& i < past.len() && past[i].action is Sleep ==> asked(first, replies, i + 1) == Some(
                Action::TryWait,
            )
            &&& asked(first, replies, i) == Some(Action::ReadClock) ==> i > 0 && past[i - 1].reply
                == Reply::<S>::TryWait(Ok(None))
            &&& asked(first, replies, i) matches Some(Action::Send { signal, .. }) ==> (signal
                == Signal::SIGKILL && history::deliveries(past.take(i)).len() > 0 ==> i > 0 && (
            unrewarding(past[i - 1].reply) || found_overdue(past[i - 1].reply, policy)))
        }),
    decreases replies.len(),
{
    let first = shutdown::shutdown_start::<S>(child, policy, Target::Child);
    let past = history::history(first, replies);
    let raw = child as i32;
    assert(raw == child || raw == child - 0x1_0000_0000) by (bit_vector)
        requires
            raw == child as i32,
    ;
    direct_shutdown_follows_its_exchanges(child, raw, policy, replies);
    if replies.len() > 0 {
        let before = replies.drop_last();
        let earlier = history::history(first, before);
        direct_child_is_checked_after_every_pause(child, policy, before, i);
        direct_shutdown_follows_its_exchanges(child, raw, policy, before);
        if i <= earlier.len() {
            assert(past.take(i) =~= earlier.take(i));
        }
    }
    assert(past.take(past.len() as int) =~= past);
}

/// A process group is not killed without a last look. Within the grace period every pause is
/// followed by a check for the exit of the direct child, or by a probe of the group if the child is
/// reaped, before anything else is done; until the child is reaped or the group is killed, the group
/// is probed only directly after a check; the clock is read only directly after a probe; and a group
/// that was asked to exit is sent `SIGKILL` only directly after a check that failed, or directly
/// after a reading of the clock that found the grace period over.
pub proof fn group_is_checked_after_every_pause<S>(
    child: u32,
    group: Pid,
    policy: ShutdownPolicy,
    replies: Seq<Reply<S>>,
    i: int,
)
    requires
        0 <= i,
    ensures
        ({
            let first = shutdown::shutdown_start::<S>(child, policy, Target::ProcessGroup(group));
            let past = history::history(first, replies);
            let before = past.take(i);
            &&& i < past.len() && past[i].action is Sleep ==> asked(first, replies, i + 1) == Some(
                if history::statuses(before).len() > 0 {
                    Action::Probe { group }
                } else {
                    Action::TryWait
                },
            )
            &&& asked(first, replies, i) matches Some(Action::Probe { .. }) ==> (
            history::statuses(before).len() == 0 && history::deliveries(before).len() == 1
                && !(policy is Kill) ==> i > 0 && past[i - 1].reply == Reply::<S>::TryWait(
                Ok(None),
            ))
            &&& asked(first, replies, i) == Some(Action::ReadClock) ==> i > 0 && past[i
                - 1].action == Action::Probe { group }
            &&& asked(first, replies, i) matches Some(Action::Send { signal, .. }) ==> (signal
                == Signal::SIGKILL && history::deliveries(before).len() > 0 ==> i > 0 && (
            unrewarding(past[i - 1].reply) && past[i - 1].reply != Reply::<S>::TryWait(Ok(None))
                || found_overdue(past[i - 1].reply, policy)))
        }),
    decreases replies.len(),
{
    let first = shutdown::shutdown_start::<S>(child, policy, Target::ProcessGroup(group));
    let past = history::history(first, replies);
    let raw = child as i32;
    assert(raw == child || raw == child - 0x1_0000_0000) by (bit_vector)
        requires
            raw == child as i32,
    ;
    group_shutdown_follows_its_exchanges(child, raw, group, policy, replies);
    lemma_group(child, group, policy, replies);
    if replies.len() > 0 {
        let before = replies.drop_last();
        let earlier = history::history(first, before);
        group_is_checked_after_every_pause(child, group, policy, before, i);
        group_shutdown_follows_its_exchanges(child, raw, group, policy, before);
        lemma_group(child, group, policy, before);
        if i <= earlier.len() {
            assert(past.take(i) =~= earlier.take(i));
        }
        match history::run(first, before) {
            Step::Perform(shutdown) => {
                let reply = replies.last();
                if reply.answers(shutdown.asks()) {
                    lemma_push(earlier, Exchange { action: shutdown.asks(), reply });
                }
            },
            _ => {},
        }
    }
    assert(past.take(past.len() as int) =~= past);
}

} // verus!
