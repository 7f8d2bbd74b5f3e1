//! Operations that reap or signal the direct child without shutting it down.
use crate::history;
use crate::policy::Target;
use crate::protocol;
use crate::protocol::{
    io_retry, send_signal, signal_result, Action, Attempt, Destination, Reply, Step,
};
use crate::system;
use nix::errno::Errno;
use nix::sys::signal::Signal;
use std::io;
use vstd::prelude::*;

verus! {

/// A check for the direct child's exit under way.
#[derive(Debug)]
pub struct TryWaiting;

impl TryWaiting {
    /// The action that the check asks for.
    pub open spec fn asks(self) -> Action {
        Action::TryWait
    }

    /// Where a reply leads. A reply to an action that was not asked for changes nothing.
    pub open spec fn next<S>(self, reply: Reply<S>) -> Step<
        TryWaiting,
        Result<Option<S>, io::Error>,
    > {
        match reply {
            Reply::TryWait(attempt) if !protocol::interrupted(attempt) => Step::Done(attempt),
            _ => Step::Perform(self),
        }
    }

    /// Returns the action that the check asks for.
    pub fn action(&self) -> (result: Action)
        ensures
            result == self.asks(),
    {
        Action::TryWait
    }

    /// Goes on with the reply to the action that the check asked for.
    pub fn resume<S>(self, reply: Reply<S>) -> (result: Step<
        TryWaiting,
        Result<Option<S>, io::Error>,
    >)
        ensures
            result == self.next(reply),
    {
        match reply {
            Reply::TryWait(attempt) => match io_retry(attempt) {
                Attempt::Again => Step::Perform(self),
                Attempt::Settled(result) => Step::Done(result),
            },
            _ => Step::Perform(self),
        }
    }
}

/// A wait for the direct child's exit under way.
#[derive(Debug)]
pub struct Waiting;

impl Waiting {
    /// The action that the wait asks for.
    pub open spec fn asks(self) -> Action {
        Action::Wait
    }

    /// Where a reply leads. A reply to an action that was not asked for changes nothing.
    pub open spec fn next<S>(self, reply: Reply<S>) -> Step<Waiting, Result<Option<S>, io::Error>> {
        match reply {
            Reply::Wait(Ok(status)) => Step::Done(Ok(Some(status))),
            Reply::Wait(Err(error)) if !protocol::interrupted(Err::<S, io::Error>(error)) =>
                Step::Done(Err(error)),
            _ => Step::Perform(self),
        }
    }

    /// Returns the action that the wait asks for.
    pub fn action(&self) -> (result: Action)
        ensures
            result == self.asks(),
    {
        Action::Wait
    }

    /// Goes on with the reply to the action that the wait asked for.
    pub fn resume<S>(self, reply: Reply<S>) -> (result: Step<
        Waiting,
        Result<Option<S>, io::Error>,
    >)
        ensures
            result == self.next(reply),
    {
        match reply {
            Reply::Wait(attempt) => match io_retry(attempt) {
                Attempt::Again => Step::Perform(self),
                Attempt::Settled(Ok(status)) => Step::Done(Ok(Some(status))),
                Attempt::Settled(Err(error)) => Step::Done(Err(error)),
            },
            _ => Step::Perform(self),
        }
    }
}

/// Waiting for the direct child, with or without blocking, never sends a signal. The wait goes on
/// while it is interrupted, and any other answer ends it with what was answered.
pub proof fn waiting_requests_nothing<S>(
    check: TryWaiting,
    wait: Waiting,
    checked: Result<Option<S>, io::Error>,
    waited: Result<S, io::Error>,
)
    ensures
        check.asks() == Action::TryWait,
        wait.asks() == Action::Wait,
        check.next(Reply::TryWait(checked)) == if history::unsettled(checked) {
            Step::<TryWaiting, Result<Option<S>, io::Error>>::Perform(check)
        } else {
            Step::Done(checked)
        },
        wait.next(Reply::Wait(waited)) == if history::unsettled(waited) {
            Step::<Waiting, Result<Option<S>, io::Error>>::Perform(wait)
        } else {
            match waited {
                Ok(status) => Step::Done(Ok(Some(status))),
                Err(error) => Step::Done(Err(error)),
            }
        },
{
}

/// How far the sending of a signal has come. `S` is the exit status of a process.
#[derive(Debug)]
pub enum SignalStage<S> {
    /// Whether the direct child has already exited is being checked.
    Inspect,
    /// The signal is being sent.
    Send {
        /// Exit status of the direct child, if it had already exited.
        status: Option<S>,
    },
    /// The signal could not be sent; whether the direct child has exited is being checked.
    Recheck {
        /// Why the signal could not be sent.
        error: io::Error,
    },
}

/// The sending of a signal under way.
#[derive(Debug)]
pub struct Signaling<S> {
    /// Identifier of the direct child.
    pub child: u32,
    /// Who receives the signal.
    pub target: Target,
    /// The signal.
    pub signal: Signal,
    /// How far the sending has come.
    pub stage: SignalStage<S>,
}

impl<S> Signaling<S> {
    /// The same sending at another stage.
    pub open spec fn at(self, stage: SignalStage<S>) -> Signaling<S> {
        Signaling { stage, ..self }
    }

    /// The action that the sending asks for.
    pub open spec fn asks(self) -> Action {
        match self.stage {
            SignalStage::Send { .. } => Action::Send {
                destination: protocol::destination(self.child, self.target),
                signal: self.signal,
            },
            _ => Action::TryWait,
        }
    }

    /// Where the first check for the child's exit leads. A child that is signaled alone is only
    /// signaled if it was found running. A process group is signaled in any case, as it can have
    /// other members than the child that leads it.
    pub open spec fn inspected(self, attempt: Result<Option<S>, io::Error>) -> Step<
        Signaling<S>,
        Result<Option<S>, io::Error>,
    > {
        match attempt {
            Ok(None) => Step::Perform(self.at(SignalStage::Send { status: None })),
            Ok(Some(status)) => if self.target is Child {
                Step::Done(Ok(Some(status)))
            } else {
                Step::Perform(self.at(SignalStage::Send { status: Some(status) }))
            },
            Err(error) => if self.target is Child {
                Step::Done(Err(error))
            } else {
                Step::Perform(self.at(SignalStage::Send { status: None }))
            },
        }
    }

    /// Where a reply leads. A reply to an action that was not asked for changes nothing.
    pub open spec fn next(self, reply: Reply<S>) -> Step<
        Signaling<S>,
        Result<Option<S>, io::Error>,
    > {
        match (self.stage, reply) {
            (SignalStage::Inspect, Reply::TryWait(attempt)) => if protocol::interrupted(attempt) {
                Step::Perform(self)
            } else {
                self.inspected(attempt)
            },
            (SignalStage::Send { status: Some(status) }, Reply::Send(_)) => Step::Done(
                Ok(Some(status)),
            ),
            (SignalStage::Send { status: None }, Reply::Send(sent)) => match protocol::delivery(
                sent,
            ) {
                Ok(()) => Step::Done(Ok(None)),
                Err(error) => Step::Perform(self.at(SignalStage::Recheck { error })),
            },
            (SignalStage::Recheck { error }, Reply::TryWait(attempt)) => if protocol::interrupted(
                attempt,
            ) {
                Step::Perform(self)
            } else {
                match attempt {
                    Ok(Some(status)) => Step::Done(Ok(Some(status))),
                    _ => Step::Done(Err(error)),
                }
            },
            _ => Step::Perform(self),
        }
    }

    /// Returns the action that the sending asks for.
    pub fn action(&self) -> (result: Action)
        ensures
            result == self.asks(),
    {
        match self.stage {
            SignalStage::Send { .. } => send_signal(self.child, self.target, self.signal),
            _ => Action::TryWait,
        }
    }

    /// Goes on with the reply to the action that the sending asked for.
    pub fn resume(self, reply: Reply<S>) -> (result: Step<
        Signaling<S>,
        Result<Option<S>, io::Error>,
    >)
        ensures
            result == self.next(reply),
    {
        let Signaling { child, target, signal, stage } = self;
        let stage = match (stage, reply) {
            (SignalStage::Inspect, Reply::TryWait(attempt)) => match (io_retry(attempt), target) {
                (Attempt::Again, _) => SignalStage::Inspect,
                (Attempt::Settled(Ok(None)), _) => SignalStage::Send { status: None },
                (Attempt::Settled(result), Target::Child) => {
                    return Step::Done(result);
                },
                (Attempt::Settled(Ok(status)), Target::ProcessGroup(_)) => SignalStage::Send {
                    status,
                },
                (Attempt::Settled(Err(_)), Target::ProcessGroup(_)) => SignalStage::Send {
                    status: None,
                },
            },
            (SignalStage::Send { status: Some(status) }, Reply::Send(_)) => {
                return Step::Done(Ok(Some(status)));
            },
            (SignalStage::Send { status: None }, Reply::Send(sent)) => match signal_result(sent) {
                Ok(()) => {
                    return Step::Done(Ok(None));
                },
                Err(error) => SignalStage::Recheck { error },
            },
            (SignalStage::Recheck { error }, Reply::TryWait(attempt)) => match io_retry(attempt) {
                Attempt::Again => SignalStage::Recheck { error },
                Attempt::Settled(Ok(Some(status))) => {
                    return Step::Done(Ok(Some(status)));
                },
                Attempt::Settled(_) => {
                    return Step::Done(Err(error));
                },
            },
            (stage, _) => stage,
        };
        Step::Perform(Signaling { child, target, signal, stage })
    }
}

/// The start of the sending of a signal: the direct child is inspected first.
pub open spec fn signal_start<S>(child: u32, target: Target, signal: Signal) -> Signaling<S> {
    Signaling { child, target, signal, stage: SignalStage::Inspect }
}

/// Begins to send a signal to a child or its dedicated process group.
pub fn signal_child<S>(child: u32, target: Target, signal: Signal) -> (result: Signaling<S>)
    ensures
        result == signal_start::<S>(child, target, signal),
{
    Signaling { child, target, signal, stage: SignalStage::Inspect }
}

/// Where the sending of a signal stands after a sequence of replies.
pub open spec fn signal_run<S>(first: Signaling<S>, replies: Seq<Reply<S>>) -> Step<
    Signaling<S>,
    Result<Option<S>, io::Error>,
>
    decreases replies.len(),
{
    if replies.len() == 0 {
        Step::Perform(first)
    } else {
        match signal_run(first, replies.drop_last()) {
            Step::Perform(signaling) => signaling.next(replies.last()),
            Step::Done(result) => Step::Done(result),
        }
    }
}

/// What came of the attempts to send the signal during a sequence of replies, in order. Replies
/// that answer nothing the sending asked for leave no trace.
pub open spec fn deliveries<S>(first: Signaling<S>, replies: Seq<Reply<S>>) -> Seq<
    Result<(), Errno>,
>
    decreases replies.len(),
{
    if replies.len() == 0 {
        seq![]
    } else {
        let before = deliveries(first, replies.drop_last());
        match (signal_run(first, replies.drop_last()), replies.last()) {
            (Step::Perform(signaling), Reply::Send(sent)) if signaling.asks() is Send =>
                before.push(sent),
            _ => before,
        }
    }
}

/// What came of the checks for the child's exit during a sequence of replies, in order, without
/// those that were interrupted.
pub open spec fn checks<S>(first: Signaling<S>, replies: Seq<Reply<S>>) -> Seq<
    Result<Option<S>, io::Error>,
>
    decreases replies.len(),
{
    if replies.len() == 0 {
        seq![]
    } else {
        let before = checks(first, replies.drop_last());
        match (signal_run(first, replies.drop_last()), replies.last()) {
            (Step::Perform(signaling), Reply::TryWait(attempt)) if signaling.asks() is TryWait
                && !history::unsettled(attempt) => before.push(attempt),
            _ => before,
        }
    }
}

/// Whether a check found that the child had exited with `status`.
pub open spec fn found<S>(check: Result<Option<S>, io::Error>, status: S) -> bool {
    check == Ok::<Option<S>, io::Error>(Some(status))
}

/// What holds of the sending of a signal at each of its stages.
proof fn lemma_signal<S>(child: u32, target: Target, signal: Signal, replies: Seq<Reply<S>>)
    ensures
        ({
            let first = signal_start::<S>(child, target, signal);
            let sent = deliveries(first, replies);
            let checks = checks(first, replies);
            match signal_run(first, replies) {
                Step::Perform(signaling) => {
                    &&& signaling == first.at(signaling.stage)
                    &&& match signaling.stage {
                        SignalStage::Inspect => sent.len() == 0 && checks.len() == 0,
                        SignalStage::Send { status } => {
                            &&& sent.len() == 0
                            &&& checks.len() == 1
                            &&& match status {
                                Some(status) => target is ProcessGroup && found(checks[0], status),
                                None => {
                                    ||| checks[0] == Ok::<Option<S>, io::Error>(None)
                                    ||| target is ProcessGroup && checks[0] is Err
                                },
                            }
                        },
                        SignalStage::Recheck { error } => {
                            &&& sent.len() == 1
                            &&& protocol::delivery(sent[0]) == Err::<(), io::Error>(error)
                            &&& checks.len() == 1
                            &&& checks[0] == Ok::<Option<S>, io::Error>(None) || target
                                is ProcessGroup && checks[0] is Err
                        },
                    }
                },
                Step::Done(Ok(None)) => {
                    &&& sent.len() == 1
                    &&& sent[0] is Ok
                    &&& checks.len() == 1
                    &&& checks[0] == Ok::<Option<S>, io::Error>(None) || target is ProcessGroup
                        && checks[0] is Err
                },
                Step::Done(Ok(Some(status))) => {
                    &&& checks.len() > 0
                    &&& found(checks.last(), status) && checks.len() <= 2
                    &&& checks.len() == 2 ==> {
                        &&& sent.len() == 1
                        &&& sent[0] is Err
                        &&& checks[0] == Ok::<Option<S>, io::Error>(None) || checks[0] is Err
                    }
                    &&& checks.len() == 1 ==> sent.len() == if target is Child {
                        0nat
                    } else {
                        1nat
                    }
                },
                Step::Done(Err(error)) => {
                    ||| {
                        &&& target is Child
                        &&& sent.len() == 0
                        &&& checks =~= seq![Err::<Option<S>, io::Error>(error)]
                    }
                    ||| {
                        &&& sent.len() == 1
                        &&& protocol::delivery(sent[0]) == Err::<(), io::Error>(error)
                        &&& checks.len() == 2
                        &&& forall|i: int, status: S| 0 <= i < 2 ==> !found(checks[i], status)
                    }
                },
            }
        }),
    decreases replies.len(),
{
    if replies.len() > 0 {
        lemma_signal(child, target, signal, replies.drop_last());
    }
}

/// Sending a signal sends that signal, to the child or group that the guard signals, at most once,
/// and only after the direct child was inspected: a child that is signaled alone was found running,
/// while a process group is signaled whatever was found. No status as the result means that the
/// signal was delivered. An error means that it was not, and names the reason: that the signal
/// could not be sent, or that a child that is signaled alone could not be inspected.
pub proof fn signal_is_sent_once<S>(
    child: u32,
    target: Target,
    signal: Signal,
    replies: Seq<Reply<S>>,
)
    ensures
        ({
            let first = signal_start::<S>(child, target, signal);
            let sent = deliveries(first, replies);
            let checks = checks(first, replies);
            &&& sent.len() <= 1
            &&& match signal_run(first, replies) {
                Step::Perform(signaling) => {
                    &&& sent.len() == 1 ==> sent[0] is Err
                    &&& signaling.asks() is Send ==> {
                        &&& sent.len() == 0
                        &&& signaling.asks() == (Action::Send {
                            destination: protocol::destination(child, target),
                            signal,
                        })
                        &&& checks.len() == 1
                        &&& target is Child ==> checks[0] == Ok::<Option<S>, io::Error>(None)
                    }
                },
                Step::Done(result) => {
                    &&& target is ProcessGroup ==> sent.len() == 1
                    &&& match result {
                        Ok(None) => sent.len() == 1 && sent[0] is Ok,
                        Ok(Some(_)) => target is Child && sent.len() == 1 ==> sent[0] is Err,
                        Err(error) => {
                            ||| {
                                &&& sent.len() == 1
                                &&& protocol::delivery(sent[0]) == Err::<(), io::Error>(error)
                            }
                            ||| {
                                &&& sent.len() == 0
                                &&& target is Child
                                &&& checks == seq![Err::<Option<S>, io::Error>(error)]
                            }
                        },
                    }
                },
            }
        }),
{
    lemma_signal(child, target, signal, replies);
}

/// Sending a signal reports the exit status of a direct child that has exited: once a check found
/// one, the result is that status and no other, whoever receives the signal; and a status is only
/// reported if the last check found it.
pub proof fn signal_reports_an_exited_child<S>(
    child: u32,
    target: Target,
    signal: Signal,
    replies: Seq<Reply<S>>,
    i: int,
    status: S,
)
    ensures
        ({
            let first = signal_start::<S>(child, target, signal);
            let checks = checks(first, replies);
            &&& signal_run(first, replies) matches Step::Done(Ok(Some(reported)))
                ==> checks.len() > 0 && found(checks.last(), reported)
            &&& 0 <= i < checks.len() && found(checks[i], status) ==> {
                &&& i == checks.len() - 1
                &&& match signal_run(first, replies) {
                    Step::Perform(signaling) => signaling.stage == SignalStage::Send {
                        status: Some(status),
                    },
                    Step::Done(result) => result == Ok::<Option<S>, io::Error>(Some(status)),
                }
            }
        }),
{
    lemma_signal(child, target, signal, replies);
}

/// What the sending of a signal makes of everything that happened so far.
///
/// Whatever was replied, the checks and attempts made so far decide what comes next:
///
/// - The direct child is checked first. If it is to receive the signal alone and is not found
///   running, what the check found is the result. Otherwise the signal is sent: to the process
///   whose raw identifier is that of the child, or to the process group, whatever the check found.
/// - Once the signal was attempted, a status that the first check found is the result. If there is
///   none, a signal that was delivered ends the sending without a status; one that was not leads to
///   another check.
/// - The status that the second check found is the result, or else the reason why the signal could
///   not be sent.
pub proof fn signal_follows_its_exchanges<S>(
    child: u32,
    raw: i32,
    target: Target,
    signal: Signal,
    replies: Seq<Reply<S>>,
)
    requires
        raw == child || raw == child - 0x1_0000_0000,
    ensures
        ({
            let first = signal_start::<S>(child, target, signal);
            let now = signal_run(first, replies);
            let sent = deliveries(first, replies);
            let checks = checks(first, replies);
            let send = Action::Send {
                destination: match target {
                    Target::Child => Destination::Process(system::pid_from_raw(raw)),
                    Target::ProcessGroup(group) => Destination::Group(group),
                },
                signal,
            };
            if checks.len() == 0 {
                sent.len() == 0 && now is Perform && now->Perform_0.asks() == Action::TryWait
            } else if checks.len() == 1 && sent.len() == 0 {
                if target is Child && checks[0] != Ok::<Option<S>, io::Error>(None) {
                    now is Done && now->Done_0 == checks[0]
                } else {
                    now is Perform && now->Perform_0.asks() == send
                }
            } else if checks.len() == 1 {
                &&& sent.len() == 1
                &&& if checks[0] is Ok && checks[0]->Ok_0 is Some {
                    target is ProcessGroup && now is Done && now->Done_0 == checks[0]
                } else if sent[0] is Ok {
                    now is Done && now->Done_0 == Ok::<Option<S>, io::Error>(None)
                } else {
                    now is Perform && now->Perform_0.asks() == Action::TryWait
                }
            } else {
                &&& checks.len() == 2
                &&& sent.len() == 1
                &&& sent[0] is Err
                &&& now is Done
                &&& now->Done_0 == if checks[1] is Ok && checks[1]->Ok_0 is Some {
                    checks[1]
                } else {
                    Err(system::os_error(sent[0]->Err_0 as i32))
                }
            }
        }),
    decreases replies.len(),
{
    protocol::raw_identifier_keeps_the_value(child, raw);
    lemma_signal(child, target, signal, replies);
    if replies.len() > 0 {
        signal_follows_its_exchanges(child, raw, target, signal, replies.drop_last());
        lemma_signal(child, target, signal, replies.drop_last());
    }
}

} // verus!
