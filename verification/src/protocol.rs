//! The conversation between an operation on a guarded process and the operating system.
//!
//! An operation never touches the operating system itself. It asks for one [`Action`] at a time
//! and decides from the [`Reply`] how to go on.
use crate::history;
use crate::policy::Target;
use crate::system;
use nix::errno::Errno;
use nix::sys::signal::Signal;
use nix::unistd::Pid;
use std::io;
use std::time::Duration;
use vstd::prelude::*;

verus! {

/// Receiver of one signal.
#[derive(Clone, Copy, Debug, Eq, PartialEq)]
pub enum Destination {
    /// A single process.
    Process(Pid),
    /// Every member of a process group.
    Group(Pid),
}

/// Work that an operation asks the operating system to do.
#[derive(Clone, Copy, Debug, Eq, PartialEq)]
pub enum Action {
    /// Check without blocking whether the direct child has exited.
    TryWait,
    /// Block until the direct child exits.
    Wait,
    /// Send a signal.
    Send {
        /// Who receives it.
        destination: Destination,
        /// What is sent.
        signal: Signal,
    },
    /// Check whether a process group can be signaled, without sending a signal.
    Probe {
        /// The group in question.
        group: Pid,
    },
    /// Take note of the present moment.
    StartClock,
    /// Measure the time since the moment that was noted.
    ReadClock,
    /// Pause.
    Sleep {
        /// How long, in nanoseconds.
        nanos: u64,
    },
}

/// What came of an action. `S` is the exit status of a process.
#[derive(Debug)]
pub enum Reply<S> {
    /// Answers [`Action::TryWait`]: the exit status, if the child has exited.
    TryWait(Result<Option<S>, io::Error>),
    /// Answers [`Action::Wait`].
    Wait(Result<S, io::Error>),
    /// Answers [`Action::Send`].
    Send(Result<(), Errno>),
    /// Answers [`Action::Probe`].
    Probe(Result<(), Errno>),
    /// Answers [`Action::StartClock`].
    StartClock,
    /// Answers [`Action::ReadClock`]: the time that was measured.
    ReadClock(Duration),
    /// Answers [`Action::Sleep`].
    Sleep,
}

impl<S> Reply<S> {
    /// Whether this is an answer to an action, as opposed to an answer to another one.
    pub open spec fn answers(self, action: Action) -> bool {
        match action {
            Action::TryWait => self is TryWait,
            Action::Wait => self is Wait,
            Action::Send { .. } => self is Send,
            Action::Probe { .. } => self is Probe,
            Action::StartClock => self is StartClock,
            Action::ReadClock => self is ReadClock,
            Action::Sleep { .. } => self is Sleep,
        }
    }
}

/// Every action has replies of one kind that answer it, and every reply answers actions of one kind
/// only, whatever either holds.
pub proof fn only_its_own_reply_answers<S>(
    checked: Result<Option<S>, io::Error>,
    waited: Result<S, io::Error>,
    outcome: Result<(), Errno>,
    elapsed: Duration,
    destination: Destination,
    signal: Signal,
    group: Pid,
    nanos: u64,
)
    ensures
        ({
            let actions = seq![
                Action::TryWait,
                Action::Wait,
                Action::Send { destination, signal },
                Action::Probe { group },
                Action::StartClock,
                Action::ReadClock,
                Action::Sleep { nanos },
            ];
            let replies = seq![
                Reply::<S>::TryWait(checked),
                Reply::Wait(waited),
                Reply::Send(outcome),
                Reply::Probe(outcome),
                Reply::StartClock,
                Reply::ReadClock(elapsed),
                Reply::Sleep,
            ];
            forall|i: int, j: int|
                #![trigger actions[i], replies[j]]
                0 <= i < 7 && 0 <= j < 7 ==> (replies[j].answers(actions[i]) <==> i == j)
        }),
{
}

/// Where an operation stands: `T` is the operation under way, `R` its result.
#[derive(Debug)]
pub enum Step<T, R> {
    /// The operation waits for the reply to the action that it asks for.
    Perform(T),
    /// The operation is complete.
    Done(R),
}

/// What to make of one attempt at an I/O operation.
#[derive(Debug)]
pub enum Attempt<T> {
    /// The attempt was interrupted and has to be repeated.
    Again,
    /// The attempt counts.
    Settled(Result<T, io::Error>),
}

/// Whether an attempt failed because a signal interrupted it.
pub open spec fn interrupted<T>(attempt: Result<T, io::Error>) -> bool {
    attempt is Err && system::error_kind(attempt->Err_0) == io::ErrorKind::Interrupted
}

/// What to make of an attempt: an interrupted one is repeated, any other counts as it is.
pub open spec fn judged<T>(attempt: Result<T, io::Error>) -> Attempt<T> {
    if interrupted(attempt) {
        Attempt::Again
    } else {
        Attempt::Settled(attempt)
    }
}

/// Retries an I/O operation if it returns with `EINTR`.
///
/// Takes what one attempt returned and tells whether the operation has to be attempted again.
pub fn io_retry<T>(attempt: Result<T, io::Error>) -> (result: Attempt<T>)
    ensures
        result == judged(attempt),
{
    match attempt {
        Err(error) => match error.kind() {
            io::ErrorKind::Interrupted => Attempt::Again,
            _ => Attempt::Settled(Err(error)),
        },
        Ok(value) => Attempt::Settled(Ok(value)),
    }
}

/// What an operation that is attempted over and over comes to, if any attempt counts.
pub open spec fn retried<T>(attempts: Seq<Result<T, io::Error>>) -> Option<Result<T, io::Error>>
    decreases attempts.len(),
{
    if attempts.len() == 0 {
        None
    } else {
        match judged(attempts.first()) {
            Attempt::Settled(result) => Some(result),
            Attempt::Again => retried(attempts.drop_first()),
        }
    }
}

/// An operation comes to the first attempt that was not interrupted, and so never to an
/// interruption.
pub proof fn first_settled_attempt_counts<T>(attempts: Seq<Result<T, io::Error>>, i: int)
    requires
        0 <= i < attempts.len(),
        !history::unsettled(attempts[i]),
        forall|j: int| 0 <= j < i ==> history::unsettled(#[trigger] attempts[j]),
    ensures
        retried(attempts) == Some(attempts[i]),
    decreases i,
{
    if i > 0 {
        assert(history::unsettled(attempts[0]));
        first_settled_attempt_counts(attempts.drop_first(), i - 1);
    }
}

/// The identifier under which the system calls know a child.
pub open spec fn child_pid(child: u32) -> Pid {
    system::pid_from_raw(child as i32)
}

/// The raw identifier of a child is its identifier, read as a signed number: the same number for
/// every identifier that a signed number can hold.
pub proof fn raw_identifier_keeps_the_value(child: u32, raw: i32)
    requires
        raw == child || raw == child - 0x1_0000_0000,
    ensures
        child as i32 == raw,
{
    assert(child < 0x8000_0000 ==> child as i32 == child) by (bit_vector);
    assert(child >= 0x8000_0000 ==> child as i32 == child - 0x1_0000_0000) by (bit_vector);
}

/// Who receives the signals of a guard that owns the child `child`.
pub open spec fn destination(child: u32, target: Target) -> Destination {
    match target {
        Target::Child => Destination::Process(child_pid(child)),
        Target::ProcessGroup(group) => Destination::Group(group),
    }
}

/// Sends a signal to a child or its dedicated process group.
pub fn send_signal(child: u32, target: Target, signal: Signal) -> (result: Action)
    ensures
        result == (Action::Send { destination: destination(child, target), signal }),
{
    let destination = match target {
        Target::Child => Destination::Process(Pid::from_raw(child as i32)),
        Target::ProcessGroup(group) => Destination::Group(group),
    };
    Action::Send { destination, signal }
}

/// What it means that sending a signal returned `sent`.
pub open spec fn delivery(sent: Result<(), Errno>) -> Result<(), io::Error> {
    match sent {
        Ok(()) => Ok(()),
        Err(errno) => Err(system::os_error(errno as i32)),
    }
}

/// Turns what sending a signal returned into the result of an I/O operation.
pub fn signal_result(sent: Result<(), Errno>) -> (result: Result<(), io::Error>)
    ensures
        result == delivery(sent),
{
    match sent {
        Ok(()) => Ok(()),
        Err(errno) => Err(system::io_error(errno)),
    }
}

/// What it means that probing a process group returned `probed`: the group has members, or it has
/// none, or the question stays open.
pub open spec fn group_presence(probed: Result<(), Errno>) -> Result<bool, io::Error> {
    match probed {
        Ok(()) => Ok(true),
        Err(errno) => if errno == Errno::ESRCH {
            Ok(false)
        } else {
            Err(system::os_error(errno as i32))
        },
    }
}

/// Checks whether a process group still has members, given what probing the group returned.
pub fn process_group_exists(probed: Result<(), Errno>) -> (result: Result<bool, io::Error>)
    ensures
        result == group_presence(probed),
{
    match probed {
        Ok(()) => Ok(true),
        Err(Errno::ESRCH) => Ok(false),
        Err(errno) => Err(system::io_error(errno)),
    }
}

} // verus!
