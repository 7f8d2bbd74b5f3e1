//! Single decisions, and the replies on which a shutdown fails.

use nix::errno::Errno;
use nix::unistd::Pid;
use process_guard::policy::{graceful_shutdown, poll_pause, POLL_INTERVAL_NANOS};
use process_guard::protocol::{io_retry, process_group_exists, send_signal, signal_result};
use process_guard::shutdown::{shutdown_child, Shutdown};
use process_guard::{
    Action, Attempt, Child, Destination, ProcessGuard, Reply, ShutdownError, ShutdownPolicy,
    Signal, Step, Target,
};
use std::io;
use std::time::Duration;

const ID: u32 = 77;

fn os_error(code: i32) -> io::Error {
    io::Error::from_raw_os_error(code)
}

fn interrupted() -> io::Error {
    os_error(Errno::EINTR as i32)
}

fn graceful(millis: u64) -> ShutdownPolicy {
    ShutdownPolicy::Graceful {
        signal: Signal::SIGTERM,
        grace_time: Duration::from_millis(millis),
    }
}

fn group() -> Pid {
    Pid::from_raw(ID as i32)
}

/// Runs a shutdown against a script of actions and replies.
fn follow(
    policy: ShutdownPolicy,
    target: Target,
    script: Vec<(Action, Reply<i32>)>,
) -> Step<Shutdown<i32>, Result<i32, ShutdownError>> {
    let mut step = Step::Perform(shutdown_child(ID, policy, target));
    for (action, reply) in script {
        step = match step {
            Step::Perform(shutdown) => {
                assert_eq!(shutdown.action(), action);
                shutdown.resume(reply)
            }
            Step::Done(_) => panic!("the shutdown ended before {:?}", action),
        };
    }
    step
}

fn failure(step: Step<Shutdown<i32>, Result<i32, ShutdownError>>) -> ShutdownError {
    match step {
        Step::Done(Err(error)) => error,
        other => panic!("the shutdown did not fail: {:?}", other),
    }
}

fn success(step: Step<Shutdown<i32>, Result<i32, ShutdownError>>) -> i32 {
    match step {
        Step::Done(Ok(status)) => status,
        other => panic!("the shutdown did not succeed: {:?}", other),
    }
}

fn pending(step: Step<Shutdown<i32>, Result<i32, ShutdownError>>) -> Action {
    match step {
        Step::Perform(shutdown) => shutdown.action(),
        other => panic!("the shutdown ended: {:?}", other),
    }
}

fn to_child(signal: Signal) -> Action {
    Action::Send { destination: Destination::Process(group()), signal }
}

fn to_group(signal: Signal) -> Action {
    Action::Send { destination: Destination::Group(group()), signal }
}

#[test]
fn only_interruptions_are_retried() {
    assert!(matches!(io_retry::<u8>(Err(interrupted())), Attempt::Again));
    assert!(matches!(
        io_retry::<u8>(Err(io::Error::from(io::ErrorKind::Interrupted))),
        Attempt::Again
    ));
    assert!(matches!(io_retry(Ok(5u8)), Attempt::Settled(Ok(5))));
    match io_retry::<u8>(Err(os_error(Errno::ECHILD as i32))) {
        Attempt::Settled(Err(error)) => {
            assert_eq!(error.raw_os_error(), Some(Errno::ECHILD as i32))
        }
        other => panic!("{:?}", other),
    }
}

#[test]
fn first_settled_attempt_is_the_result() {
    let attempts = vec![Err(interrupted()), Err(interrupted()), Ok(8), Ok(9)];
    let mut result = None;
    for attempt in attempts {
        if let Attempt::Settled(settled) = io_retry(attempt) {
            result = Some(settled);
            break;
        }
    }
    assert!(matches!(result, Some(Ok(8))));
}

#[test]
fn pauses_fill_the_grace_period() {
    let grace = Duration::from_millis(250);
    assert_eq!(POLL_INTERVAL_NANOS, 100_000_000);
    assert_eq!(poll_pause(grace, Duration::ZERO), Some(100_000_000));
    assert_eq!(poll_pause(grace, Duration::from_millis(150)), Some(100_000_000));
    assert_eq!(poll_pause(grace, Duration::from_millis(151)), Some(99_000_000));
    assert_eq!(poll_pause(grace, Duration::from_nanos(249_999_999)), Some(1));
    assert_eq!(poll_pause(grace, grace), None);
    assert_eq!(poll_pause(grace, Duration::from_secs(9)), None);
    assert_eq!(poll_pause(Duration::ZERO, Duration::ZERO), None);
    assert_eq!(poll_pause(Duration::MAX, Duration::ZERO), Some(100_000_000));
    assert_eq!(poll_pause(Duration::ZERO, Duration::MAX), None);
}

#[test]
fn policies_name_their_request() {
    let grace_time = Duration::from_secs(2);
    assert_eq!(graceful_shutdown(ShutdownPolicy::Kill), None);
    assert_eq!(
        graceful_shutdown(ShutdownPolicy::Graceful { signal: Signal::SIGINT, grace_time }),
        Some((Signal::SIGINT, grace_time))
    );
    assert_eq!(
        graceful_shutdown(ShutdownPolicy::GracefulProcessGroup {
            signal: Signal::SIGHUP,
            grace_time
        }),
        Some((Signal::SIGHUP, grace_time))
    );
}

#[test]
fn signals_are_addressed() {
    assert_eq!(send_signal(ID, Target::Child, Signal::SIGTERM), to_child(Signal::SIGTERM));
    assert_eq!(
        send_signal(5, Target::ProcessGroup(group()), Signal::SIGTERM),
        to_group(Signal::SIGTERM)
    );
    assert_eq!(
        send_signal(u32::MAX, Target::Child, Signal::SIGTERM),
        Action::Send {
            destination: Destination::Process(Pid::from_raw(-1)),
            signal: Signal::SIGTERM,
        }
    );
}

#[test]
fn system_call_results_are_interpreted() {
    assert!(signal_result(Ok(())).is_ok());
    let error = signal_result(Err(Errno::EPERM)).unwrap_err();
    assert_eq!(error.raw_os_error(), Some(Errno::EPERM as i32));
    assert_eq!(error.kind(), io::ErrorKind::PermissionDenied);

    assert!(matches!(process_group_exists(Ok(())), Ok(true)));
    assert!(matches!(process_group_exists(Err(Errno::ESRCH)), Ok(false)));
    let error = process_group_exists(Err(Errno::EPERM)).unwrap_err();
    assert_eq!(error.raw_os_error(), Some(Errno::EPERM as i32));
}

#[test]
fn failed_first_inspection_ends_a_direct_shutdown() {
    let error = failure(follow(
        graceful(100),
        Target::Child,
        vec![(Action::TryWait, Reply::TryWait(Err(os_error(10))))],
    ));
    assert!(matches!(error, ShutdownError::Inspect { .. }));
    assert_eq!(error.message(), "failed to inspect the child before shutdown");
    assert_eq!(error.source().raw_os_error(), Some(10));
}

#[test]
fn failed_kill_ends_a_direct_shutdown_unless_the_child_has_exited() {
    let script = |check: Result<Option<i32>, io::Error>| {
        vec![
            (Action::TryWait, Reply::TryWait(Ok(None))),
            (to_child(Signal::SIGKILL), Reply::Send(Err(Errno::EPERM))),
            (Action::TryWait, Reply::TryWait(Err(interrupted()))),
            (Action::TryWait, Reply::TryWait(check)),
        ]
    };
    let kill = ShutdownPolicy::Kill;
    for check in vec![Ok(None), Err(os_error(10))] {
        let error = failure(follow(kill, Target::Child, script(check)));
        assert!(matches!(error, ShutdownError::Kill { .. }));
        assert_eq!(error.message(), "failed to forcefully terminate the child");
        assert_eq!(error.source().raw_os_error(), Some(Errno::EPERM as i32));
    }
    assert_eq!(success(follow(kill, Target::Child, script(Ok(Some(6))))), 6);
}

#[test]
fn failed_wait_ends_a_shutdown() {
    let direct = failure(follow(
        ShutdownPolicy::Kill,
        Target::Child,
        vec![
            (Action::TryWait, Reply::TryWait(Ok(None))),
            (to_child(Signal::SIGKILL), Reply::Send(Ok(()))),
            (Action::Wait, Reply::Wait(Err(interrupted()))),
            (Action::Wait, Reply::Wait(Err(os_error(10)))),
        ],
    ));
    let grouped = failure(follow(
        ShutdownPolicy::Kill,
        Target::ProcessGroup(group()),
        vec![
            (to_group(Signal::SIGKILL), Reply::Send(Ok(()))),
            (Action::Wait, Reply::Wait(Err(interrupted()))),
            (Action::Wait, Reply::Wait(Err(os_error(10)))),
        ],
    ));
    for error in vec![direct, grouped] {
        assert!(matches!(error, ShutdownError::Wait { .. }));
        assert_eq!(error.message(), "failed to reap the terminated child");
        assert_eq!(error.source().raw_os_error(), Some(10));
    }
}

#[test]
fn unsent_graceful_signal_leads_to_a_check_and_to_force() {
    let script = |check: Result<Option<i32>, io::Error>| {
        vec![
            (Action::TryWait, Reply::TryWait(Ok(None))),
            (to_child(Signal::SIGTERM), Reply::Send(Err(Errno::ESRCH))),
            (Action::TryWait, Reply::TryWait(check)),
        ]
    };
    assert_eq!(success(follow(graceful(100), Target::Child, script(Ok(Some(4))))), 4);
    for check in vec![Ok(None), Err(os_error(10))] {
        assert_eq!(
            pending(follow(graceful(100), Target::Child, script(check))),
            to_child(Signal::SIGKILL)
        );
    }
}

#[test]
fn failed_poll_cuts_the_grace_period_short() {
    let direct = follow(
        graceful(100),
        Target::Child,
        vec![
            (Action::TryWait, Reply::TryWait(Ok(None))),
            (to_child(Signal::SIGTERM), Reply::Send(Ok(()))),
            (Action::StartClock, Reply::StartClock),
            (Action::TryWait, Reply::TryWait(Err(os_error(10)))),
        ],
    );
    assert_eq!(pending(direct), to_child(Signal::SIGKILL));
    let grouped = follow(
        graceful(100),
        Target::ProcessGroup(group()),
        vec![
            (to_child(Signal::SIGTERM), Reply::Send(Err(Errno::EPERM))),
            (Action::StartClock, Reply::StartClock),
            (Action::TryWait, Reply::TryWait(Err(os_error(10)))),
        ],
    );
    assert_eq!(pending(grouped), to_group(Signal::SIGKILL));
}

#[test]
fn child_that_exits_within_the_grace_period_is_not_killed() {
    let status = success(follow(
        graceful(150),
        Target::Child,
        vec![
            (Action::TryWait, Reply::TryWait(Ok(None))),
            (to_child(Signal::SIGTERM), Reply::Send(Ok(()))),
            (Action::StartClock, Reply::StartClock),
            (Action::TryWait, Reply::TryWait(Ok(None))),
            (Action::ReadClock, Reply::ReadClock(Duration::from_millis(20))),
            (Action::Sleep { nanos: 100_000_000 }, Reply::Sleep),
            (Action::TryWait, Reply::TryWait(Ok(None))),
            (Action::ReadClock, Reply::ReadClock(Duration::from_millis(121))),
            (Action::Sleep { nanos: 29_000_000 }, Reply::Sleep),
            (Action::TryWait, Reply::TryWait(Ok(Some(12)))),
        ],
    ));
    assert_eq!(status, 12);
}

#[test]
fn reaped_leader_is_not_waited_for_again() {
    let probe = Action::Probe { group: group() };
    let status = success(follow(
        graceful(150),
        Target::ProcessGroup(group()),
        vec![
            (to_child(Signal::SIGTERM), Reply::Send(Ok(()))),
            (Action::StartClock, Reply::StartClock),
            (Action::TryWait, Reply::TryWait(Err(interrupted()))),
            (Action::TryWait, Reply::TryWait(Ok(Some(2)))),
            (probe, Reply::Probe(Ok(()))),
            (Action::ReadClock, Reply::ReadClock(Duration::from_millis(100))),
            (Action::Sleep { nanos: 50_000_000 }, Reply::Sleep),
            (probe, Reply::Probe(Ok(()))),
            (Action::ReadClock, Reply::ReadClock(Duration::from_millis(150))),
            (to_group(Signal::SIGKILL), Reply::Send(Ok(()))),
        ],
    ));
    assert_eq!(status, 2);
}

#[test]
fn empty_group_ends_the_grace_period_once_the_leader_is_reaped() {
    let probe = Action::Probe { group: group() };
    let status = success(follow(
        ShutdownPolicy::GracefulProcessGroup {
            signal: Signal::SIGINT,
            grace_time: Duration::from_millis(150),
        },
        Target::ProcessGroup(group()),
        vec![
            (to_group(Signal::SIGINT), Reply::Send(Ok(()))),
            (Action::StartClock, Reply::StartClock),
            (Action::TryWait, Reply::TryWait(Ok(None))),
            (probe, Reply::Probe(Err(Errno::ESRCH))),
            (Action::ReadClock, Reply::ReadClock(Duration::ZERO)),
            (Action::Sleep { nanos: 100_000_000 }, Reply::Sleep),
            (Action::TryWait, Reply::TryWait(Ok(Some(0)))),
            (probe, Reply::Probe(Err(Errno::ESRCH))),
        ],
    ));
    assert_eq!(status, 0);
}

#[test]
fn failed_probe_ends_a_group_shutdown() {
    let error = failure(follow(
        graceful(150),
        Target::ProcessGroup(group()),
        vec![
            (to_child(Signal::SIGTERM), Reply::Send(Ok(()))),
            (Action::StartClock, Reply::StartClock),
            (Action::TryWait, Reply::TryWait(Ok(Some(0)))),
            (Action::Probe { group: group() }, Reply::Probe(Err(Errno::EPERM))),
        ],
    ));
    assert!(matches!(error, ShutdownError::Inspect { .. }));
    assert_eq!(error.source().raw_os_error(), Some(Errno::EPERM as i32));
}

#[test]
fn failed_group_kill_is_an_error_unless_the_group_is_gone() {
    let script = |probe: Result<(), Errno>| {
        vec![
            (to_group(Signal::SIGKILL), Reply::Send(Err(Errno::EPERM))),
            (Action::Probe { group: group() }, Reply::Probe(probe)),
        ]
    };
    let target = Target::ProcessGroup(group());
    for probe in vec![Ok(()), Err(Errno::EPERM), Err(Errno::EINVAL)] {
        let error = failure(follow(ShutdownPolicy::Kill, target, script(probe)));
        assert!(matches!(error, ShutdownError::Kill { .. }));
        assert_eq!(error.source().raw_os_error(), Some(Errno::EPERM as i32));
    }
    assert_eq!(
        pending(follow(ShutdownPolicy::Kill, target, script(Err(Errno::ESRCH)))),
        Action::Wait
    );
}

#[test]
fn stray_replies_are_ignored() {
    let shutdown = shutdown_child::<i32>(ID, graceful(100), Target::Child);
    for reply in vec![
        Reply::Wait(Ok(1)),
        Reply::Send(Ok(())),
        Reply::Probe(Ok(())),
        Reply::StartClock,
        Reply::ReadClock(Duration::ZERO),
        Reply::Sleep,
    ] {
        match shutdown_child::<i32>(ID, graceful(100), Target::Child).resume(reply) {
            Step::Perform(unchanged) => assert_eq!(unchanged.action(), shutdown.action()),
            other => panic!("{:?}", other),
        }
    }
}

#[test]
fn failed_shutdown_keeps_the_child() {
    let mut guard = ProcessGuard::new(Child { id: ID, handle: () }, None);
    for _ in 0..2 {
        let shutdown = match guard.shutdown::<i32>() {
            Step::Perform(shutdown) => shutdown,
            other => panic!("{:?}", other),
        };
        let step = guard.resume_shutdown(shutdown, Reply::TryWait(Err(os_error(10))));
        assert!(matches!(step, Step::Done(Err(ShutdownError::Inspect { .. }))));
        assert_eq!(guard.id(), Some(ID));
    }
}

#[test]
fn failed_waits_keep_the_child() {
    let mut guard = ProcessGuard::new(Child { id: ID, handle: () }, None);
    let waiting = match guard.try_wait::<i32>() {
        Step::Perform(waiting) => waiting,
        other => panic!("{:?}", other),
    };
    let step = guard.resume_try_wait::<i32>(waiting, Reply::TryWait(Err(os_error(10))));
    assert!(matches!(step, Step::Done(Err(_))));
    let waiting = match guard.wait::<i32>() {
        Step::Perform(waiting) => waiting,
        other => panic!("{:?}", other),
    };
    let step = guard.resume_wait::<i32>(waiting, Reply::Wait(Err(os_error(10))));
    assert!(matches!(step, Step::Done(Err(_))));
    assert_eq!(guard.id(), Some(ID));
}

#[test]
fn undelivered_signal_is_an_error_unless_the_child_has_exited() {
    let checks: Vec<Result<Option<i32>, io::Error>> =
        vec![Ok(None), Err(os_error(10)), Ok(Some(3))];
    for check in checks {
        let exited = matches!(check, Ok(Some(_)));
        let mut guard = ProcessGuard::new(Child { id: ID, handle: () }, None);
        let mut step = guard.signal::<i32>(Signal::SIGUSR1);
        let script = vec![
            (Action::TryWait, Reply::TryWait(Ok(None))),
            (to_child(Signal::SIGUSR1), Reply::Send(Err(Errno::EPERM))),
            (Action::TryWait, Reply::TryWait(Err(interrupted()))),
            (Action::TryWait, Reply::TryWait(check)),
        ];
        for (action, reply) in script {
            step = match step {
                Step::Perform(signaling) => {
                    assert_eq!(signaling.action(), action);
                    guard.resume_signal(signaling, reply)
                }
                other => panic!("{:?}", other),
            };
        }
        match step {
            Step::Done(Ok(Some(status))) => {
                assert!(exited);
                assert_eq!(status, 3);
                assert_eq!(guard.id(), None);
            }
            Step::Done(Err(error)) => {
                assert!(!exited);
                assert_eq!(error.raw_os_error(), Some(Errno::EPERM as i32));
                assert_eq!(guard.id(), Some(ID));
            }
            other => panic!("{:?}", other),
        }
    }
}

#[test]
fn failed_inspection_keeps_a_signal_from_being_sent() {
    let mut guard = ProcessGuard::new(Child { id: ID, handle: () }, None);
    let signaling = match guard.signal::<i32>(Signal::SIGUSR1) {
        Step::Perform(signaling) => signaling,
        other => panic!("{:?}", other),
    };
    let step = guard.resume_signal::<i32>(signaling, Reply::TryWait(Err(os_error(10))));
    match step {
        Step::Done(Err(error)) => assert_eq!(error.raw_os_error(), Some(10)),
        other => panic!("{:?}", other),
    }
    assert_eq!(guard.id(), Some(ID));
}

/// Sends `SIGUSR1` from a guard that owns a process group, against a script of replies.
fn signal_group(
    script: Vec<(Action, Reply<i32>)>,
) -> (Result<Option<i32>, io::Error>, Option<u32>) {
    let mut guard = ProcessGuard::<()>::spawn_process_group(ShutdownPolicy::Kill)
        .resume(Ok(Child { id: ID, handle: () }))
        .unwrap();
    let mut step = guard.signal::<i32>(Signal::SIGUSR1);
    for (action, reply) in script {
        step = match step {
            Step::Perform(signaling) => {
                assert_eq!(signaling.action(), action);
                guard.resume_signal(signaling, reply)
            }
            Step::Done(_) => panic!("the sending ended before {:?}", action),
        };
    }
    match step {
        Step::Done(result) => (result, guard.id()),
        Step::Perform(_) => panic!("the sending is still under way"),
    }
}

#[test]
fn group_is_signaled_though_its_leader_could_not_be_inspected() {
    let (result, id) = signal_group(vec![
        (Action::TryWait, Reply::TryWait(Err(os_error(10)))),
        (to_group(Signal::SIGUSR1), Reply::Send(Ok(()))),
    ]);
    assert!(matches!(result, Ok(None)));
    assert_eq!(id, Some(ID));
}

#[test]
fn status_of_the_leader_outweighs_an_undelivered_signal() {
    let (result, id) = signal_group(vec![
        (Action::TryWait, Reply::TryWait(Ok(Some(5)))),
        (to_group(Signal::SIGUSR1), Reply::Send(Err(Errno::ESRCH))),
    ]);
    assert!(matches!(result, Ok(Some(5))));
    assert_eq!(id, None);
}

#[test]
fn undelivered_group_signal_is_an_error_unless_the_leader_has_exited() {
    let script = |check: Result<Option<i32>, io::Error>| {
        vec![
            (Action::TryWait, Reply::TryWait(Ok(None))),
            (to_group(Signal::SIGUSR1), Reply::Send(Err(Errno::EPERM))),
            (Action::TryWait, Reply::TryWait(check)),
        ]
    };
    let (result, id) = signal_group(script(Ok(None)));
    assert_eq!(result.unwrap_err().raw_os_error(), Some(Errno::EPERM as i32));
    assert_eq!(id, Some(ID));
    let (result, id) = signal_group(script(Ok(Some(8))));
    assert!(matches!(result, Ok(Some(8))));
    assert_eq!(id, None);
}

#[test]
fn shrugged_off_failures_do_not_keep_a_shutdown_from_success() {
    let status = success(follow(
        graceful(100),
        Target::Child,
        vec![
            (Action::TryWait, Reply::TryWait(Ok(None))),
            (to_child(Signal::SIGTERM), Reply::Send(Err(Errno::EPERM))),
            (Action::TryWait, Reply::TryWait(Err(os_error(10)))),
            (to_child(Signal::SIGKILL), Reply::Send(Err(Errno::ESRCH))),
            (Action::TryWait, Reply::TryWait(Ok(Some(1)))),
        ],
    ));
    assert_eq!(status, 1);
    let status = success(follow(
        graceful(100),
        Target::ProcessGroup(group()),
        vec![
            (to_child(Signal::SIGTERM), Reply::Send(Err(Errno::EPERM))),
            (Action::StartClock, Reply::StartClock),
            (Action::TryWait, Reply::TryWait(Err(os_error(10)))),
            (to_group(Signal::SIGKILL), Reply::Send(Err(Errno::ESRCH))),
            (Action::Probe { group: group() }, Reply::Probe(Err(Errno::ESRCH))),
            (Action::Wait, Reply::Wait(Ok(2))),
        ],
    ));
    assert_eq!(status, 2);
}
