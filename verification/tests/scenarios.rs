//! Guards at work on a simulated operating system.

use nix::errno::Errno;
use nix::unistd::Pid;
use process_guard::shutdown::Shutdown;
use process_guard::wait::{Signaling, TryWaiting, Waiting};
use process_guard::{
    Action, Child, Destination, ProcessGuard, Reply, ShutdownError, ShutdownPolicy, Signal, Step,
};
use std::io;
use std::time::Duration;

const ID: u32 = 4242;

#[derive(Clone, Copy, Debug, PartialEq, Eq)]
struct Status(i32);

impl Status {
    fn success(self) -> bool {
        self == Status(0)
    }

    fn code(self) -> Option<i32> {
        if self.0 >= 0 {
            Some(self.0)
        } else {
            None
        }
    }
}

/// How a simulated process takes a signal other than `SIGKILL`.
#[derive(Clone, Copy)]
enum Habit {
    Ignores,
    Exits { signal: Signal, code: i32 },
}

/// A direct child, at most one descendant in its process group, and a clock.
struct World {
    now: u64,
    started: u64,
    habit: Habit,
    exits_at: Option<u64>,
    status: Option<Status>,
    reaped: bool,
    descendant: Option<Habit>,
    interruptions: u32,
    actions: Vec<Action>,
}

impl World {
    fn running(habit: Habit) -> World {
        World {
            now: 7,
            started: 0,
            habit,
            exits_at: None,
            status: None,
            reaped: false,
            descendant: None,
            interruptions: 0,
            actions: Vec::new(),
        }
    }

    fn completed(code: i32) -> World {
        let mut world = World::running(Habit::Ignores);
        world.status = Some(Status(code));
        world
    }

    fn killed_by(signal: Signal) -> Status {
        Status(-(signal as i32))
    }

    fn signal_child(&mut self, signal: Signal) {
        if self.status.is_some() {
            return;
        }
        match self.habit {
            _ if signal == Signal::SIGKILL => self.status = Some(World::killed_by(signal)),
            Habit::Exits { signal: awaited, code } if awaited == signal => {
                self.status = Some(Status(code))
            }
            _ => {}
        }
    }

    fn signal_descendant(&mut self, signal: Signal) {
        match self.descendant {
            Some(_) if signal == Signal::SIGKILL => self.descendant = None,
            Some(Habit::Exits { signal: awaited, .. }) if awaited == signal => {
                self.descendant = None
            }
            _ => {}
        }
    }

    fn group_is_empty(&self) -> bool {
        self.reaped && self.descendant.is_none()
    }

    fn poll(&mut self) -> Result<Option<Status>, io::Error> {
        if self.interruptions > 0 {
            self.interruptions -= 1;
            return Err(io::Error::from(io::ErrorKind::Interrupted));
        }
        if let Some(moment) = self.exits_at {
            if self.now >= moment && self.status.is_none() {
                self.status = Some(Status(0));
            }
        }
        if self.status.is_some() {
            self.reaped = true;
        }
        Ok(self.status)
    }

    fn perform(&mut self, action: Action) -> Reply<Status> {
        self.actions.push(action);
        match action {
            Action::TryWait => Reply::TryWait(self.poll()),
            Action::Wait => Reply::Wait(self.poll().map(|status| {
                status.expect("a wait is only asked for once the child cannot go on")
            })),
            Action::Send { destination: Destination::Process(pid), signal } => {
                assert_eq!(pid, Pid::from_raw(ID as i32));
                self.signal_child(signal);
                Reply::Send(Ok(()))
            }
            Action::Send { destination: Destination::Group(group), signal } => {
                assert_eq!(group, Pid::from_raw(ID as i32));
                if self.group_is_empty() {
                    return Reply::Send(Err(Errno::ESRCH));
                }
                self.signal_child(signal);
                self.signal_descendant(signal);
                Reply::Send(Ok(()))
            }
            Action::Probe { group } => {
                assert_eq!(group, Pid::from_raw(ID as i32));
                if self.group_is_empty() {
                    Reply::Probe(Err(Errno::ESRCH))
                } else {
                    Reply::Probe(Ok(()))
                }
            }
            Action::StartClock => {
                self.started = self.now;
                Reply::StartClock
            }
            Action::ReadClock => Reply::ReadClock(Duration::from_nanos(self.now - self.started)),
            Action::Sleep { nanos } => {
                self.now += nanos;
                Reply::Sleep
            }
        }
    }

    fn signals(&self) -> Vec<Action> {
        let mut signals = Vec::new();
        for action in &self.actions {
            if matches!(action, Action::Send { .. }) {
                signals.push(*action);
            }
        }
        signals
    }
}

type Guard = ProcessGuard<&'static str>;

fn child() -> Child<&'static str> {
    Child { id: ID, handle: "handle" }
}

fn shutdown(guard: &mut Guard, world: &mut World) -> Result<Option<Status>, ShutdownError> {
    let mut step: Step<Shutdown<Status>, _> = guard.shutdown();
    loop {
        step = match step {
            Step::Done(result) => return result,
            Step::Perform(shutdown) => {
                let reply = world.perform(shutdown.action());
                guard.resume_shutdown(shutdown, reply)
            }
        };
    }
}

fn signal(
    guard: &mut Guard,
    world: &mut World,
    signal: Signal,
) -> Result<Option<Status>, io::Error> {
    let mut step: Step<Signaling<Status>, _> = guard.signal(signal);
    loop {
        step = match step {
            Step::Done(result) => return result,
            Step::Perform(signaling) => {
                let reply = world.perform(signaling.action());
                guard.resume_signal(signaling, reply)
            }
        };
    }
}

fn try_wait(guard: &mut Guard, world: &mut World) -> Result<Option<Status>, io::Error> {
    let mut step: Step<TryWaiting, _> = guard.try_wait();
    loop {
        step = match step {
            Step::Done(result) => return result,
            Step::Perform(waiting) => {
                let reply = world.perform(waiting.action());
                guard.resume_try_wait(waiting, reply)
            }
        };
    }
}

fn wait(guard: &mut Guard, world: &mut World) -> Result<Option<Status>, io::Error> {
    let mut step: Step<Waiting, _> = guard.wait();
    loop {
        step = match step {
            Step::Done(result) => return result,
            Step::Perform(waiting) => {
                let reply = world.perform(waiting.action());
                guard.resume_wait(waiting, reply)
            }
        };
    }
}

fn to_child(signal: Signal) -> Action {
    Action::Send { destination: Destination::Process(Pid::from_raw(ID as i32)), signal }
}

fn to_group(signal: Signal) -> Action {
    Action::Send { destination: Destination::Group(Pid::from_raw(ID as i32)), signal }
}

#[test]
fn shutdown_reaps_a_completed_child() {
    let mut world = World::completed(0);
    let mut guard = Guard::new(child(), Some(Duration::from_secs(1)));
    let status = shutdown(&mut guard, &mut world)
        .unwrap()
        .expect("the guard still owns the completed child");

    assert!(status.success());
    assert!(shutdown(&mut guard, &mut world).unwrap().is_none());
    assert_eq!(world.actions, vec![Action::TryWait]);
}

#[test]
fn graceful_shutdown_accepts_a_custom_signal() {
    let mut world = World::running(Habit::Exits { signal: Signal::SIGINT, code: 42 });
    let mut guard = Guard::with_policy(
        child(),
        ShutdownPolicy::Graceful {
            signal: Signal::SIGINT,
            grace_time: Duration::from_secs(1),
        },
    );
    let status = shutdown(&mut guard, &mut world)
        .unwrap()
        .expect("the guard still owns the running child");

    assert_eq!(status.code(), Some(42));
    assert_eq!(world.signals(), vec![to_child(Signal::SIGINT)]);
}

#[test]
fn graceful_shutdown_handles_fast_exit_races() {
    for moment in 0..100 {
        let mut world = World::running(Habit::Ignores);
        world.exits_at = Some(moment % 10);
        let spawning = Guard::spawn_graceful(Duration::ZERO);
        assert_eq!(spawning.process_group(), None);
        let mut guard = spawning.resume(Ok(child())).unwrap();

        assert!(shutdown(&mut guard, &mut world).unwrap().is_some());
    }
}

#[test]
fn graceful_shutdown_honors_its_deadline() {
    let grace_time = Duration::from_millis(250);
    let scheduler_tolerance = Duration::from_millis(90);
    let mut world = World::running(Habit::Ignores);
    let mut guard = Guard::new(child(), Some(grace_time));
    let started = world.now;
    let status = shutdown(&mut guard, &mut world)
        .unwrap()
        .expect("the guard still owns the running child");
    let elapsed = Duration::from_nanos(world.now - started);

    assert!(!status.success());
    assert!(elapsed >= grace_time);
    assert!(elapsed < grace_time + scheduler_tolerance);
    assert_eq!(elapsed, grace_time);
    assert_eq!(world.signals(), vec![to_child(Signal::SIGTERM), to_child(Signal::SIGKILL)]);
    let mut pauses = Vec::new();
    for action in &world.actions {
        if let Action::Sleep { nanos } = action {
            pauses.push(*nanos);
        }
    }
    assert_eq!(pauses, vec![100_000_000, 100_000_000, 50_000_000]);
}

#[test]
fn process_group_uses_child_pid_as_group_id() {
    let spawning = Guard::spawn_process_group(ShutdownPolicy::Kill);
    assert_eq!(spawning.process_group(), Some(0));
    let mut guard = spawning.resume(Ok(child())).unwrap();
    let id = Pid::from_raw(guard.id().expect("the guard owns the child") as i32);
    let mut world = World::running(Habit::Ignores);
    let status = shutdown(&mut guard, &mut world)
        .unwrap()
        .expect("the guard still owns the running child");

    assert_eq!(
        world.actions,
        vec![
            Action::Send { destination: Destination::Group(id), signal: Signal::SIGKILL },
            Action::Wait,
        ]
    );
    assert!(!status.success());
}

#[test]
fn process_group_shutdown_reaches_descendants() {
    let mut world = World::running(Habit::Exits { signal: Signal::SIGTERM, code: 0 });
    world.descendant = Some(Habit::Exits { signal: Signal::SIGTERM, code: 0 });
    let mut guard = Guard::spawn_process_group(ShutdownPolicy::GracefulProcessGroup {
        signal: Signal::SIGTERM,
        grace_time: Duration::from_secs(1),
    })
    .resume(Ok(child()))
    .unwrap();

    let status = shutdown(&mut guard, &mut world)
        .unwrap()
        .expect("the guard still owns the running child");

    assert!(status.success());
    assert!(world.descendant.is_none());
    assert_eq!(world.signals(), vec![to_group(Signal::SIGTERM)]);
}

#[test]
fn process_group_shutdown_kills_descendants_after_leader_exit() {
    let mut world = World::completed(0);
    world.descendant = Some(Habit::Ignores);
    let mut guard = Guard::spawn_process_group(ShutdownPolicy::Graceful {
        signal: Signal::SIGTERM,
        grace_time: Duration::from_millis(50),
    })
    .resume(Ok(child()))
    .unwrap();

    let status = shutdown(&mut guard, &mut world)
        .unwrap()
        .expect("the guard still owns the completed group leader");

    assert!(status.success());
    assert!(world.descendant.is_none());
    assert_eq!(world.signals(), vec![to_child(Signal::SIGTERM), to_group(Signal::SIGKILL)]);
    let mut checks = 0;
    for action in &world.actions {
        if matches!(action, Action::TryWait | Action::Wait) {
            checks += 1;
        }
    }
    assert_eq!(checks, 1);
}

#[test]
fn signal_and_wait_reap_a_running_child() {
    let mut world = World::running(Habit::Ignores);
    let mut guard = Guard::spawn().resume(Ok(child())).unwrap();

    assert!(guard.id().is_some());
    assert!(try_wait(&mut guard, &mut world).unwrap().is_none());
    assert!(signal(&mut guard, &mut world, Signal::SIGKILL).unwrap().is_none());

    let status = wait(&mut guard, &mut world)
        .unwrap()
        .expect("the guard still owns the signaled child");
    assert!(!status.success());
    assert!(guard.id().is_none());
    assert!(wait(&mut guard, &mut world).unwrap().is_none());
}

#[test]
fn shutdown_kills_and_reaps_a_running_child() {
    let mut world = World::running(Habit::Ignores);
    let mut guard = Guard::spawn().resume(Ok(child())).unwrap();

    let status = shutdown(&mut guard, &mut world)
        .unwrap()
        .expect("the guard still owns the running child");

    assert!(!status.success());
    assert!(shutdown(&mut guard, &mut world).unwrap().is_none());
}

#[test]
fn group_policy_on_a_direct_guard_signals_the_child_alone() {
    let mut world = World::running(Habit::Ignores);
    world.descendant = Some(Habit::Exits { signal: Signal::SIGTERM, code: 0 });
    let mut guard = Guard::with_policy(
        child(),
        ShutdownPolicy::GracefulProcessGroup {
            signal: Signal::SIGTERM,
            grace_time: Duration::from_millis(10),
        },
    );

    assert!(shutdown(&mut guard, &mut world).unwrap().is_some());
    assert_eq!(world.signals(), vec![to_child(Signal::SIGTERM), to_child(Signal::SIGKILL)]);
    assert!(world.descendant.is_some());
}

#[test]
fn interrupted_waits_are_repeated() {
    let mut world = World::running(Habit::Ignores);
    world.interruptions = 3;
    let mut guard = Guard::new(child(), None);

    assert_eq!(shutdown(&mut guard, &mut world).unwrap(), Some(Status(-9)));
    assert_eq!(
        world.actions,
        vec![
            Action::TryWait,
            Action::TryWait,
            Action::TryWait,
            Action::TryWait,
            to_child(Signal::SIGKILL),
            Action::Wait,
        ]
    );
}

#[test]
fn taken_child_is_left_alone() {
    let mut world = World::running(Habit::Ignores);
    let mut guard = Guard::new(child(), Some(Duration::from_secs(1)));
    assert_eq!(guard.drop_id(), ID);
    let handle = guard.handle_mut().expect("the guard owns the child");
    assert_eq!(*handle, "handle");
    *handle = "other handle";
    let taken = guard.take().expect("the guard owned the child");

    assert_eq!(taken.id, ID);
    assert_eq!(taken.handle, "other handle");
    assert_eq!(guard.id(), None);
    assert_eq!(guard.drop_id(), 0);
    assert!(guard.handle_mut().is_none());
    assert!(guard.take().is_none());
    assert!(shutdown(&mut guard, &mut world).unwrap().is_none());
    assert!(signal(&mut guard, &mut world, Signal::SIGTERM).unwrap().is_none());
    assert!(try_wait(&mut guard, &mut world).unwrap().is_none());
    assert!(wait(&mut guard, &mut world).unwrap().is_none());
    assert!(world.actions.is_empty());
}

#[test]
fn signal_finds_a_completed_child() {
    let mut world = World::completed(3);
    let mut guard = Guard::new(child(), None);

    assert_eq!(signal(&mut guard, &mut world, Signal::SIGHUP).unwrap(), Some(Status(3)));
    assert!(world.signals().is_empty());
    assert!(guard.id().is_none());
}

#[test]
fn signal_to_a_group_reports_an_exited_leader() {
    let mut world = World::completed(3);
    world.descendant = Some(Habit::Exits { signal: Signal::SIGHUP, code: 0 });
    let mut guard = Guard::spawn_process_group(ShutdownPolicy::Kill)
        .resume(Ok(child()))
        .unwrap();

    assert_eq!(signal(&mut guard, &mut world, Signal::SIGHUP).unwrap(), Some(Status(3)));
    assert_eq!(world.actions, vec![Action::TryWait, to_group(Signal::SIGHUP)]);
    assert!(world.descendant.is_none());
    assert_eq!(guard.id(), None);
}

#[test]
fn signal_to_a_group_of_an_exited_leader_alone_reports_it() {
    let mut world = World::completed(3);
    let mut guard = Guard::spawn_process_group(ShutdownPolicy::Kill)
        .resume(Ok(child()))
        .unwrap();

    assert_eq!(signal(&mut guard, &mut world, Signal::SIGHUP).unwrap(), Some(Status(3)));
    assert_eq!(world.signals(), vec![to_group(Signal::SIGHUP)]);
    assert_eq!(guard.id(), None);
}

#[test]
fn signal_to_a_group_with_a_running_leader_is_delivered() {
    let mut world = World::running(Habit::Ignores);
    world.interruptions = 1;
    let mut guard = Guard::spawn_process_group(ShutdownPolicy::Kill)
        .resume(Ok(child()))
        .unwrap();

    assert_eq!(signal(&mut guard, &mut world, Signal::SIGHUP).unwrap(), None);
    assert_eq!(
        world.actions,
        vec![Action::TryWait, Action::TryWait, to_group(Signal::SIGHUP)]
    );
    assert_eq!(guard.id(), Some(ID));
}

#[test]
fn failed_spawn_is_reported() {
    let spawned: Result<Child<&'static str>, io::Error> =
        Err(io::Error::from(io::ErrorKind::NotFound));
    let policy = ShutdownPolicy::Graceful {
        signal: Signal::SIGQUIT,
        grace_time: Duration::from_secs(3),
    };
    let error = Guard::spawn_with_policy(policy).resume(spawned).unwrap_err();
    assert_eq!(error.kind(), io::ErrorKind::NotFound);
}

#[test]
fn spawned_and_created_guards_act_alike() {
    let grace_time = Duration::from_millis(120);
    let pairs = vec![
        (Guard::spawn().resume(Ok(child())).unwrap(), Guard::new(child(), None)),
        (
            Guard::spawn_graceful(grace_time).resume(Ok(child())).unwrap(),
            Guard::new(child(), Some(grace_time)),
        ),
    ];
    for (mut spawned, mut created) in pairs {
        assert_eq!(format!("{:?}", spawned), format!("{:?}", created));
        let mut first = World::running(Habit::Ignores);
        let mut second = World::running(Habit::Ignores);
        assert_eq!(
            shutdown(&mut spawned, &mut first).unwrap(),
            shutdown(&mut created, &mut second).unwrap()
        );
        assert_eq!(first.actions, second.actions);
    }
}

#[test]
fn exchange_with_the_system_is_bounded() {
    for millis in 0..40 {
        let grace_time = Duration::from_millis(millis * 13);
        let mut world = World::completed(0);
        world.descendant = Some(Habit::Ignores);
        let mut guard = Guard::spawn_process_group(ShutdownPolicy::GracefulProcessGroup {
            signal: Signal::SIGTERM,
            grace_time,
        })
        .resume(Ok(child()))
        .unwrap();
        let started = world.now;

        assert!(shutdown(&mut guard, &mut world).unwrap().is_some());
        assert_eq!(u128::from(world.now - started), grace_time.as_nanos());
        let bound = 12 + 4 * (grace_time.as_millis() / 100);
        assert!(world.actions.len() as u128 <= bound);
    }
}
