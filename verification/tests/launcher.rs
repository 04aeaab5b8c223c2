use pendulum_launch::config::{Config, NodeSpec, Port, PortPurpose};
use pendulum_launch::error::{exit_code, Error};
use pendulum_launch::launcher::{Launcher, POLL_INTERVAL_MILLIS};
use pendulum_launch::lifecycle::{Action, Event, Phase};
use std::sync::atomic::Ordering;
use pendulum_launch::task::{Output, State};

fn node(name: &str, port: u16) -> NodeSpec {
    NodeSpec {
        name: name.to_string(),
        bin: format!("/opt/bin/{}", name),
        args: vec![],
        cwd: None,
        ports: vec![Port { purpose: PortPurpose::P2p, number: port }],
    }
}

fn fleet(names: &[&str]) -> Config {
    Config {
        members: names.iter().enumerate().map(|(i, name)| node(name, 30001 + i as u16)).collect(),
    }
}

/// Stands in for the operating system: it starts and stops nothing, fails
/// where it is told to, and keeps a record of what it was asked.
struct Backend {
    bad_binaries: Vec<&'static str>,
    unkillable: Vec<&'static str>,
    handler: Result<(), String>,
    polls_before_interrupt: usize,
    calls: Vec<String>,
}

impl Backend {
    fn new() -> Backend {
        Backend {
            bad_binaries: vec![],
            unkillable: vec![],
            handler: Ok(()),
            polls_before_interrupt: 2,
            calls: vec![],
        }
    }

    fn perform(&mut self, launcher: &Launcher, action: Action) -> Event {
        match action {
            Action::Spawn(i) => {
                let name = launcher.tasks()[i].name().clone();
                self.calls.push(format!("spawn {}", name));
                if self.bad_binaries.contains(&name.as_str()) {
                    Event::Spawned(Err("No such file or directory".to_string()))
                } else {
                    Event::Spawned(Ok(1000 + i as u32))
                }
            }
            Action::Kill(i) => {
                let name = launcher.tasks()[i].name().clone();
                self.calls.push(format!("kill {}", name));
                if self.unkillable.contains(&name.as_str()) {
                    Event::Killed(Err("Operation not permitted".to_string()))
                } else {
                    Event::Killed(Ok(()))
                }
            }
            Action::Watch => {
                self.calls.push("watch".to_string());
                Event::Watching(self.handler.clone())
            }
            Action::Idle => {
                self.calls.push("idle".to_string());
                if self.polls_before_interrupt == 0 {
                    Event::Woke(false)
                } else {
                    self.polls_before_interrupt -= 1;
                    Event::Woke(true)
                }
            }
            Action::Exit => unreachable!(),
        }
    }

    fn run(&mut self, launcher: &mut Launcher) -> Result<(), Error> {
        let mut action = launcher.start().expect("a new launcher starts");
        while action != Action::Exit {
            let event = self.perform(launcher, action);
            action = launcher.step(event).expect("the event answers the action");
        }
        launcher.result()
    }
}

fn states(launcher: &Launcher) -> Vec<State> {
    launcher.tasks().iter().map(|task| task.state()).collect()
}

#[test]
fn happy_path() {
    let mut config = Config { members: vec![node("relay-a", 30001), node("collator-a", 30002)] };
    let mut launcher = Launcher::new(&mut config, Output::Inherit).unwrap();
    assert_eq!(launcher.phase(), Phase::Created);
    assert_eq!(states(&launcher), vec![State::NotStarted, State::NotStarted]);

    assert_eq!(launcher.start(), Some(Action::Spawn(0)));
    assert_eq!(launcher.phase(), Phase::Starting);
    assert_eq!(launcher.step(Event::Spawned(Ok(11))), Some(Action::Spawn(1)));
    assert_eq!(states(&launcher), vec![State::Running, State::NotStarted]);
    assert_eq!(launcher.step(Event::Spawned(Ok(12))), Some(Action::Watch));
    assert_eq!(launcher.phase(), Phase::Running);
    assert_eq!(states(&launcher), vec![State::Running, State::Running]);
    assert_eq!(launcher.tasks()[0].handle(), Some(11));
    assert_eq!(launcher.tasks()[1].handle(), Some(12));

    assert_eq!(launcher.step(Event::Watching(Ok(()))), Some(Action::Idle));
    let earlier = launcher.uptime();
    assert_eq!(launcher.step(Event::Woke(true)), Some(Action::Idle));
    let later = launcher.uptime();
    assert!(later >= earlier);
    assert_eq!(launcher.phase(), Phase::Running);

    // The interrupt is delivered: the flag is found cleared.
    assert_eq!(launcher.step(Event::Woke(false)), Some(Action::Kill(1)));
    assert_eq!(launcher.phase(), Phase::ShuttingDown);
    assert_eq!(launcher.step(Event::Killed(Ok(()))), Some(Action::Kill(0)));
    assert_eq!(states(&launcher), vec![State::Running, State::Stopped]);
    assert_eq!(launcher.step(Event::Killed(Ok(()))), Some(Action::Exit));
    assert_eq!(launcher.phase(), Phase::Stopped);
    assert_eq!(states(&launcher), vec![State::Stopped, State::Stopped]);
    assert_eq!(launcher.result(), Ok(()));
    assert_eq!(exit_code(&launcher.result()), 0);
}

#[test]
fn happy_path_call_order() {
    let mut config = Config { members: vec![node("relay-a", 30001), node("collator-a", 30002)] };
    let mut launcher = Launcher::new(&mut config, Output::Discard).unwrap();
    let mut backend = Backend::new();
    assert_eq!(backend.run(&mut launcher), Ok(()));
    assert_eq!(
        backend.calls,
        vec![
            "spawn relay-a",
            "spawn collator-a",
            "watch",
            "idle",
            "idle",
            "idle",
            "kill collator-a",
            "kill relay-a"
        ]
    );
    assert_eq!(states(&launcher), vec![State::Stopped, State::Stopped]);
}

#[test]
fn port_collision() {
    let mut config = Config { members: vec![node("relay-a", 30001), node("relay-b", 30001)] };
    let before = Config { members: vec![node("relay-a", 30001), node("relay-b", 30001)] };
    let made = Launcher::new(&mut config, Output::Inherit);
    assert_eq!(
        made.err(),
        Some(Error::DuplicatePort {
            first: "relay-a".to_string(),
            second: "relay-b".to_string(),
            port: 30001
        })
    );
    // No managed process was made: the members are still in the descriptor.
    assert_eq!(config, before);
}

#[test]
fn mid_launch_spawn_failure() {
    let mut config = fleet(&["relay-a", "relay-b", "collator-a"]);
    let mut launcher = Launcher::new(&mut config, Output::Inherit).unwrap();
    let mut backend = Backend::new();
    backend.bad_binaries = vec!["relay-b"];
    let result = backend.run(&mut launcher);
    assert_eq!(
        result,
        Err(Error::SpawnFailed {
            member: "relay-b".to_string(),
            cause: "No such file or directory".to_string()
        })
    );
    assert_eq!(backend.calls, vec!["spawn relay-a", "spawn relay-b", "kill relay-a"]);
    assert_eq!(states(&launcher), vec![State::Stopped, State::NotStarted, State::NotStarted]);
    assert_eq!(launcher.phase(), Phase::Stopped);
    assert_eq!(launcher.tasks()[2].handle(), None);
    assert_eq!(exit_code(&result), 1);
}

#[test]
fn failed_launch_is_undone_in_reverse_order() {
    let mut config = fleet(&["a", "b", "c", "d"]);
    let mut launcher = Launcher::new(&mut config, Output::Inherit).unwrap();
    let mut backend = Backend::new();
    backend.bad_binaries = vec!["d"];
    assert!(backend.run(&mut launcher).is_err());
    assert_eq!(
        backend.calls,
        vec!["spawn a", "spawn b", "spawn c", "spawn d", "kill c", "kill b", "kill a"]
    );
    assert_eq!(
        states(&launcher),
        vec![State::Stopped, State::Stopped, State::Stopped, State::NotStarted]
    );
}

#[test]
fn failed_launch_phase_stays_starting_until_undone() {
    let mut config = fleet(&["a", "b", "c"]);
    let mut launcher = Launcher::new(&mut config, Output::Inherit).unwrap();
    assert_eq!(launcher.start(), Some(Action::Spawn(0)));
    assert_eq!(launcher.step(Event::Spawned(Ok(1))), Some(Action::Spawn(1)));
    assert_eq!(launcher.step(Event::Spawned(Ok(2))), Some(Action::Spawn(2)));
    assert_eq!(launcher.step(Event::Spawned(Err("denied".to_string()))), Some(Action::Kill(1)));
    assert_eq!(launcher.phase(), Phase::Starting);
    assert_eq!(launcher.step(Event::Killed(Ok(()))), Some(Action::Kill(0)));
    assert_eq!(launcher.phase(), Phase::Starting);
    assert_eq!(launcher.step(Event::Killed(Ok(()))), Some(Action::Exit));
    assert_eq!(launcher.phase(), Phase::Stopped);
}

#[test]
fn first_member_failing_stops_at_once() {
    let mut config = fleet(&["a", "b"]);
    let mut launcher = Launcher::new(&mut config, Output::Inherit).unwrap();
    assert_eq!(launcher.start(), Some(Action::Spawn(0)));
    assert_eq!(launcher.step(Event::Spawned(Err("missing".to_string()))), Some(Action::Exit));
    assert_eq!(launcher.phase(), Phase::Stopped);
    assert_eq!(states(&launcher), vec![State::NotStarted, State::NotStarted]);
    assert_eq!(
        launcher.result(),
        Err(Error::SpawnFailed { member: "a".to_string(), cause: "missing".to_string() })
    );
}

#[test]
fn rollback_kill_failure_does_not_hide_the_spawn_error() {
    let mut config = fleet(&["a", "b", "c"]);
    let mut launcher = Launcher::new(&mut config, Output::Inherit).unwrap();
    let mut backend = Backend::new();
    backend.bad_binaries = vec!["c"];
    backend.unkillable = vec!["b"];
    assert_eq!(
        backend.run(&mut launcher),
        Err(Error::SpawnFailed {
            member: "c".to_string(),
            cause: "No such file or directory".to_string()
        })
    );
    assert_eq!(backend.calls, vec!["spawn a", "spawn b", "spawn c", "kill b", "kill a"]);
    assert_eq!(states(&launcher), vec![State::Stopped, State::Stopped, State::NotStarted]);
    assert_eq!(
        launcher.tasks()[1].outcome(),
        &Some(Err("Operation not permitted".to_string()))
    );
}

#[test]
fn shutdown_goes_on_past_kill_failures() {
    let mut config = fleet(&["a", "b", "c"]);
    let mut launcher = Launcher::new(&mut config, Output::Inherit).unwrap();
    let mut backend = Backend::new();
    backend.unkillable = vec!["c", "a"];
    backend.polls_before_interrupt = 0;
    let result = backend.run(&mut launcher);
    assert_eq!(
        result,
        Err(Error::KillFailed { members: vec!["c".to_string(), "a".to_string()] })
    );
    assert_eq!(
        backend.calls,
        vec!["spawn a", "spawn b", "spawn c", "watch", "idle", "kill c", "kill b", "kill a"]
    );
    assert_eq!(states(&launcher), vec![State::Stopped, State::Stopped, State::Stopped]);
    assert_eq!(launcher.phase(), Phase::Stopped);
    // Teardown has completed; the failures are warnings.
    assert_eq!(exit_code(&result), 0);
}

#[test]
fn all_kills_failing_still_stops_everything() {
    let mut config = fleet(&["a", "b"]);
    let mut launcher = Launcher::new(&mut config, Output::Inherit).unwrap();
    let mut backend = Backend::new();
    backend.unkillable = vec!["a", "b"];
    assert_eq!(
        backend.run(&mut launcher),
        Err(Error::KillFailed { members: vec!["b".to_string(), "a".to_string()] })
    );
    assert_eq!(states(&launcher), vec![State::Stopped, State::Stopped]);
}

#[test]
fn shutdown_request_begins_teardown() {
    let mut config = fleet(&["a", "b"]);
    let mut launcher = Launcher::new(&mut config, Output::Inherit).unwrap();
    launcher.start();
    launcher.step(Event::Spawned(Ok(1)));
    assert_eq!(launcher.shutdown(), None);
    assert_eq!(launcher.phase(), Phase::Starting);
    launcher.step(Event::Spawned(Ok(2)));
    assert_eq!(launcher.shutdown(), Some(Action::Kill(1)));
    assert_eq!(launcher.phase(), Phase::ShuttingDown);
    assert_eq!(launcher.shutdown(), None);
    assert_eq!(launcher.step(Event::Killed(Ok(()))), Some(Action::Kill(0)));
    assert_eq!(launcher.step(Event::Killed(Ok(()))), Some(Action::Exit));
    assert_eq!(launcher.shutdown(), None);
    assert_eq!(launcher.result(), Ok(()));
}

#[test]
fn start_counts_only_once() {
    let mut config = fleet(&["a"]);
    let mut launcher = Launcher::new(&mut config, Output::Inherit).unwrap();
    assert_eq!(launcher.pending(), None);
    assert_eq!(launcher.start(), Some(Action::Spawn(0)));
    assert_eq!(launcher.start(), None);
    assert_eq!(launcher.pending(), Some(Action::Spawn(0)));
    assert_eq!(launcher.phase(), Phase::Starting);
}

#[test]
fn events_out_of_turn_change_nothing() {
    let mut config = fleet(&["a", "b"]);
    let mut launcher = Launcher::new(&mut config, Output::Inherit).unwrap();
    // Before the launch has begun nothing is due.
    assert_eq!(launcher.step(Event::Spawned(Ok(1))), None);
    assert_eq!(launcher.step(Event::Killed(Ok(()))), None);
    assert_eq!(launcher.phase(), Phase::Created);
    assert_eq!(states(&launcher), vec![State::NotStarted, State::NotStarted]);

    launcher.start();
    assert_eq!(launcher.step(Event::Killed(Ok(()))), None);
    assert_eq!(launcher.step(Event::Watching(Ok(()))), None);
    assert_eq!(launcher.step(Event::Woke(false)), None);
    assert_eq!(launcher.pending(), Some(Action::Spawn(0)));

    launcher.step(Event::Spawned(Ok(1)));
    launcher.step(Event::Spawned(Ok(2)));
    assert_eq!(launcher.step(Event::Spawned(Ok(3))), None);
    assert_eq!(launcher.step(Event::Woke(false)), None);
    assert_eq!(launcher.pending(), Some(Action::Watch));
    assert_eq!(states(&launcher), vec![State::Running, State::Running]);

    launcher.step(Event::Watching(Ok(())));
    assert_eq!(launcher.step(Event::Watching(Ok(()))), None);
    launcher.step(Event::Woke(false));
    launcher.step(Event::Killed(Ok(())));
    launcher.step(Event::Killed(Ok(())));
    assert_eq!(launcher.step(Event::Killed(Ok(()))), None);
    assert_eq!(launcher.step(Event::Spawned(Ok(9))), None);
    assert_eq!(launcher.pending(), Some(Action::Exit));
    assert_eq!(states(&launcher), vec![State::Stopped, State::Stopped]);
}

#[test]
fn empty_fleet_runs_and_stops() {
    let mut config = Config { members: vec![] };
    let mut launcher = Launcher::new(&mut config, Output::Inherit).unwrap();
    assert_eq!(launcher.start(), Some(Action::Watch));
    assert_eq!(launcher.phase(), Phase::Running);
    assert_eq!(launcher.step(Event::Watching(Ok(()))), Some(Action::Idle));
    assert_eq!(launcher.step(Event::Woke(false)), Some(Action::Exit));
    assert_eq!(launcher.phase(), Phase::Stopped);
    assert_eq!(launcher.result(), Ok(()));
}

#[test]
fn handler_failure_ends_the_run_with_its_cause() {
    let mut config = fleet(&["a"]);
    let mut launcher = Launcher::new(&mut config, Output::Inherit).unwrap();
    let mut backend = Backend::new();
    backend.handler = Err("Ctrl-C error: Unexpected system error".to_string());
    let result = backend.run(&mut launcher);
    assert_eq!(result, Err(Error::Signal("Ctrl-C error: Unexpected system error".to_string())));
    assert_eq!(backend.calls, vec!["spawn a", "watch"]);
    assert_eq!(launcher.phase(), Phase::Running);
    assert_eq!(exit_code(&result), 1);
    // The fleet can still be stopped on request.
    assert_eq!(launcher.shutdown(), Some(Action::Kill(0)));
    assert_eq!(launcher.step(Event::Killed(Ok(()))), Some(Action::Exit));
    assert_eq!(states(&launcher), vec![State::Stopped]);
}

#[test]
fn launcher_takes_the_members_out_of_the_descriptor() {
    let mut config = fleet(&["a", "b"]);
    let launcher = Launcher::new(&mut config, Output::Log("logs".to_string())).unwrap();
    assert!(config.members.is_empty());
    assert_eq!(launcher.tasks().len(), 2);
    assert_eq!(launcher.tasks()[0].spec(), &node("a", 30001));
    assert_eq!(launcher.tasks()[1].spec(), &node("b", 30002));
    assert_eq!(
        launcher.tasks()[1].log_file(),
        Some((&"logs".to_string(), &"b".to_string()))
    );
}

#[test]
fn liveness_flag_starts_raised() {
    let mut config = fleet(&["a"]);
    let launcher = Launcher::new(&mut config, Output::Inherit).unwrap();
    assert!(launcher.active.load(Ordering::Relaxed));
    launcher.active.store(false, Ordering::Relaxed);
    assert!(!launcher.active.load(Ordering::Relaxed));
}

#[test]
fn watch_and_poll_drive_the_run() {
    let mut config = fleet(&["a"]);
    let mut launcher = Launcher::new(&mut config, Output::Inherit).unwrap();
    // Out of turn, neither does anything.
    assert_eq!(launcher.watch(), None);
    assert_eq!(launcher.poll(), None);
    launcher.start();
    launcher.step(Event::Spawned(Ok(1)));
    assert_eq!(launcher.pending(), Some(Action::Watch));
    // This is the only handler that this process installs, so it goes in.
    assert_eq!(launcher.watch(), Some(Action::Idle));
    assert_eq!(launcher.watch(), None);
    assert_eq!(launcher.poll(), Some(Action::Idle));
    assert_eq!(launcher.poll(), Some(Action::Idle));
    assert_eq!(launcher.phase(), Phase::Running);
    // What the handler does on an interrupt.
    launcher.active.store(false, Ordering::Relaxed);
    assert_eq!(launcher.poll(), Some(Action::Kill(0)));
    assert_eq!(launcher.phase(), Phase::ShuttingDown);
    assert_eq!(launcher.step(Event::Killed(Ok(()))), Some(Action::Exit));
    assert_eq!(launcher.result(), Ok(()));
}

#[test]
fn uptime_does_not_go_backwards() {
    let mut config = fleet(&["a"]);
    let mut launcher = Launcher::new(&mut config, Output::Inherit).unwrap();
    launcher.start();
    let first = launcher.uptime();
    let second = launcher.uptime();
    let third = launcher.uptime();
    assert!(first <= second);
    assert!(second <= third);
}

#[test]
fn polling_interval_is_fifty_milliseconds() {
    assert_eq!(POLL_INTERVAL_MILLIS, 50);
}
