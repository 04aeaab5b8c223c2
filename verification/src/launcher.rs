//! The launcher: it owns the managed processes and decides which of them is
//! started or stopped next.

use crate::config::{fresh_tasks, port_check, Config};
use crate::error::{outcome_view, Error};
use crate::lifecycle::{
    lemma_created_wf, lemma_step_wf, unstopped, Action, Event, EventView, LauncherView, Phase,
};
use crate::signal::{is_raised, raised, watch_interrupt};
use crate::task::{attempt_view, Output, Task};
use std::sync::atomic::AtomicBool;
use std::sync::Arc;
use std::time::{Duration, Instant};
use vstd::prelude::*;

verus! {

/// The time to sleep between two looks at the liveness flag, in
/// milliseconds.
pub const POLL_INTERVAL_MILLIS: u64 = 50;

/// Starts the fleet in order, keeps it until an interrupt arrives, and stops
/// it in reverse order.
///
/// The launcher asks for one [`Action`] at a time. The caller carries it out
/// and reports the outcome with [`Launcher::step`], which answers with the
/// action that is due next.
#[derive(Debug)]
pub struct Launcher {
    tasks: Vec<Task>,
    phase: Phase,
    cursor: usize,
    failure: Option<(usize, String)>,
    watching: bool,
    fault: Option<String>,
    start_time: Instant,
    /// The liveness flag: set while the fleet is to be kept running.
    pub active: Arc<AtomicBool>,
}

impl View for Launcher {
    type V = LauncherView;

    closed spec fn view(&self) -> LauncherView {
        LauncherView {
            tasks: self.tasks.deep_view(),
            phase: self.phase,
            cursor: self.cursor as int,
            failure: match self.failure {
                Some((k, cause)) => Some((k as int, cause@)),
                None => None,
            },
            watching: self.watching,
            fault: match self.fault {
                Some(cause) => Some(cause@),
                None => None,
            },
        }
    }
}

impl Launcher {
    /// Whether the launcher is consistent. Every launcher that this library
    /// hands out is, and stays so.
    pub open spec fn wf(&self) -> bool {
        self@.wf()
    }

    /// A launcher for the fleet of `config`, whose processes send their
    /// output to `output`. The ports are checked first: a fleet in which a
    /// port number is declared twice gets no launcher and is left as it was.
    /// Otherwise the members move into the launcher, and nothing has been
    /// started.
    pub fn new(config: &mut Config, output: Output) -> (made: Result<Launcher, Error>)
        ensures
            match made {
                Ok(launcher) => {
                    &&& port_check(old(config)@) is Ok
                    &&& launcher@ == LauncherView::created(fresh_tasks(old(config)@, output@))
                    &&& launcher.wf()
                    &&& final(config)@.len() == 0
                },
                Err(e) => {
                    &&& port_check(old(config)@) == Err::<(), _>(e@)
                    &&& *final(config) == *old(config)
                },
            },
    {
        match config.ensure_unique_ports() {
            Ok(()) => {},
            Err(e) => {
                return Err(e);
            },
        }
        let tasks = config.generate_tasks(&output);
        proof {
            assert(LauncherView::created(tasks.deep_view()).fleet() =~= old(config)@);
            lemma_created_wf(tasks.deep_view());
        }
        Ok(
            Launcher {
                tasks,
                phase: Phase::Created,
                cursor: 0,
                failure: None,
                watching: false,
                fault: None,
                start_time: Instant::now(),
                active: raised(),
            },
        )
    }

    /// The time since the launch began, or, before that, since the launcher
    /// was made.
    pub fn uptime(&self) -> Duration {
        self.start_time.elapsed()
    }

    pub fn phase(&self) -> (phase: Phase)
        ensures
            phase == self@.phase,
    {
        self.phase
    }

    /// The managed processes, in start order.
    pub fn tasks(&self) -> (tasks: &Vec<Task>)
        ensures
            tasks.deep_view() == self@.tasks,
    {
        &self.tasks
    }

    /// The step that is due, if any.
    pub fn pending(&self) -> (action: Option<Action>)
        requires
            self.wf(),
        ensures
            action == self@.pending(),
    {
        match self.phase {
            Phase::Created => None,
            Phase::Starting => if self.failure.is_some() {
                Some(Action::Kill(self.cursor - 1))
            } else {
                Some(Action::Spawn(self.cursor))
            },
            Phase::Running => if self.fault.is_some() {
                Some(Action::Exit)
            } else if self.watching {
                Some(Action::Idle)
            } else {
                Some(Action::Watch)
            },
            Phase::ShuttingDown => Some(Action::Kill(self.cursor - 1)),
            Phase::Stopped => Some(Action::Exit),
        }
    }

    /// Begins the launch and answers with the first step. The uptime counts
    /// from here. Once the launch has begun, this changes nothing and
    /// answers with no step.
    pub fn start(&mut self) -> (action: Option<Action>)
        requires
            old(self).wf(),
        ensures
            (final(self)@, action) == old(self)@.start(),
            final(self).wf(),
    {
        match self.phase {
            Phase::Created => {
                self.start_time = Instant::now();
                self.phase = if self.tasks.len() == 0 {
                    Phase::Running
                } else {
                    Phase::Starting
                };
                self.pending()
            },
            _ => None,
        }
    }

    /// Takes in how the step that was due went and answers with the step
    /// that is due next. An event that does not answer the step that was due
    /// changes nothing and is answered with no step.
    pub fn step(&mut self, event: Event) -> (action: Option<Action>)
        requires
            old(self).wf(),
        ensures
            (final(self)@, action) == old(self)@.step(event@),
            final(self).wf(),
    {
        proof {
            lemma_step_wf(self@, event@);
        }
        match event {
            Event::Spawned(attempt) => {
                let launching = match self.phase {
                    Phase::Starting => self.failure.is_none(),
                    _ => false,
                };
                if !launching {
                    return None;
                }
                let i = self.cursor;
                let n = self.tasks.len();
                match attempt {
                    Ok(pid) => {
                        let _ = self.tasks[i].spawn(Ok(pid));
                        self.cursor = i + 1;
                        if self.cursor == n {
                            self.phase = Phase::Running;
                        }
                        assert(self@.tasks =~= old(self)@.tasks.update(
                            i as int,
                            old(self)@.tasks[i as int].spawned(Ok(pid)),
                        ));
                    },
                    Err(cause) => {
                        self.failure = Some((i, cause));
                        if i == 0 {
                            self.phase = Phase::Stopped;
                        }
                    },
                }
            },
            Event::Killed(attempt) => {
                let unwinding = match self.phase {
                    Phase::Starting => self.failure.is_some(),
                    Phase::ShuttingDown => true,
                    _ => false,
                };
                if !unwinding {
                    return None;
                }
                let i = self.cursor - 1;
                let ghost reported = attempt_view(attempt);
                let _ = self.tasks[i].kill(attempt);
                self.cursor = i;
                if i == 0 {
                    self.phase = Phase::Stopped;
                }
                assert(self@.tasks =~= old(self)@.tasks.update(
                    i as int,
                    old(self)@.tasks[i as int].killed(reported),
                ));
            },
            Event::Watching(attempt) => {
                let due = match self.phase {
                    Phase::Running => !self.watching && self.fault.is_none(),
                    _ => false,
                };
                if !due {
                    return None;
                }
                match attempt {
                    Ok(()) => {
                        self.watching = true;
                    },
                    Err(cause) => {
                        self.fault = Some(cause);
                    },
                }
            },
            Event::Woke(alive) => {
                let due = match self.phase {
                    Phase::Running => self.watching,
                    _ => false,
                };
                if !due {
                    return None;
                }
                if !alive {
                    self.phase = if self.tasks.len() == 0 {
                        Phase::Stopped
                    } else {
                        Phase::ShuttingDown
                    };
                }
            },
        }
        self.pending()
    }

    /// Begins teardown, as an interrupt does, and answers with the first
    /// step. Unless the fleet runs, this changes nothing and answers with no
    /// step.
    pub fn shutdown(&mut self) -> (action: Option<Action>)
        requires
            old(self).wf(),
        ensures
            (final(self)@, action) == old(self)@.shutdown(),
            final(self).wf(),
    {
        match self.phase {
            Phase::Running => {
                self.phase = if self.tasks.len() == 0 {
                    Phase::Stopped
                } else {
                    Phase::ShuttingDown
                };
                self.pending()
            },
            _ => None,
        }
    }

    /// Installs the interrupt handler, which clears the liveness flag, where
    /// that is the step that is due, and takes in how it went. Otherwise
    /// this changes nothing and answers with no step.
    pub fn watch(&mut self) -> (action: Option<Action>)
        requires
            old(self).wf(),
        ensures
            exists|attempt: Result<(), Seq<char>>|
                (final(self)@, action) == #[trigger] old(self)@.step(EventView::Watching(attempt)),
            old(self)@.pending() != Some(Action::Watch) ==> final(self)@ == old(self)@ && action
                is None,
            final(self).wf(),
    {
        let due = match self.phase {
            Phase::Running => !self.watching && self.fault.is_none(),
            _ => false,
        };
        if !due {
            assert((self@, None::<Action>) == old(self)@.step(EventView::Watching(Ok(()))));
            return None;
        }
        let attempt = watch_interrupt(&self.active);
        self.step(Event::Watching(attempt))
    }

    /// Looks at the liveness flag after a polling interval and takes in
    /// what it shows: while the flag is set the fleet keeps running, and
    /// once it is cleared teardown begins.
    pub fn poll(&mut self) -> (action: Option<Action>)
        requires
            old(self).wf(),
        ensures
            exists|alive: bool|
                (final(self)@, action) == #[trigger] old(self)@.step(EventView::Woke(alive)),
            final(self).wf(),
    {
        let alive = is_raised(&self.active);
        self.step(Event::Woke(alive))
    }

    /// The result of the launch as far as it has come; final once the step
    /// that is due is [`Action::Exit`].
    pub fn result(&self) -> (result: Result<(), Error>)
        requires
            self.wf(),
        ensures
            outcome_view(result) == self@.result(),
    {
        match &self.failure {
            Some((k, cause)) => {
                return Err(
                    Error::SpawnFailed {
                        member: self.tasks[*k].name().clone(),
                        cause: cause.clone(),
                    },
                );
            },
            None => {},
        }
        match &self.fault {
            Some(cause) => {
                return Err(Error::Signal(cause.clone()));
            },
            None => {},
        }
        let ghost all = self@.tasks;
        let mut members: Vec<String> = Vec::new();
        let mut i: usize = self.tasks.len();
        assert(all.take(i as int) =~= all);
        while i > 0
            invariant
                i <= self.tasks@.len(),
                all == self@.tasks,
                unstopped(all) =~= members.deep_view() + unstopped(all.take(i as int)),
            decreases i,
        {
            assert(all.take(i as int).drop_last() =~= all.take(i - 1));
            i -= 1;
            match self.tasks[i].outcome() {
                Some(Err(_)) => {
                    members.push(self.tasks[i].name().clone());
                },
                _ => {},
            }
        }
        if members.len() == 0 {
            Ok(())
        } else {
            Err(Error::KillFailed { members })
        }
    }
}

} // verus!
