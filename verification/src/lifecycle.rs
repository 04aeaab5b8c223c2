//! The life of a fleet as a state machine: which step is due in each state,
//! and where each outcome of a step leads.
//!
//! The launcher never touches a process itself. It asks for one [`Action`] at
//! a time and is told, as an [`Event`], how that action went. This module is
//! the mathematical description of that dialogue, and what is proved of it.

use crate::config::{lemma_checked_members_disjoint, ports_unique, NodeSpecView};
use crate::error::ErrorView;
use crate::task::{attempt_view, State, TaskView};
use vstd::prelude::*;

verus! {

/// How far the launch of the fleet has come.
#[derive(Debug, Clone, Copy, PartialEq, Eq, Structural)]
pub enum Phase {
    /// Nothing has been started.
    Created,
    /// Members are being started, or, after a failed start, those already
    /// started are being stopped again.
    Starting,
    /// Every member runs.
    Running,
    /// The members are being stopped.
    ShuttingDown,
    /// No member runs any more. Final.
    Stopped,
}

/// The step that the launcher asks for.
#[derive(Debug, Clone, Copy, PartialEq, Eq, Structural)]
pub enum Action {
    /// Start the process of this member.
    Spawn(usize),
    /// Terminate the process of this member.
    Kill(usize),
    /// Install the interrupt handler.
    Watch,
    /// Sleep for a polling interval, then look at the liveness flag.
    Idle,
    /// Nothing is left to do: report the result and leave.
    Exit,
}

/// How the step that was asked for went.
#[derive(Debug, PartialEq, Eq)]
pub enum Event {
    /// The process was started and has this identifier, or starting it
    /// failed with this cause.
    Spawned(Result<u32, String>),
    /// The process was terminated, or terminating it failed with this cause.
    Killed(Result<(), String>),
    /// The interrupt handler is installed, or installing it failed with this
    /// cause.
    Watching(Result<(), String>),
    /// A polling interval has passed, and this is the liveness flag.
    Woke(bool),
}

/// An [`Event`] as a mathematical value.
pub ghost enum EventView {
    Spawned(Result<u32, Seq<char>>),
    Killed(Result<(), Seq<char>>),
    Watching(Result<(), Seq<char>>),
    Woke(bool),
}

impl View for Event {
    type V = EventView;

    open spec fn view(&self) -> EventView {
        match *self {
            Event::Spawned(attempt) => EventView::Spawned(attempt_view(attempt)),
            Event::Killed(attempt) => EventView::Killed(attempt_view(attempt)),
            Event::Watching(attempt) => EventView::Watching(attempt_view(attempt)),
            Event::Woke(alive) => EventView::Woke(alive),
        }
    }
}

/// The names of the tasks that could not be stopped cleanly, in the order
/// in which the fleet is stopped: the member started last comes first.
pub open spec fn unstopped(tasks: Seq<TaskView>) -> Seq<Seq<char>>
    decreases tasks.len(),
{
    if tasks.len() == 0 {
        Seq::empty()
    } else {
        let rest = unstopped(tasks.drop_last());
        if tasks.last().stuck() {
            seq![tasks.last().spec.name] + rest
        } else {
            rest
        }
    }
}

/// A launcher as a mathematical value.
pub ghost struct LauncherView {
    /// The managed processes, in start order.
    pub tasks: Seq<TaskView>,
    pub phase: Phase,
    /// How many members, counted from the first, run at this moment. While
    /// the fleet is started this is the member to start next; while it is
    /// stopped, the member before it is the one to stop next.
    pub cursor: int,
    /// The member whose start failed, and the cause.
    pub failure: Option<(int, Seq<char>)>,
    /// Whether the interrupt handler is installed.
    pub watching: bool,
    /// Why the interrupt handler could not be installed.
    pub fault: Option<Seq<char>>,
}

impl LauncherView {
    /// The launcher of a fleet of which nothing has been started.
    pub open spec fn created(tasks: Seq<TaskView>) -> LauncherView {
        LauncherView {
            tasks,
            phase: Phase::Created,
            cursor: 0,
            failure: None,
            watching: false,
            fault: None,
        }
    }

    /// The fleet that the launcher was made for.
    pub open spec fn fleet(self) -> Seq<NodeSpecView> {
        Seq::new(self.tasks.len(), |i: int| self.tasks[i].spec)
    }

    /// What holds of every launcher that this library hands out: no port
    /// number is declared twice in its fleet; the members before the cursor
    /// run and no others; a failed start is being undone or has been; and
    /// the phase says how far things are.
    pub open spec fn wf(self) -> bool {
        let n = self.tasks.len();
        &&& ports_unique(self.fleet())
        &&& 0 <= self.cursor <= n
        &&& forall|i: int| 0 <= i < n ==> (#[trigger] self.tasks[i]).wf()
        &&& forall|i: int| 0 <= i < self.cursor ==> (#[trigger] self.tasks[i]).state == State::Running
        &&& match self.failure {
            Some((k, _)) => {
                &&& self.cursor <= k < n
                &&& self.phase == Phase::Starting || self.phase == Phase::Stopped
                &&& forall|i: int|
                    self.cursor <= i < k ==> (#[trigger] self.tasks[i]).state == State::Stopped
                &&& forall|i: int|
                    k <= i < n ==> (#[trigger] self.tasks[i]).state == State::NotStarted
            },
            None => match self.phase {
                Phase::Created | Phase::Starting => forall|i: int|
                    self.cursor <= i < n ==> (#[trigger] self.tasks[i]).state == State::NotStarted,
                Phase::Running => true,
                Phase::ShuttingDown | Phase::Stopped => forall|i: int|
                    self.cursor <= i < n ==> (#[trigger] self.tasks[i]).state == State::Stopped,
            },
        }
        &&& match self.phase {
            Phase::Created => self.cursor == 0,
            Phase::Starting => if self.failure is Some {
                self.cursor > 0
            } else {
                self.cursor < n
            },
            Phase::Running => self.cursor == n,
            Phase::ShuttingDown => self.cursor > 0,
            Phase::Stopped => self.cursor == 0,
        }
        &&& self.watching || self.fault is Some ==> self.failure is None && (self.phase
            == Phase::Running || self.phase == Phase::ShuttingDown || self.phase == Phase::Stopped)
        &&& !(self.watching && self.fault is Some)
    }

    /// The step that is due, if any: before the launch has begun none is.
    pub open spec fn pending(self) -> Option<Action> {
        match self.phase {
            Phase::Created => None,
            Phase::Starting => if self.failure is Some {
                Some(Action::Kill((self.cursor - 1) as usize))
            } else {
                Some(Action::Spawn(self.cursor as usize))
            },
            Phase::Running => if self.fault is Some {
                Some(Action::Exit)
            } else if self.watching {
                Some(Action::Idle)
            } else {
                Some(Action::Watch)
            },
            Phase::ShuttingDown => Some(Action::Kill((self.cursor - 1) as usize)),
            Phase::Stopped => Some(Action::Exit),
        }
    }

    /// Whether `event` answers the step that is due.
    pub open spec fn expects(self, event: EventView) -> bool {
        match event {
            EventView::Spawned(_) => self.phase == Phase::Starting && self.failure is None,
            EventView::Killed(_) => (self.phase == Phase::Starting && self.failure is Some)
                || self.phase == Phase::ShuttingDown,
            EventView::Watching(_) => self.phase == Phase::Running && !self.watching
                && self.fault is None,
            EventView::Woke(_) => self.phase == Phase::Running && self.watching,
        }
    }

    /// The launcher once the launch has begun. A fleet without members runs
    /// at once.
    pub open spec fn started(self) -> LauncherView {
        LauncherView {
            phase: if self.tasks.len() == 0 {
                Phase::Running
            } else {
                Phase::Starting
            },
            ..self
        }
    }

    /// The launcher once teardown has begun. A fleet without members is
    /// stopped at once.
    pub open spec fn stopping(self) -> LauncherView {
        LauncherView {
            phase: if self.tasks.len() == 0 {
                Phase::Stopped
            } else {
                Phase::ShuttingDown
            },
            ..self
        }
    }

    /// The launcher after the member at the cursor was started, or could not
    /// be. After the last member the fleet runs. A failure is kept; the
    /// members started so far are then stopped again, the last one first,
    /// and where there are none the launcher is stopped at once.
    pub open spec fn after_spawn(self, attempt: Result<u32, Seq<char>>) -> LauncherView {
        match attempt {
            Ok(_) => LauncherView {
                tasks: self.tasks.update(self.cursor, self.tasks[self.cursor].spawned(attempt)),
                cursor: self.cursor + 1,
                phase: if self.cursor + 1 == self.tasks.len() {
                    Phase::Running
                } else {
                    Phase::Starting
                },
                ..self
            },
            Err(cause) => LauncherView {
                failure: Some((self.cursor, cause)),
                phase: if self.cursor == 0 {
                    Phase::Stopped
                } else {
                    Phase::Starting
                },
                ..self
            },
        }
    }

    /// The launcher after the member before the cursor was asked to stop.
    /// The member counts as stopped however that went, and after the first
    /// member the launcher is stopped.
    pub open spec fn after_kill(self, attempt: Result<(), Seq<char>>) -> LauncherView {
        LauncherView {
            tasks: self.tasks.update(self.cursor - 1, self.tasks[self.cursor - 1].killed(attempt)),
            cursor: self.cursor - 1,
            phase: if self.cursor - 1 == 0 {
                Phase::Stopped
            } else {
                self.phase
            },
            ..self
        }
    }

    /// The launcher after an event that answers the step that was due.
    pub open spec fn next(self, event: EventView) -> LauncherView {
        match event {
            EventView::Spawned(attempt) => self.after_spawn(attempt),
            EventView::Killed(attempt) => self.after_kill(attempt),
            EventView::Watching(Ok(())) => LauncherView { watching: true, ..self },
            EventView::Watching(Err(cause)) => LauncherView { fault: Some(cause), ..self },
            EventView::Woke(alive) => if alive {
                self
            } else {
                self.stopping()
            },
        }
    }

    /// What an event does: one that answers the step that was due moves the
    /// launcher on and is answered with the step that is due next; any other
    /// changes nothing and is answered with no step.
    pub open spec fn step(self, event: EventView) -> (LauncherView, Option<Action>) {
        if self.expects(event) {
            (self.next(event), self.next(event).pending())
        } else {
            (self, None)
        }
    }

    /// What the request to begin the launch does. It counts only before
    /// anything was started.
    pub open spec fn start(self) -> (LauncherView, Option<Action>) {
        if self.phase == Phase::Created {
            (self.started(), self.started().pending())
        } else {
            (self, None)
        }
    }

    /// What the request to stop the fleet does. It counts only while the
    /// fleet runs.
    pub open spec fn shutdown(self) -> (LauncherView, Option<Action>) {
        if self.phase == Phase::Running {
            (self.stopping(), self.stopping().pending())
        } else {
            (self, None)
        }
    }

    /// The result of the launch as far as it has come. A failed start
    /// comes first, then a failure to install the interrupt handler, then
    /// the processes that could not be stopped cleanly.
    pub open spec fn result(self) -> Result<(), ErrorView> {
        match self.failure {
            Some((k, cause)) => Err(
                ErrorView::SpawnFailed { member: self.tasks[k].spec.name, cause },
            ),
            None => match self.fault {
                Some(cause) => Err(ErrorView::Signal(cause)),
                None => if unstopped(self.tasks).len() == 0 {
                    Ok(())
                } else {
                    Err(ErrorView::KillFailed { members: unstopped(self.tasks) })
                },
            },
        }
    }

    /// The launcher after the outcomes of as many stop requests, one after
    /// the other.
    pub open spec fn after_kills(self, attempts: Seq<Result<(), Seq<char>>>) -> LauncherView
        decreases attempts.len(),
    {
        if attempts.len() == 0 {
            self
        } else {
            self.step(EventView::Killed(attempts.first())).0.after_kills(attempts.drop_first())
        }
    }

    /// The launcher after these events, one after the other.
    pub open spec fn after(self, events: Seq<EventView>) -> LauncherView
        decreases events.len(),
    {
        if events.len() == 0 {
            self
        } else {
            self.step(events.first()).0.after(events.drop_first())
        }
    }
}

/// A launcher that was just created is well formed.
pub proof fn lemma_created_wf(tasks: Seq<TaskView>)
    requires
        ports_unique(LauncherView::created(tasks).fleet()),
        forall|i: int| 0 <= i < tasks.len() ==> (#[trigger] tasks[i]).wf(),
        forall|i: int| 0 <= i < tasks.len() ==> (#[trigger] tasks[i]).state == State::NotStarted,
    ensures
        LauncherView::created(tasks).wf(),
{
}

/// Beginning the launch keeps a launcher well formed.
pub proof fn lemma_start_wf(launcher: LauncherView)
    requires
        launcher.wf(),
    ensures
        launcher.start().0.wf(),
{
}

/// Beginning teardown keeps a launcher well formed.
pub proof fn lemma_shutdown_wf(launcher: LauncherView)
    requires
        launcher.wf(),
    ensures
        launcher.shutdown().0.wf(),
{
}

/// Every event keeps a launcher well formed.
pub proof fn lemma_step_wf(launcher: LauncherView, event: EventView)
    requires
        launcher.wf(),
    ensures
        launcher.step(event).0.wf(),
{
    if launcher.expects(event) {
        assert(launcher.next(event).fleet() =~= launcher.fleet());
    }
}

/// Whatever events arrive, in whatever order, the launcher stays well
/// formed.
pub proof fn lemma_after_wf(launcher: LauncherView, events: Seq<EventView>)
    requires
        launcher.wf(),
    ensures
        launcher.after(events).wf(),
    decreases events.len(),
{
    if events.len() > 0 {
        lemma_step_wf(launcher, events.first());
        lemma_after_wf(launcher.step(events.first()).0, events.drop_first());
    }
}

impl LauncherView {
    /// Members are being stopped: at the end of a run, or to undo a launch
    /// that failed.
    pub open spec fn unwinding(self) -> bool {
        self.phase == Phase::ShuttingDown || (self.phase == Phase::Starting && self.failure is Some)
    }
}

/// While members are being stopped, each outcome stops exactly the running
/// member that was started last, whether or not terminating it succeeded,
/// and touches nothing else. The requests go from the member started last
/// to the first, and after the first the launcher is stopped.
pub proof fn lemma_unwinding(launcher: LauncherView, attempts: Seq<Result<(), Seq<char>>>)
    requires
        launcher.wf(),
        launcher.unwinding(),
        attempts.len() <= launcher.cursor,
    ensures
        ({
            let end = launcher.after_kills(attempts);
            &&& end.wf()
            &&& end.cursor == launcher.cursor - attempts.len()
            &&& end.tasks.len() == launcher.tasks.len()
            &&& end.fleet() == launcher.fleet()
            &&& end.failure == launcher.failure
            &&& end.fault == launcher.fault
            &&& end.watching == launcher.watching
            &&& end.phase == if end.cursor == 0 {
                Phase::Stopped
            } else {
                launcher.phase
            }
            &&& end.cursor > 0 ==> end.pending() == Some(Action::Kill((end.cursor - 1) as usize))
            &&& forall|i: int|
                0 <= i < end.cursor || launcher.cursor <= i < end.tasks.len() ==> #[trigger] end.tasks[i]
                    == launcher.tasks[i]
            &&& forall|i: int|
                end.cursor <= i < launcher.cursor ==> #[trigger] end.tasks[i]
                    == launcher.tasks[i].killed(attempts[launcher.cursor - 1 - i])
        }),
    decreases attempts.len(),
{
    if attempts.len() > 0 {
        let event = EventView::Killed(attempts.first());
        let mid = launcher.step(event).0;
        let rest = attempts.drop_first();
        lemma_step_wf(launcher, event);
        if rest.len() > 0 {
            lemma_unwinding(mid, rest);
        }
    }
}

/// Once teardown has begun, as many outcomes as members run bring the
/// launcher to `Stopped` with every member stopped, whether or not any of
/// them could be terminated.
pub proof fn lemma_shutdown_completes(
    launcher: LauncherView,
    attempts: Seq<Result<(), Seq<char>>>,
)
    requires
        launcher.wf(),
        launcher.phase == Phase::ShuttingDown,
        attempts.len() == launcher.cursor,
    ensures
        ({
            let end = launcher.after_kills(attempts);
            &&& end.phase == Phase::Stopped
            &&& end.pending() == Some(Action::Exit)
            &&& end.tasks.len() == launcher.tasks.len()
            &&& forall|i: int|
                0 <= i < end.tasks.len() ==> (#[trigger] end.tasks[i]).state == State::Stopped
        }),
{
    lemma_unwinding(launcher, attempts);
}

/// In a stopped launcher no member runs. After a launch that went through,
/// every member is stopped; after one that failed at some member, those
/// before it are stopped and it and those after it were never started.
pub proof fn lemma_stopped_leaves_none_running(launcher: LauncherView)
    requires
        launcher.wf(),
        launcher.phase == Phase::Stopped,
    ensures
        forall|i: int|
            0 <= i < launcher.tasks.len() ==> (#[trigger] launcher.tasks[i]).state
                != State::Running,
        match launcher.failure {
            Some((k, _)) => forall|i: int|
                0 <= i < launcher.tasks.len() ==> (#[trigger] launcher.tasks[i]).state == if i < k {
                    State::Stopped
                } else {
                    State::NotStarted
                },
            None => forall|i: int|
                0 <= i < launcher.tasks.len() ==> (#[trigger] launcher.tasks[i]).state
                    == State::Stopped,
        },
{
}

/// Where starting a member fails, the members started before it are asked
/// to stop, the last one first. After as many outcomes, whatever they are,
/// the launcher is stopped with the error of the failed start: every member
/// before the failed one is stopped, and it and those after it were never
/// started.
pub proof fn lemma_failed_launch_is_undone(
    launcher: LauncherView,
    cause: Seq<char>,
    attempts: Seq<Result<(), Seq<char>>>,
)
    requires
        launcher.wf(),
        launcher.phase == Phase::Starting,
        launcher.failure is None,
        attempts.len() == launcher.cursor,
    ensures
        ({
            let failed = launcher.step(EventView::Spawned(Err(cause))).0;
            let end = failed.after_kills(attempts);
            &&& end.phase == Phase::Stopped
            &&& end.pending() == Some(Action::Exit)
            &&& end.result() == Err::<(), ErrorView>(
                ErrorView::SpawnFailed {
                    member: launcher.tasks[launcher.cursor].spec.name,
                    cause,
                },
            )
            &&& end.tasks.len() == launcher.tasks.len()
            &&& forall|i: int|
                0 <= i < launcher.cursor ==> (#[trigger] end.tasks[i]).state == State::Stopped
            &&& forall|i: int|
                launcher.cursor <= i < end.tasks.len() ==> (#[trigger] end.tasks[i]).state
                    == State::NotStarted
        }),
{
    let event = EventView::Spawned(Err(cause));
    let failed = launcher.step(event).0;
    lemma_step_wf(launcher, event);
    if launcher.cursor > 0 {
        lemma_unwinding(failed, attempts);
    }
}

/// Two different members of a launcher's fleet declare no port number in
/// common, whatever has happened to the launcher since it was made.
pub proof fn lemma_members_ports_disjoint(launcher: LauncherView, i: int, j: int)
    requires
        launcher.wf(),
        0 <= i < launcher.tasks.len(),
        0 <= j < launcher.tasks.len(),
        i != j,
    ensures
        forall|a: int, b: int|
            0 <= a < launcher.tasks[i].spec.ports.len() && 0 <= b
                < launcher.tasks[j].spec.ports.len() ==> launcher.tasks[i].spec.ports[a].number
                != launcher.tasks[j].spec.ports[b].number,
{
    lemma_checked_members_disjoint(launcher.fleet(), i, j);
}

/// The events of members that start one after the other, each with its
/// process identifier.
pub open spec fn spawns(pids: Seq<u32>) -> Seq<EventView> {
    Seq::new(pids.len(), |i: int| EventView::Spawned(Ok(pids[i])))
}

/// While the fleet is started, the members are asked for in their order,
/// and each successful start makes exactly the member at the cursor run.
/// After the last member the fleet runs and the interrupt handler is due.
pub proof fn lemma_launching(launcher: LauncherView, pids: Seq<u32>)
    requires
        launcher.wf(),
        launcher.phase == Phase::Starting,
        launcher.failure is None,
        pids.len() <= launcher.tasks.len() - launcher.cursor,
    ensures
        launcher.pending() == Some(Action::Spawn(launcher.cursor as usize)),
        ({
            let end = launcher.after(spawns(pids));
            &&& end.wf()
            &&& end.cursor == launcher.cursor + pids.len()
            &&& end.tasks.len() == launcher.tasks.len()
            &&& end.fleet() == launcher.fleet()
            &&& end.failure is None
            &&& end.phase == if end.cursor == end.tasks.len() {
                Phase::Running
            } else {
                Phase::Starting
            }
            &&& end.pending() == if end.cursor == end.tasks.len() {
                Some(Action::Watch)
            } else {
                Some(Action::Spawn(end.cursor as usize))
            }
            &&& forall|i: int|
                0 <= i < launcher.cursor || end.cursor <= i < end.tasks.len() ==> #[trigger] end.tasks[i]
                    == launcher.tasks[i]
            &&& forall|i: int|
                launcher.cursor <= i < end.cursor ==> #[trigger] end.tasks[i]
                    == launcher.tasks[i].spawned(Ok(pids[i - launcher.cursor]))
        }),
    decreases pids.len(),
{
    if pids.len() > 0 {
        let events = spawns(pids);
        let mid = launcher.step(events.first()).0;
        lemma_step_wf(launcher, events.first());
        assert(events.drop_first() =~= spawns(pids.drop_first()));
        if pids.len() > 1 {
            lemma_launching(mid, pids.drop_first());
        }
    }
}

/// After as many successful starts as members are left to start, every
/// member runs.
pub proof fn lemma_launch_completes(launcher: LauncherView, pids: Seq<u32>)
    requires
        launcher.wf(),
        launcher.phase == Phase::Starting,
        launcher.failure is None,
        pids.len() == launcher.tasks.len() - launcher.cursor,
    ensures
        ({
            let end = launcher.after(spawns(pids));
            &&& end.phase == Phase::Running
            &&& end.pending() == Some(Action::Watch)
            &&& end.tasks.len() == launcher.tasks.len()
            &&& forall|i: int|
                0 <= i < end.tasks.len() ==> (#[trigger] end.tasks[i]).state == State::Running
        }),
{
    lemma_launching(launcher, pids);
}

/// A launch from the beginning in which the first members start and the
/// next one does not: once the members that were started have been asked
/// to stop, whatever came of that, the launcher is stopped with the error
/// of the failed start, the members before the failed one are stopped, and
/// it and those after it were never started.
pub proof fn lemma_no_partial_launch(
    tasks: Seq<TaskView>,
    pids: Seq<u32>,
    cause: Seq<char>,
    attempts: Seq<Result<(), Seq<char>>>,
)
    requires
        LauncherView::created(tasks).wf(),
        pids.len() < tasks.len(),
        attempts.len() == pids.len(),
    ensures
        ({
            let k = pids.len() as int;
            let begun = LauncherView::created(tasks).start().0;
            let failed = begun.after(spawns(pids)).step(EventView::Spawned(Err(cause))).0;
            let end = failed.after_kills(attempts);
            &&& end.phase == Phase::Stopped
            &&& end.pending() == Some(Action::Exit)
            &&& end.result() == Err::<(), ErrorView>(
                ErrorView::SpawnFailed { member: tasks[k].spec.name, cause },
            )
            &&& end.tasks.len() == tasks.len()
            &&& forall|i: int| 0 <= i < k ==> (#[trigger] end.tasks[i]).state == State::Stopped
            &&& forall|i: int| k <= i < tasks.len() ==> #[trigger] end.tasks[i] == tasks[i]
        }),
{
    let begun = LauncherView::created(tasks).start().0;
    lemma_launching(begun, pids);
    let partly = begun.after(spawns(pids));
    lemma_failed_launch_is_undone(partly, cause, attempts);
    let event = EventView::Spawned(Err(cause));
    let failed = partly.step(event).0;
    lemma_step_wf(partly, event);
    if partly.cursor > 0 {
        lemma_unwinding(failed, attempts);
    }
}

/// No task is named as not stopped cleanly exactly where none is stuck.
pub proof fn lemma_unstopped_empty(tasks: Seq<TaskView>)
    ensures
        unstopped(tasks).len() == 0 <==> forall|i: int|
            0 <= i < tasks.len() ==> !(#[trigger] tasks[i]).stuck(),
    decreases tasks.len(),
{
    if tasks.len() > 0 {
        lemma_unstopped_empty(tasks.drop_last());
        if unstopped(tasks).len() == 0 {
            assert forall|i: int| 0 <= i < tasks.len() implies !(#[trigger] tasks[i]).stuck() by {
                if i < tasks.len() - 1 {
                    assert(tasks.drop_last()[i] == tasks[i]);
                }
            }
        }
    }
}

/// Stopping a fleet that runs: after as many outcomes as there are members,
/// every member is stopped, and the result is success exactly where every
/// process could be terminated. Otherwise it names the members that could
/// not be stopped cleanly, and the teardown has completed all the same.
pub proof fn lemma_shutdown_result(launcher: LauncherView, attempts: Seq<Result<(), Seq<char>>>)
    requires
        launcher.wf(),
        launcher.phase == Phase::Running,
        launcher.fault is None,
        attempts.len() == launcher.tasks.len(),
    ensures
        ({
            let end = launcher.shutdown().0.after_kills(attempts);
            let n = launcher.tasks.len();
            &&& end.phase == Phase::Stopped
            &&& end.tasks.len() == n
            &&& forall|i: int| 0 <= i < n ==> (#[trigger] end.tasks[i]).state == State::Stopped
            &&& forall|i: int|
                0 <= i < n ==> (#[trigger] end.tasks[i]).outcome == Some(attempts[n - 1 - i])
            &&& end.result() is Ok <==> forall|j: int|
                0 <= j < n ==> (#[trigger] attempts[j]) is Ok
            &&& end.result() is Err ==> end.result() == Err::<(), ErrorView>(
                ErrorView::KillFailed { members: unstopped(end.tasks) },
            )
        }),
{
    let begun = launcher.shutdown().0;
    let n = launcher.tasks.len();
    if n > 0 {
        lemma_unwinding(begun, attempts);
    }
    let end = begun.after_kills(attempts);
    lemma_unstopped_empty(end.tasks);
    if end.result() is Ok {
        assert forall|j: int| 0 <= j < n implies (#[trigger] attempts[j]) is Ok by {
            assert(!end.tasks[n - 1 - j].stuck());
        }
    }
}

impl Phase {
    /// How far a phase is along the life of a launcher.
    pub open spec fn rank(self) -> int {
        match self {
            Phase::Created => 0,
            Phase::Starting => 1,
            Phase::Running => 2,
            Phase::ShuttingDown => 3,
            Phase::Stopped => 4,
        }
    }
}

/// A launcher never goes back to an earlier phase, and nothing leads out of
/// `Stopped`. An event leads from `Starting` to `Running`, or to `Stopped`
/// where a start failed; from `Running` to `ShuttingDown`; from
/// `ShuttingDown` to `Stopped`. Only a fleet without members, in which
/// nothing is to be started or stopped, passes over a phase.
pub proof fn lemma_phase_never_goes_back(launcher: LauncherView, event: EventView)
    requires
        launcher.wf(),
    ensures
        launcher.start().0.phase.rank() >= launcher.phase.rank(),
        launcher.step(event).0.phase.rank() >= launcher.phase.rank(),
        launcher.shutdown().0.phase.rank() >= launcher.phase.rank(),
        launcher.phase == Phase::Stopped ==> launcher.start().0 == launcher && launcher.step(
            event,
        ).0 == launcher && launcher.shutdown().0 == launcher,
        launcher.phase == Phase::Created ==> launcher.step(event).0 == launcher,
        launcher.phase == Phase::Starting ==> launcher.step(event).0.phase != Phase::ShuttingDown,
        launcher.phase == Phase::Running && launcher.tasks.len() > 0 ==> launcher.step(
            event,
        ).0.phase != Phase::Stopped,
{
}

impl LauncherView {
    /// A bound on the events that the launcher still takes in before it is
    /// stopped, not counting the polls that find the liveness flag set.
    pub open spec fn remaining(self) -> int {
        let n = self.tasks.len() as int;
        match self.phase {
            Phase::Created => 2 * n + 4,
            Phase::Starting => if self.failure is Some {
                self.cursor
            } else {
                2 * n - self.cursor + 3
            },
            Phase::Running => if self.watching || self.fault is Some {
                n + 1
            } else {
                n + 2
            },
            Phase::ShuttingDown => self.cursor,
            Phase::Stopped => 0,
        }
    }
}

/// The launcher cannot be kept busy for ever: every request and every event
/// that it takes in, other than a poll that finds the liveness flag set,
/// brings it strictly closer to `Stopped`, which it has reached when nothing
/// remains.
pub proof fn lemma_progress(launcher: LauncherView, event: EventView)
    requires
        launcher.wf(),
    ensures
        launcher.remaining() >= 0,
        launcher.remaining() == 0 <==> launcher.phase == Phase::Stopped,
        launcher.phase == Phase::Created ==> launcher.start().0.remaining() < launcher.remaining(),
        launcher.phase == Phase::Running ==> launcher.shutdown().0.remaining()
            < launcher.remaining(),
        launcher.expects(event) && event != EventView::Woke(true) ==> launcher.step(
            event,
        ).0.remaining() < launcher.remaining(),
        launcher.step(EventView::Woke(true)).0 == launcher,
{
}

} // verus!
