//! A managed process: one fleet member's process as the launcher sees it.
//!
//! The operating system's process itself is started and stopped by the
//! program around this library. A [`Task`] records what was attempted and how
//! it went, and so knows at any time whether there is a process to stop.

use crate::config::{NodeSpec, NodeSpecView};
use crate::error::{outcome_view, Error, ErrorView};
use vstd::prelude::*;

verus! {

/// Where a process stands in its life. `Stopped` is final.
#[derive(Debug, Clone, Copy, PartialEq, Eq, Structural)]
pub enum State {
    NotStarted,
    Running,
    Stopped,
}

/// Where the output of a process goes.
#[derive(Debug, PartialEq, Eq)]
pub enum Output {
    /// To the console of the launching program.
    Inherit,
    /// Nowhere.
    Discard,
    /// To a file of its own in this directory, named after the process.
    Log(String),
}

/// An [`Output`] as a mathematical value.
pub ghost enum OutputView {
    Inherit,
    Discard,
    Log(Seq<char>),
}

impl View for Output {
    type V = OutputView;

    open spec fn view(&self) -> OutputView {
        match *self {
            Output::Inherit => OutputView::Inherit,
            Output::Discard => OutputView::Discard,
            Output::Log(dir) => OutputView::Log(dir@),
        }
    }
}

impl Output {
    /// A copy of this destination.
    pub fn duplicate(&self) -> (copy: Output)
        ensures
            copy@ == self@,
    {
        match self {
            Output::Inherit => Output::Inherit,
            Output::Discard => Output::Discard,
            Output::Log(dir) => Output::Log(dir.clone()),
        }
    }
}

/// How an attempt on the operating system went, failure with its cause, as a
/// mathematical value.
pub open spec fn attempt_view<T>(attempt: Result<T, String>) -> Result<T, Seq<char>> {
    match attempt {
        Ok(value) => Ok(value),
        Err(cause) => Err(cause@),
    }
}

/// One fleet member's process: what to run, where its output goes, and how
/// far it has come.
#[derive(Debug, PartialEq, Eq)]
pub struct Task {
    spec: NodeSpec,
    output: Output,
    state: State,
    handle: Option<u32>,
    outcome: Option<Result<(), String>>,
}

/// A [`Task`] as a mathematical value.
pub ghost struct TaskView {
    /// The member that the process belongs to.
    pub spec: NodeSpecView,
    /// Where its output goes.
    pub output: OutputView,
    pub state: State,
    /// The operating system's identifier of the process while it runs.
    pub handle: Option<u32>,
    /// How stopping it went, once it is stopped.
    pub outcome: Option<Result<(), Seq<char>>>,
}

impl TaskView {
    /// A task that has not been started yet.
    pub open spec fn fresh(spec: NodeSpecView, output: OutputView) -> TaskView {
        TaskView { spec, output, state: State::NotStarted, handle: None, outcome: None }
    }

    /// There is a process handle exactly while the task runs, and an outcome
    /// exactly once it is stopped.
    pub open spec fn wf(self) -> bool {
        &&& self.handle is Some <==> self.state == State::Running
        &&& self.outcome is Some <==> self.state == State::Stopped
    }

    /// The task after an attempt to start its process.
    pub open spec fn spawned(self, attempt: Result<u32, Seq<char>>) -> TaskView {
        match attempt {
            Ok(pid) => TaskView { state: State::Running, handle: Some(pid), ..self },
            Err(_) => self,
        }
    }

    /// What an attempt to start the process is answered with.
    pub open spec fn spawn_result(self, attempt: Result<u32, Seq<char>>) -> Result<(), ErrorView> {
        match attempt {
            Ok(_) => Ok(()),
            Err(cause) => Err(ErrorView::SpawnFailed { member: self.spec.name, cause }),
        }
    }

    /// The task after a request to stop it. `attempt` tells how terminating
    /// the process went; it counts only while the task runs.
    pub open spec fn killed(self, attempt: Result<(), Seq<char>>) -> TaskView {
        if self.state == State::Running {
            TaskView { state: State::Stopped, handle: None, outcome: Some(attempt), ..self }
        } else {
            self
        }
    }

    /// What a request to stop the task is answered with.
    pub open spec fn kill_result(self, attempt: Result<(), Seq<char>>) -> Result<(), ErrorView> {
        if self.state == State::Running && attempt is Err {
            Err(ErrorView::KillFailed { members: seq![self.spec.name] })
        } else {
            Ok(())
        }
    }

    /// The process could not be stopped cleanly.
    pub open spec fn stuck(self) -> bool {
        match self.outcome {
            Some(Err(_)) => true,
            _ => false,
        }
    }

    /// The log file of the task: the directory and the file's name, which is
    /// the member's name.
    pub open spec fn log_file(self) -> Option<(Seq<char>, Seq<char>)> {
        match self.output {
            OutputView::Log(dir) => Some((dir, self.spec.name)),
            _ => None,
        }
    }
}

impl View for Task {
    type V = TaskView;

    closed spec fn view(&self) -> TaskView {
        TaskView {
            spec: self.spec@,
            output: self.output@,
            state: self.state,
            handle: self.handle,
            outcome: match self.outcome {
                Some(attempt) => Some(attempt_view(attempt)),
                None => None,
            },
        }
    }
}

impl DeepView for Task {
    type V = TaskView;

    open spec fn deep_view(&self) -> TaskView {
        self@
    }
}

impl Task {
    /// Whether the recorded state is consistent. Every task that this
    /// library hands out is.
    pub open spec fn wf(&self) -> bool {
        self@.wf()
    }

    /// A task for `spec` that has not been started yet.
    pub fn new(spec: NodeSpec, output: Output) -> (task: Task)
        ensures
            task@ == TaskView::fresh(spec@, output@),
            task.wf(),
    {
        Task { spec, output, state: State::NotStarted, handle: None, outcome: None }
    }

    /// The logical name of the member.
    pub fn name(&self) -> (name: &String)
        ensures
            name@ == self@.spec.name,
    {
        &self.spec.name
    }

    /// What to run: the binary, its arguments, its working directory.
    pub fn spec(&self) -> (spec: &NodeSpec)
        ensures
            spec@ == self@.spec,
    {
        &self.spec
    }

    /// Where the output of the process goes.
    pub fn output(&self) -> (output: &Output)
        ensures
            output@ == self@.output,
    {
        &self.output
    }

    /// The name of the log file inside the log directory, where the output is
    /// logged: the member's name.
    pub fn log_file(&self) -> (file: Option<(&String, &String)>)
        ensures
            match file {
                Some((dir, name)) => self@.log_file() == Some((dir@, name@)),
                None => self@.log_file() is None,
            },
    {
        match &self.output {
            Output::Log(dir) => Some((dir, &self.spec.name)),
            _ => None,
        }
    }

    pub fn state(&self) -> (state: State)
        ensures
            state == self@.state,
    {
        self.state
    }

    /// Whether there is a process to stop.
    pub fn is_running(&self) -> (running: bool)
        ensures
            running == (self@.state == State::Running),
    {
        match self.state {
            State::Running => true,
            _ => false,
        }
    }

    /// The operating system's identifier of the process, while it runs.
    pub fn handle(&self) -> (handle: Option<u32>)
        ensures
            handle == self@.handle,
    {
        self.handle
    }

    /// How stopping the process went, once it is stopped.
    pub fn outcome(&self) -> (outcome: &Option<Result<(), String>>)
        ensures
            match *outcome {
                Some(attempt) => self@.outcome == Some(attempt_view(attempt)),
                None => self@.outcome is None,
            },
    {
        &self.outcome
    }

    /// Records an attempt to start the process: on success the identifier of
    /// the new process, on failure the operating system's cause. A started
    /// task is `Running`; a failed attempt leaves it `NotStarted` and is
    /// answered with `SpawnFailed`. A process is started once: the attempt
    /// is made only for a task that is `NotStarted`.
    pub fn spawn(&mut self, attempt: Result<u32, String>) -> (result: Result<(), Error>)
        requires
            old(self)@.state == State::NotStarted,
        ensures
            final(self)@ == old(self)@.spawned(attempt_view(attempt)),
            outcome_view(result) == old(self)@.spawn_result(attempt_view(attempt)),
            old(self).wf() ==> final(self).wf(),
    {
        match attempt {
            Ok(pid) => {
                self.state = State::Running;
                self.handle = Some(pid);
                Ok(())
            },
            Err(cause) => Err(Error::SpawnFailed { member: self.spec.name.clone(), cause }),
        }
    }

    /// Records a request to stop the process. `attempt` tells how terminating
    /// it went; while the task is not `Running` no attempt is due and
    /// `attempt` is ignored. A running task becomes `Stopped` whether or not
    /// terminating it succeeded, and a failure is kept as its outcome and
    /// answered with `KillFailed`. On a task that is not running this changes
    /// nothing and succeeds.
    pub fn kill(&mut self, attempt: Result<(), String>) -> (result: Result<(), Error>)
        ensures
            final(self)@ == old(self)@.killed(attempt_view(attempt)),
            outcome_view(result) == old(self)@.kill_result(attempt_view(attempt)),
            old(self).wf() ==> final(self).wf(),
    {
        match self.state {
            State::Running => {
                let failed = attempt.is_err();
                self.state = State::Stopped;
                self.handle = None;
                self.outcome = Some(attempt);
                if failed {
                    let mut members: Vec<String> = Vec::new();
                    members.push(self.spec.name.clone());
                    assert(members.deep_view() =~= seq![old(self)@.spec.name]);
                    Err(Error::KillFailed { members })
                } else {
                    Ok(())
                }
            },
            _ => Ok(()),
        }
    }
}

/// Stopping a task twice leaves it as the first request left it, and the
/// second request succeeds, whatever is reported with either.
pub proof fn lemma_kill_idempotent(
    task: TaskView,
    first: Result<(), Seq<char>>,
    second: Result<(), Seq<char>>,
)
    ensures
        task.killed(first).killed(second) == task.killed(first),
        task.killed(first).kill_result(second) == Ok::<(), ErrorView>(()),
        task.killed(first).state != State::Running,
{
}

/// A task that has run is stopped by one request, whether or not terminating
/// it succeeded.
pub proof fn lemma_kill_stops(task: TaskView, attempt: Result<(), Seq<char>>)
    requires
        task.state == State::Running,
    ensures
        task.killed(attempt).state == State::Stopped,
        task.killed(attempt).outcome == Some(attempt),
{
}

impl State {
    /// How far a state is along the life of a process.
    pub open spec fn rank(self) -> int {
        match self {
            State::NotStarted => 0,
            State::Running => 1,
            State::Stopped => 2,
        }
    }
}

/// A process never goes back: neither an attempt to start a task that was
/// not started nor a request to stop a task brings it to an earlier state,
/// and a stopped task stays stopped.
pub proof fn lemma_state_never_goes_back(
    task: TaskView,
    start: Result<u32, Seq<char>>,
    stop: Result<(), Seq<char>>,
)
    ensures
        task.state == State::NotStarted ==> task.spawned(start).state.rank() >= task.state.rank(),
        task.killed(stop).state.rank() >= task.state.rank(),
        task.state == State::Stopped ==> task.killed(stop) == task,
{
}

} // verus!
