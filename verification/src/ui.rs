//! Decisions of the main window: which directory entries are projects, how
//! the difference column is styled, and the queue of build steps.
use vstd::prelude::*;
use std::collections::VecDeque;
use crate::plan::task_models;
use crate::process::{BuildTask, TaskModel};
use crate::text::chars_of;

verus! {

/// A directory entry is a project if it is a directory whose name does not
/// start with `.`.
pub open spec fn is_project(name: Seq<char>, is_dir: bool) -> bool {
    !(name.len() > 0 && name[0] == '.') && is_dir
}

/// Whether the entry `name` of the projects directory is a project.
pub fn is_project_entry(name: &str, is_dir: bool) -> (b: bool)
    ensures
        b == is_project(name@, is_dir),
{
    let v = chars_of(name);
    !(v.len() > 0 && v[0] == '.') && is_dir
}

/// The style class of a difference text: `negative` when it starts with `-`,
/// that is when the build directory is older than the source directory.
pub open spec fn diff_class(diff: Seq<char>) -> Seq<char> {
    if diff.len() > 0 && diff[0] == '-' {
        "negative"@
    } else {
        "positive"@
    }
}

/// The style class of the difference column for the text `diff`.
pub fn diff_css_class(diff: &str) -> (c: &'static str)
    ensures
        c@ == diff_class(diff@),
{
    let v = chars_of(diff);
    if v.len() > 0 && v[0] == '-' {
        "negative"
    } else {
        "positive"
    }
}

/// The build steps that wait to be run, first in first out.
pub struct TaskQueue {
    tasks: VecDeque<BuildTask>,
}

impl View for TaskQueue {
    type V = Seq<TaskModel>;

    closed spec fn view(&self) -> Seq<TaskModel> {
        task_models(self.tasks@)
    }
}

impl TaskQueue {
    /// An empty queue.
    pub fn new() -> (q: Self)
        ensures
            q@ == Seq::<TaskModel>::empty(),
    {
        let q = TaskQueue { tasks: VecDeque::new() };
        assert(q@ =~= Seq::<TaskModel>::empty());
        q
    }

    /// The number of waiting steps.
    pub fn len(&self) -> (n: usize)
        ensures
            n == self@.len(),
    {
        self.tasks.len()
    }

    /// Appends the steps of a plan, in their order, behind the waiting ones.
    pub fn enqueue(&mut self, tasks: Vec<BuildTask>)
        ensures
            final(self)@ == old(self)@ + task_models(tasks@),
    {
        let mut rest = tasks;
        let ghost all = task_models(rest@);
        while rest.len() > 0
            invariant
                self@ + task_models(rest@) == old(self)@ + all,
            decreases rest.len(),
        {
            let ghost before = rest@;
            let ghost queued = self@;
            let t = rest.remove(0);
            self.tasks.push_back(t);
            assert(task_models(before) =~= seq![t.model()] + task_models(rest@));
            assert(self@ =~= queued.push(t.model()));
            assert(self@ + task_models(rest@) =~= queued + task_models(before));
        }
        assert(task_models(rest@) =~= Seq::<TaskModel>::empty());
        assert(self@ =~= old(self)@ + all);
    }

    /// Takes the step that has waited longest, if any.
    pub fn take_next(&mut self) -> (t: Option<BuildTask>)
        ensures
            old(self)@.len() == 0 ==> t is None && final(self)@ == old(self)@,
            old(self)@.len() > 0 ==> (t matches Some(task) && task.model() == old(self)@[0]
                && final(self)@ == old(self)@.drop_first()),
    {
        let t = self.tasks.pop_front();
        assert(self@ =~= old(self)@.drop_first() || old(self)@.len() == 0);
        t
    }
}

/// The next step runs only when the previous one succeeded; after a failure
/// the remaining steps stay in the queue.
pub fn continue_after(result: &Result<String, String>) -> (b: bool)
    ensures
        b == result is Ok,
{
    result.is_ok()
}

/// What happens while build steps are run.
pub enum RunEvent {
    /// A build was planned: its steps, or why the project cannot be built.
    Planned(Result<Vec<BuildTask>, String>),
    /// The step just taken could not be started; the text says why.
    StartFailed(String),
    /// The running step ended, with its result.
    Finished(Result<String, String>),
}

/// What is to be done next.
pub enum RunAction {
    /// Start this step and watch it until it ends.
    Start(BuildTask),
    /// Show this error.
    ShowError(String),
    /// Nothing to do until the next event.
    Wait,
}

/// A `RunEvent` as text.
pub enum EventModel {
    Planned(Result<Seq<TaskModel>, Seq<char>>),
    StartFailed(Seq<char>),
    Finished(bool),
}

/// A `RunAction` as text.
pub enum ActionModel {
    Start(TaskModel),
    ShowError(Seq<char>),
    Wait,
}

impl RunEvent {
    /// The event as text; of a finished step only whether it succeeded counts.
    pub open spec fn model(&self) -> EventModel {
        match self {
            RunEvent::Planned(Ok(tasks)) => EventModel::Planned(Ok(task_models(tasks@))),
            RunEvent::Planned(Err(m)) => EventModel::Planned(Err(m@)),
            RunEvent::StartFailed(m) => EventModel::StartFailed(m@),
            RunEvent::Finished(r) => EventModel::Finished(r is Ok),
        }
    }
}

impl RunAction {
    /// The action as text.
    pub open spec fn model(&self) -> ActionModel {
        match self {
            RunAction::Start(t) => ActionModel::Start(t.model()),
            RunAction::ShowError(m) => ActionModel::ShowError(m@),
            RunAction::Wait => ActionModel::Wait,
        }
    }
}

/// Takes the step that has waited longest to start it, if there is one.
pub open spec fn start_next(queue: Seq<TaskModel>) -> (Seq<TaskModel>, ActionModel) {
    if queue.len() > 0 {
        (queue.drop_first(), ActionModel::Start(queue[0]))
    } else {
        (queue, ActionModel::Wait)
    }
}

/// How the queue and the next action follow from an event: a planned build
/// is queued and the next step started; a build that cannot be planned or a
/// step that cannot be started is reported and the queue stays; after a
/// step succeeded the next one starts; after a step failed nothing starts
/// and the remaining steps stay queued.
pub open spec fn run_step(queue: Seq<TaskModel>, event: EventModel) -> (Seq<TaskModel>, ActionModel) {
    match event {
        EventModel::Planned(Ok(tasks)) => start_next(queue + tasks),
        EventModel::Planned(Err(m)) => (queue, ActionModel::ShowError(m)),
        EventModel::StartFailed(m) => (queue, ActionModel::ShowError(m)),
        EventModel::Finished(ok) => if ok {
            start_next(queue)
        } else {
            (queue, ActionModel::Wait)
        },
    }
}

impl TaskQueue {
    /// Decides what to do on `event` (see `run_step`).
    pub fn step(&mut self, event: RunEvent) -> (a: RunAction)
        ensures
            (final(self)@, a.model()) == run_step(old(self)@, event.model()),
    {
        match event {
            RunEvent::Planned(Ok(tasks)) => {
                self.enqueue(tasks);
                self.start_next()
            },
            RunEvent::Planned(Err(m)) => RunAction::ShowError(m),
            RunEvent::StartFailed(m) => RunAction::ShowError(m),
            RunEvent::Finished(r) => {
                if continue_after(&r) {
                    self.start_next()
                } else {
                    RunAction::Wait
                }
            },
        }
    }

    /// Takes the step that has waited longest to start it (see `start_next`).
    fn start_next(&mut self) -> (a: RunAction)
        ensures
            (final(self)@, a.model()) == start_next(old(self)@),
    {
        match self.take_next() {
            Some(t) => RunAction::Start(t),
            None => RunAction::Wait,
        }
    }
}

} // verus!
