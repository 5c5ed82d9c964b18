//! The task model: `Task`, the untrusted `Plan`, and the trusted
//! `ApprovedPlan`, which only validation can produce.

use vstd::prelude::*;
use crate::validator::first_rejection;

verus! {

/// The atomic operations a plan can ask for.
#[derive(Debug, Clone)]
pub enum Task {
    /// Create a directory at the given path.
    CreateDir { path: String },
    /// Write `contents` to a file at the given path.
    WriteFile { path: String, contents: String },
    /// Run an OS command with arguments.
    RunCommand { command: String, args: Vec<String> },
}

/// The view of a `Task`: the same variant over character sequences.
pub enum TaskView {
    CreateDir { path: Seq<char> },
    WriteFile { path: Seq<char>, contents: Seq<char> },
    RunCommand { command: Seq<char>, args: Seq<Seq<char>> },
}

impl View for Task {
    type V = TaskView;

    open spec fn view(&self) -> TaskView {
        match self {
            Task::CreateDir { path } => TaskView::CreateDir { path: path@ },
            Task::WriteFile { path, contents } => TaskView::WriteFile {
                path: path@,
                contents: contents@,
            },
            Task::RunCommand { command, args } => TaskView::RunCommand {
                command: command@,
                args: Seq::new(args@.len(), |i: int| args@[i]@),
            },
        }
    }
}

/// The path a directory or file task writes to; none for a command.
pub open spec fn target_path(t: TaskView) -> Option<Seq<char>> {
    match t {
        TaskView::CreateDir { path } => Some(path),
        TaskView::WriteFile { path, .. } => Some(path),
        TaskView::RunCommand { .. } => None,
    }
}

pub open spec fn task_views(ts: Seq<Task>) -> Seq<TaskView> {
    Seq::new(ts.len(), |i: int| ts[i]@)
}

/// A sequence of proposed tasks, in execution order, not yet validated.
#[derive(Debug, Clone)]
pub struct Plan {
    tasks: Vec<Task>,
}

impl View for Plan {
    type V = Seq<TaskView>;

    closed spec fn view(&self) -> Seq<TaskView> {
        task_views(self.tasks@)
    }
}

impl Plan {
    /// Creates a plan from a list of tasks.
    pub fn new(tasks: Vec<Task>) -> (r: Plan)
        ensures
            r@ == task_views(tasks@),
    {
        Plan { tasks }
    }

    /// The tasks, read-only.
    pub fn tasks(&self) -> (r: &[Task])
        ensures
            task_views(r@) == self@,
    {
        self.tasks.as_slice()
    }

    /// Consumes the plan and returns its tasks.
    pub fn into_tasks(self) -> (r: Vec<Task>)
        ensures
            task_views(r@) == self@,
    {
        self.tasks
    }
}

/// A plan every task of which passed every rule against the working
/// directory it was validated for. Only `validate` constructs one.
pub struct ApprovedPlan {
    tasks: Vec<Task>,
    working_dir: Ghost<Seq<char>>,
}

impl View for ApprovedPlan {
    type V = Seq<TaskView>;

    closed spec fn view(&self) -> Seq<TaskView> {
        task_views(self.tasks@)
    }
}

impl ApprovedPlan {
    /// The working directory the plan was validated against.
    pub closed spec fn working_dir(&self) -> Seq<char> {
        self.working_dir@
    }

    #[verifier::type_invariant]
    closed spec fn passed(&self) -> bool {
        first_rejection(task_views(self.tasks@), self.working_dir@) is None
    }

    /// Wraps tasks that passed validation against `working_dir`.
    pub(crate) fn new(tasks: Vec<Task>, working_dir: Ghost<Seq<char>>) -> (r: ApprovedPlan)
        requires
            first_rejection(task_views(tasks@), working_dir@) is None,
        ensures
            r@ == task_views(tasks@),
            r.working_dir() == working_dir@,
    {
        ApprovedPlan { tasks, working_dir }
    }

    /// The approved tasks, read-only. Whatever the route by which the plan
    /// was obtained, they pass every rule against its working directory.
    pub fn tasks(&self) -> (r: &[Task])
        ensures
            task_views(r@) == self@,
            first_rejection(self@, self.working_dir()) is None,
    {
        proof {
            use_type_invariant(self);
        }
        self.tasks.as_slice()
    }

    /// Consumes the approved plan and returns its tasks, which pass every
    /// rule against its working directory.
    pub fn into_tasks(self) -> (r: Vec<Task>)
        ensures
            task_views(r@) == self@,
            first_rejection(self@, self.working_dir()) is None,
    {
        proof {
            use_type_invariant(&self);
        }
        self.tasks
    }
}

} // verus!
