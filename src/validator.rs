//! The validation gate: a `Plan` goes in, and either an `ApprovedPlan` or
//! the first rule violation comes out. No I/O, no logging, no state.

use vstd::prelude::*;
use crate::command_rules::{check_network, check_sudo, network_rejection, sudo_rejection};
use crate::model::{ApprovedPlan, Plan, Task, TaskView, task_views};
use crate::path_rules::{check_confinement, confinement_rejection};
use crate::policy::{outcome, PolicyError, Rejection};
use crate::text::string_views;

verus! {

/// The verdict of the rules on one task: sudo, then network for a command;
/// confinement of the path for a directory or file.
pub open spec fn check_task(t: TaskView, wd: Seq<char>) -> Option<Rejection> {
    match t {
        TaskView::RunCommand { command, args } => match sudo_rejection(command, args) {
            Some(e) => Some(e),
            None => network_rejection(command),
        },
        TaskView::CreateDir { path } => confinement_rejection(path, wd),
        TaskView::WriteFile { path, .. } => confinement_rejection(path, wd),
    }
}

/// The verdict on the first task, in order, that a rule rejects.
pub open spec fn first_rejection(ts: Seq<TaskView>, wd: Seq<char>) -> Option<Rejection>
    decreases ts.len(),
{
    if ts.len() == 0 {
        None
    } else {
        match first_rejection(ts.drop_last(), wd) {
            Some(e) => Some(e),
            None => check_task(ts.last(), wd),
        }
    }
}

fn check(task: &Task, working_dir: &str) -> (r: Result<(), PolicyError>)
    ensures
        outcome(r) == check_task(task@, working_dir@),
{
    match task {
        Task::RunCommand { command, args } => {
            let s = check_sudo(command.as_str(), args.as_slice());
            proof {
                assert(string_views(args@) =~= Seq::new(args@.len(), |i: int| args@[i]@));
            }
            if s.is_err() {
                return s;
            }
            check_network(command.as_str())
        },
        Task::CreateDir { path } => check_confinement(path.as_str(), working_dir),
        Task::WriteFile { path, .. } => check_confinement(path.as_str(), working_dir),
    }
}

/// Checks every task of `plan`, in order, against the rules, stopping at the
/// first violation. Consumes the plan; on success its tasks, unchanged and
/// in the same order, become an `ApprovedPlan`.
pub fn validate(plan: Plan, working_dir: &str) -> (r: Result<ApprovedPlan, PolicyError>)
    ensures
        match r {
            Ok(a) => {
                &&& first_rejection(plan@, working_dir@) is None
                &&& a@ == plan@
                &&& a.working_dir() == working_dir@
            },
            Err(e) => first_rejection(plan@, working_dir@) == Some(e@),
        },
{
    let tasks = plan.into_tasks();
    let ghost ts = task_views(tasks@);
    let mut i: usize = 0;
    while i < tasks.len()
        invariant
            ts == task_views(tasks@),
            ts == plan@,
            i <= tasks@.len(),
            first_rejection(ts.subrange(0, i as int), working_dir@) is None,
        decreases tasks@.len() - i,
    {
        assert(ts.subrange(0, i + 1).drop_last() =~= ts.subrange(0, i as int));
        let r = check(&tasks[i], working_dir);
        if let Err(e) = r {
            proof {
                lemma_first_rejection_prefix(ts, i as int + 1, working_dir@);
            }
            return Err(e);
        }
        i = i + 1;
    }
    assert(ts.subrange(0, ts.len() as int) =~= ts);
    Ok(ApprovedPlan::new(tasks, Ghost(working_dir@)))
}

/// A rejection found in a prefix of the tasks is the verdict on the whole.
proof fn lemma_first_rejection_prefix(ts: Seq<TaskView>, n: int, wd: Seq<char>)
    requires
        0 <= n <= ts.len(),
        first_rejection(ts.subrange(0, n), wd) is Some,
    ensures
        first_rejection(ts, wd) == first_rejection(ts.subrange(0, n), wd),
    decreases ts.len() - n,
{
    if n < ts.len() {
        assert(ts.subrange(0, n + 1).drop_last() =~= ts.subrange(0, n));
        lemma_first_rejection_prefix(ts, n + 1, wd);
    } else {
        assert(ts.subrange(0, n) =~= ts);
    }
}

} // verus!
