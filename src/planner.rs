//! The planner: turns free-form input into a `Plan`. This version
//! recognises no operations and always produces an empty plan.

use vstd::prelude::*;
use crate::model::{Plan, Task, TaskView};

verus! {

/// Produces a plan from raw input; currently always the empty plan.
pub fn plan(input: &str) -> (r: Plan)
    ensures
        r@ == Seq::<TaskView>::empty(),
{
    let tasks: Vec<Task> = Vec::new();
    let r = Plan::new(tasks);
    assert(r@ =~= Seq::<TaskView>::empty());
    r
}

} // verus!
