//! Properties of validation that relate many inputs, proved over the
//! verdict that `validate` is specified by (`first_rejection`).

use vstd::prelude::*;
use crate::command_rules::{base_name, is_network_utility, network_utilities, sudo_in_args};
use crate::model::{target_path, TaskView};
use crate::path_rules::confined;
use crate::policy::Rejection;
use crate::text::{eq_ignore_case, fold_ascii};
use crate::validator::{check_task, first_rejection};

verus! {

/// The empty plan is approved (and `validate` then returns it unchanged,
/// hence empty).
pub proof fn empty_plan_is_approved(wd: Seq<char>)
    ensures
        first_rejection(Seq::<TaskView>::empty(), wd) is None,
{
}

/// When every task before position `i` passes and the task at `i` is
/// rejected, the plan's verdict is the verdict on that task: later tasks
/// are never reached.
pub proof fn first_violation_decides(ts: Seq<TaskView>, i: int, wd: Seq<char>)
    requires
        0 <= i < ts.len(),
        forall|k: int| 0 <= k < i ==> (#[trigger] check_task(ts[k], wd)) is None,
        check_task(ts[i], wd) is Some,
    ensures
        first_rejection(ts, wd) == check_task(ts[i], wd),
    decreases ts.len(),
{
    if i == ts.len() - 1 {
        lemma_all_pass(ts.drop_last(), wd);
    } else {
        first_violation_decides(ts.drop_last(), i, wd);
    }
}

proof fn lemma_all_pass(ts: Seq<TaskView>, wd: Seq<char>)
    requires
        forall|k: int| 0 <= k < ts.len() ==> (#[trigger] check_task(ts[k], wd)) is None,
    ensures
        first_rejection(ts, wd) is None,
    decreases ts.len(),
{
    if ts.len() > 0 {
        lemma_all_pass(ts.drop_last(), wd);
    }
}

/// A command task whose base name is `sudo`, or one of whose arguments is
/// `sudo` (any case), makes validation fail with a sudo rejection, once the
/// tasks before it have passed.
pub proof fn sudo_task_is_rejected(ts: Seq<TaskView>, i: int, wd: Seq<char>)
    requires
        0 <= i < ts.len(),
        forall|k: int| 0 <= k < i ==> (#[trigger] check_task(ts[k], wd)) is None,
        ts[i] matches TaskView::RunCommand { command, args } && (eq_ignore_case(
            base_name(command),
            "sudo"@,
        ) || sudo_in_args(args)),
    ensures
        first_rejection(ts, wd) matches Some(Rejection::Sudo(_)),
{
    first_violation_decides(ts, i, wd);
}

proof fn lemma_network_name_is_not_sudo(command: Seq<char>)
    requires
        is_network_utility(command),
    ensures
        !eq_ignore_case(base_name(command), "sudo"@),
{
    let b = base_name(command);
    let k = choose|k: int|
        0 <= k < network_utilities().len() && eq_ignore_case(b, #[trigger] network_utilities()[k]);
    if eq_ignore_case(b, "sudo"@) {
        reveal_strlit("sudo");
        reveal_strlit("curl");
        reveal_strlit("wget");
        reveal_strlit("nc");
        reveal_strlit("netcat");
        reveal_strlit("ncat");
        reveal_strlit("ssh");
        reveal_strlit("scp");
        reveal_strlit("sftp");
        reveal_strlit("ftp");
        reveal_strlit("tftp");
        reveal_strlit("nmap");
        reveal_strlit("ping");
        reveal_strlit("ping6");
        reveal_strlit("traceroute");
        reveal_strlit("dig");
        reveal_strlit("nslookup");
        reveal_strlit("host");
        reveal_strlit("telnet");
        let n = network_utilities()[k];
        assert(n.len() == 4);
        assert(fold_ascii(n[0]) == fold_ascii(b[0]));
        assert(fold_ascii(n[1]) == fold_ascii(b[1]));
        assert(fold_ascii(b[0]) == fold_ascii('s'));
        assert(fold_ascii(b[1]) == fold_ascii('u'));
        assert(false);
    }
}

/// A command task whose base name (any case, any directory prefix) is a
/// known network utility makes validation fail with a network rejection of
/// that command, once the tasks before it have passed. Excluded: an
/// argument equal to `sudo`, which the sudo rule reports first.
pub proof fn network_task_is_rejected(ts: Seq<TaskView>, i: int, wd: Seq<char>)
    requires
        0 <= i < ts.len(),
        forall|k: int| 0 <= k < i ==> (#[trigger] check_task(ts[k], wd)) is None,
        ts[i] matches TaskView::RunCommand { command, args } && is_network_utility(command)
            && !sudo_in_args(args),
    ensures
        first_rejection(ts, wd) == Some(Rejection::Network(ts[i]->RunCommand_command)),
{
    lemma_network_name_is_not_sudo(ts[i]->RunCommand_command);
    first_violation_decides(ts, i, wd);
}

/// A directory or file task whose path, resolved against the working
/// directory and normalised, leaves it makes validation fail with an escape
/// rejection carrying the original path, once the tasks before it have
/// passed.
pub proof fn escaping_path_is_rejected(ts: Seq<TaskView>, i: int, wd: Seq<char>)
    requires
        0 <= i < ts.len(),
        forall|k: int| 0 <= k < i ==> (#[trigger] check_task(ts[k], wd)) is None,
        target_path(ts[i]) matches Some(path) && !confined(path, wd),
    ensures
        first_rejection(ts, wd) == Some(Rejection::Escape(target_path(ts[i])->0)),
{
    first_violation_decides(ts, i, wd);
}

/// A directory or file task whose path stays inside the working directory
/// passes the rules.
pub proof fn confined_path_passes(t: TaskView, wd: Seq<char>)
    requires
        target_path(t) matches Some(path) && confined(path, wd),
    ensures
        check_task(t, wd) is None,
{
}

/// Validation is a function of the plan's contents and the working
/// directory: equal inputs give the same verdict.
pub proof fn verdict_is_deterministic(
    p1: Seq<TaskView>,
    p2: Seq<TaskView>,
    wd1: Seq<char>,
    wd2: Seq<char>,
)
    requires
        p1 == p2,
        wd1 == wd2,
    ensures
        first_rejection(p1, wd1) == first_rejection(p2, wd2),
{
}

/// With a sudo task at `i` and a path-escaping task later at `j`, the
/// verdict is the sudo rejection alone, once the tasks before `i` have
/// passed.
pub proof fn sudo_before_escape_reports_sudo(ts: Seq<TaskView>, i: int, j: int, wd: Seq<char>)
    requires
        0 <= i < j < ts.len(),
        forall|k: int| 0 <= k < i ==> (#[trigger] check_task(ts[k], wd)) is None,
        ts[i] matches TaskView::RunCommand { command, args } && (eq_ignore_case(
            base_name(command),
            "sudo"@,
        ) || sudo_in_args(args)),
        target_path(ts[j]) matches Some(path) && !confined(path, wd),
    ensures
        first_rejection(ts, wd) matches Some(Rejection::Sudo(_)),
        first_rejection(ts, wd) == check_task(ts[i], wd),
{
    first_violation_decides(ts, i, wd);
}

} // verus!
