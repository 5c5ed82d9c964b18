//! Command-level rules, applied to the command and arguments of a
//! `RunCommand` task. Commands are compared by base name (the last path
//! component) and without regard to ASCII case.

use vstd::prelude::*;
use crate::path_rules::{components, components_of, is_parent, is_single};
use crate::policy::{outcome, PolicyError, Rejection};
use crate::text::{chars_eq_ignore_case, chars_of, eq_ignore_case, string_views};

verus! {

/// A component that names a file or directory: not the root, `.` or `..`.
pub open spec fn is_normal_component(c: Seq<char>) -> bool {
    c != seq!['/'] && c != seq!['.'] && c != seq!['.', '.']
}

/// The final path component of `command` when that names a file, else
/// `command` itself.
pub open spec fn base_name(command: Seq<char>) -> Seq<char> {
    let cs = components(command);
    if cs.len() > 0 && is_normal_component(cs.last()) {
        cs.last()
    } else {
        command
    }
}

pub open spec fn sudo_in_args(args: Seq<Seq<char>>) -> bool {
    exists|i: int| 0 <= i < args.len() && eq_ignore_case(#[trigger] args[i], "sudo"@)
}

/// The verdict of the sudo rule: the command itself when its base name is
/// `sudo`, else a note on the command when an argument is `sudo`.
pub open spec fn sudo_rejection(command: Seq<char>, args: Seq<Seq<char>>) -> Option<Rejection> {
    if eq_ignore_case(base_name(command), "sudo"@) {
        Some(Rejection::Sudo(command))
    } else if sudo_in_args(args) {
        Some(Rejection::Sudo(command + " (sudo in args)"@))
    } else {
        None
    }
}

/// Base names of utilities for network egress or reconnaissance.
pub open spec fn network_utilities() -> Seq<Seq<char>> {
    seq![
        "curl"@, "wget"@, "nc"@, "netcat"@, "ncat"@, "ssh"@, "scp"@, "sftp"@, "ftp"@,
        "tftp"@, "nmap"@, "ping"@, "ping6"@, "traceroute"@, "dig"@, "nslookup"@, "host"@,
        "telnet"@,
    ]
}

pub open spec fn is_network_utility(command: Seq<char>) -> bool {
    exists|i: int|
        0 <= i < network_utilities().len() && eq_ignore_case(
            base_name(command),
            #[trigger] network_utilities()[i],
        )
}

pub open spec fn network_rejection(command: Seq<char>) -> Option<Rejection> {
    if is_network_utility(command) {
        Some(Rejection::Network(command))
    } else {
        None
    }
}

fn base_name_of(command: &str) -> (r: Vec<char>)
    ensures
        r@ == base_name(command@),
{
    let chars = chars_of(command);
    let mut cs = components_of(&chars);
    if cs.len() > 0 {
        let last = cs.pop().unwrap();
        if !is_single(&last, '/') && !is_single(&last, '.') && !is_parent(&last) {
            return last;
        }
    }
    chars
}

fn network_utility_names() -> (r: Vec<&'static str>)
    ensures
        r@.len() == network_utilities().len(),
        forall|i: int| 0 <= i < r@.len() ==> #[trigger] r@[i]@ == network_utilities()[i],
{
    vec![
        "curl", "wget", "nc", "netcat", "ncat", "ssh", "scp", "sftp", "ftp", "tftp", "nmap",
        "ping", "ping6", "traceroute", "dig", "nslookup", "host", "telnet",
    ]
}

/// Rejects a command whose base name is `sudo`, or any of whose arguments
/// is `sudo`, ignoring ASCII case.
pub fn check_sudo(command: &str, args: &[String]) -> (r: Result<(), PolicyError>)
    ensures
        outcome(r) == sudo_rejection(command@, string_views(args@)),
{
    let sudo = chars_of("sudo");
    let base = base_name_of(command);
    if chars_eq_ignore_case(&base, &sudo) {
        return Err(PolicyError::SudoDetected(command.to_owned()));
    }
    let mut i: usize = 0;
    while i < args.len()
        invariant
            i <= args@.len(),
            sudo@ == "sudo"@,
            !eq_ignore_case(base_name(command@), "sudo"@),
            forall|k: int| 0 <= k < i ==> !eq_ignore_case(#[trigger] string_views(args@)[k], "sudo"@),
        decreases args@.len() - i,
    {
        let arg = chars_of(args[i].as_str());
        if chars_eq_ignore_case(&arg, &sudo) {
            assert(eq_ignore_case(string_views(args@)[i as int], "sudo"@));
            let msg = command.to_owned().concat(" (sudo in args)");
            assert(sudo_in_args(string_views(args@)));
            return Err(PolicyError::SudoDetected(msg));
        }
        i = i + 1;
    }
    Ok(())
}

/// Rejects a command whose base name is a known network utility, ignoring
/// ASCII case.
pub fn check_network(command: &str) -> (r: Result<(), PolicyError>)
    ensures
        outcome(r) == network_rejection(command@),
{
    let base = base_name_of(command);
    let names = network_utility_names();
    let mut i: usize = 0;
    while i < names.len()
        invariant
            i <= names@.len(),
            base@ == base_name(command@),
            names@.len() == network_utilities().len(),
            forall|k: int| 0 <= k < names@.len() ==> #[trigger] names@[k]@ == network_utilities()[k],
            forall|k: int| 0 <= k < i ==> !eq_ignore_case(base@, #[trigger] network_utilities()[k]),
        decreases names@.len() - i,
    {
        let name = chars_of(names[i]);
        if chars_eq_ignore_case(&base, &name) {
            assert(eq_ignore_case(base_name(command@), network_utilities()[i as int]));
            return Err(PolicyError::NetworkOperation(command.to_owned()));
        }
        i = i + 1;
    }
    Ok(())
}

} // verus!
