use exozora::planner::plan;
use exozora::{validate, Plan, PolicyError, Task};

fn wd() -> &'static str {
    "/home/user/project"
}

fn run(command: &str, args: &[&str]) -> Task {
    Task::RunCommand {
        command: command.to_string(),
        args: args.iter().map(|s| s.to_string()).collect(),
    }
}

#[test]
fn empty_plan_is_approved() {
    let plan = Plan::new(vec![]);
    assert!(validate(plan, wd()).is_ok());
}

#[test]
fn safe_tasks_are_approved() {
    let plan = Plan::new(vec![
        Task::CreateDir {
            path: "build".to_string(),
        },
        Task::WriteFile {
            path: "build/output.txt".to_string(),
            contents: "hello".into(),
        },
        Task::RunCommand {
            command: "echo".into(),
            args: vec!["hello".into()],
        },
    ]);
    assert!(validate(plan, wd()).is_ok());
}

#[test]
fn sudo_is_rejected() {
    let plan = Plan::new(vec![Task::RunCommand {
        command: "sudo".into(),
        args: vec!["rm".into(), "-rf".into(), "/".into()],
    }]);
    assert!(matches!(
        validate(plan, wd()),
        Err(PolicyError::SudoDetected(_))
    ));
}

#[test]
fn network_command_is_rejected() {
    let plan = Plan::new(vec![Task::RunCommand {
        command: "curl".into(),
        args: vec!["https://evil.com".into()],
    }]);
    assert!(matches!(
        validate(plan, wd()),
        Err(PolicyError::NetworkOperation(_))
    ));
}

#[test]
fn path_escape_is_rejected() {
    let plan = Plan::new(vec![Task::WriteFile {
        path: "../../etc/passwd".to_string(),
        contents: "pwned".into(),
    }]);
    assert!(matches!(
        validate(plan, wd()),
        Err(PolicyError::PathEscape(_))
    ));
}

#[test]
fn empty_plan_approves_no_tasks() {
    let approved = match validate(Plan::new(vec![]), wd()) {
        Ok(a) => a,
        Err(_) => panic!("empty plan rejected"),
    };
    assert!(approved.tasks().is_empty());
    assert!(approved.into_tasks().is_empty());
}

#[test]
fn approved_plan_keeps_tasks_in_order() {
    let plan = Plan::new(vec![
        Task::CreateDir {
            path: "build".to_string(),
        },
        Task::WriteFile {
            path: "build/output.txt".to_string(),
            contents: "hello".to_string(),
        },
        run("echo", &["hello"]),
    ]);
    let tasks = match validate(plan, wd()) {
        Ok(a) => a.into_tasks(),
        Err(e) => panic!("rejected: {:?}", e),
    };
    assert_eq!(tasks.len(), 3);
    assert!(matches!(&tasks[0], Task::CreateDir { path } if path == "build"));
    assert!(matches!(&tasks[1], Task::WriteFile { path, contents }
        if path == "build/output.txt" && contents == "hello"));
    assert!(matches!(&tasks[2], Task::RunCommand { command, args }
        if command == "echo" && args == &vec!["hello".to_string()]));
}

#[test]
fn sudo_in_arguments_is_rejected() {
    let plan = Plan::new(vec![run("sh", &["-c", "Sudo"])]);
    assert_eq!(
        validate(plan, wd()).err(),
        Some(PolicyError::SudoDetected("sh (sudo in args)".to_string()))
    );
}

#[test]
fn prefixed_uppercase_network_command_is_rejected() {
    let plan = Plan::new(vec![run("/usr/bin/CURL", &["https://example.com"])]);
    assert_eq!(
        validate(plan, wd()).err(),
        Some(PolicyError::NetworkOperation("/usr/bin/CURL".to_string()))
    );
}

#[test]
fn sudo_is_checked_before_network() {
    let plan = Plan::new(vec![run("curl", &["sudo"])]);
    assert_eq!(
        validate(plan, wd()).err(),
        Some(PolicyError::SudoDetected("curl (sudo in args)".to_string()))
    );
}

#[test]
fn absolute_escape_is_rejected() {
    let plan = Plan::new(vec![Task::CreateDir {
        path: "/etc/shadow".to_string(),
    }]);
    assert_eq!(
        validate(plan, wd()).err(),
        Some(PolicyError::PathEscape("/etc/shadow".to_string()))
    );
}

#[test]
fn absolute_inside_is_approved() {
    let plan = Plan::new(vec![
        Task::CreateDir {
            path: "/home/user/project/foo".to_string(),
        },
        Task::WriteFile {
            path: "src/main.rs".to_string(),
            contents: String::new(),
        },
    ]);
    assert!(validate(plan, wd()).is_ok());
}

#[test]
fn first_violation_is_reported_alone() {
    let plan = Plan::new(vec![
        Task::CreateDir {
            path: "ok".to_string(),
        },
        run("sudo", &["ls"]),
        Task::WriteFile {
            path: "../../etc/passwd".to_string(),
            contents: "x".to_string(),
        },
    ]);
    assert_eq!(
        validate(plan, wd()).err(),
        Some(PolicyError::SudoDetected("sudo".to_string()))
    );
}

#[test]
fn validating_equal_plans_twice_gives_same_verdict() {
    let tasks = vec![
        Task::CreateDir {
            path: "a".to_string(),
        },
        run("wget", &["x"]),
    ];
    let first = validate(Plan::new(tasks.clone()), wd()).err();
    let second = validate(Plan::new(tasks), wd()).err();
    assert_eq!(first, second);
    assert_eq!(first, Some(PolicyError::NetworkOperation("wget".to_string())));

    let ok_tasks = vec![run("echo", &["hi"])];
    assert!(validate(Plan::new(ok_tasks.clone()), wd()).is_ok());
    assert!(validate(Plan::new(ok_tasks), wd()).is_ok());
}

#[test]
fn plan_accessors_return_tasks() {
    let p = Plan::new(vec![run("ls", &[])]);
    assert_eq!(p.tasks().len(), 1);
    let tasks = p.into_tasks();
    assert!(matches!(&tasks[0], Task::RunCommand { command, .. } if command == "ls"));
}

#[test]
fn planner_returns_empty_plan() {
    let p = plan("create a directory");
    assert!(p.tasks().is_empty());
    assert!(validate(p, wd()).is_ok());
}
