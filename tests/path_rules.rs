use exozora::path_rules::check_confinement;
use exozora::PolicyError;

const WD: &str = "/home/user/project";

#[test]
fn relative_inside_is_ok() {
    let wd = "/home/user/project";
    assert!(check_confinement("src/main.rs", wd).is_ok());
}

#[test]
fn parent_escape_is_rejected() {
    let wd = "/home/user/project";
    assert!(check_confinement("../../etc/passwd", wd).is_err());
}

#[test]
fn absolute_inside_is_ok() {
    let wd = "/home/user/project";
    assert!(check_confinement("/home/user/project/foo", wd).is_ok());
}

#[test]
fn absolute_outside_is_rejected() {
    let wd = "/home/user/project";
    assert!(check_confinement("/etc/shadow", wd).is_err());
}

#[test]
fn escape_error_carries_original_path() {
    assert_eq!(
        check_confinement("../../etc/passwd", WD),
        Err(PolicyError::PathEscape("../../etc/passwd".to_string()))
    );
}

#[test]
fn sibling_with_shared_text_prefix_is_rejected() {
    assert!(check_confinement("/home/user/project2", WD).is_err());
    assert!(check_confinement("../project2/x", WD).is_err());
}

#[test]
fn working_dir_itself_is_inside() {
    assert!(check_confinement(".", WD).is_ok());
    assert!(check_confinement("", WD).is_ok());
    assert!(check_confinement("/home/user/project", WD).is_ok());
    assert!(check_confinement("/home/user/project/", WD).is_ok());
}

#[test]
fn parent_components_are_collapsed() {
    assert!(check_confinement("a/../b", WD).is_ok());
    assert!(check_confinement("a/./b/../c", WD).is_ok());
    assert!(check_confinement("../project/x", WD).is_ok());
    assert!(check_confinement("a/../..", WD).is_err());
    assert!(check_confinement("..", WD).is_err());
}

#[test]
fn popping_past_root_is_a_no_op() {
    assert!(check_confinement("/../../home/user/project/x", WD).is_ok());
    assert!(check_confinement("/../..", WD).is_err());
}

#[test]
fn trailing_separator_on_working_dir() {
    assert!(check_confinement("src", "/home/user/project/").is_ok());
    assert!(check_confinement("../x", "/home/user/project/").is_err());
}

#[test]
fn root_working_dir_contains_every_absolute_path() {
    assert!(check_confinement("/etc/shadow", "/").is_ok());
    assert!(check_confinement("../../x", "/").is_ok());
}
