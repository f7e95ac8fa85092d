use flus::utils::{
    check_dependency_args, execute_command, find, inject_git_dependency, CommandError,
    CommandOutcome, ExecuterConfig, FSAction, InjectError,
};

const PUBSPEC: &str = "name: demo\ndependencies:\n  flutter:\n    sdk: flutter\n";
const URL: &str = "https://github.com/Saugat913/zren.git";

#[test]
fn create_dir_holds_path() {
    match FSAction::create_dir("features") {
        FSAction::CreateDir { path } => assert_eq!(path, "features"),
        _ => panic!("wrong action"),
    }
}

#[test]
fn create_file_holds_content() {
    match FSAction::create_file("a.dart", Some("x")) {
        FSAction::CreateFile { path, content } => {
            assert_eq!(path, "a.dart");
            assert_eq!(content.as_deref(), Some("x"));
        }
        _ => panic!("wrong action"),
    }
    match FSAction::create_file("b", None) {
        FSAction::CreateFile { content, .. } => assert!(content.is_none()),
        _ => panic!("wrong action"),
    }
}

#[test]
fn remove_file_holds_path() {
    match FSAction::remove_file("main.dart") {
        FSAction::RemoveFile { path } => assert_eq!(path, "main.dart"),
        _ => panic!("wrong action"),
    }
}

#[test]
fn resolve_joins_onto_base() {
    match FSAction::create_file("core/a.dart", Some("t")).resolve("proj/lib") {
        FSAction::CreateFile { path, content } => {
            assert_eq!(path, "proj/lib/core/a.dart");
            assert_eq!(content.as_deref(), Some("t"));
        }
        _ => panic!("wrong action"),
    }
    match (FSAction::RemoveDir { path: "old".to_string(), recursive: true }).resolve("p/") {
        FSAction::RemoveDir { path, recursive } => {
            assert_eq!(path, "p/old");
            assert!(recursive);
        }
        _ => panic!("wrong action"),
    }
}

#[test]
fn resolve_absolute_path_ignores_base() {
    match FSAction::create_dir("/tmp/x").resolve("proj") {
        FSAction::CreateDir { path } => assert_eq!(path, "/tmp/x"),
        _ => panic!("wrong action"),
    }
}

#[test]
fn executer_config_holds_dir() {
    assert_eq!(ExecuterConfig::new("dir".to_string()).base_path, "dir");
}

#[test]
fn find_first_occurrence() {
    let hay: Vec<char> = "abcabc".chars().collect();
    let needle: Vec<char> = "bc".chars().collect();
    assert_eq!(find(&hay, &needle), Some(1));
    assert_eq!(find(&hay, &"cb".chars().collect()), None);
    assert_eq!(find(&hay, &Vec::new()), Some(0));
}

#[test]
fn inject_inserts_after_dependencies_line() {
    let updated = inject_git_dependency(PUBSPEC, "zren", URL).unwrap().unwrap();
    assert_eq!(
        updated,
        "name: demo\ndependencies:\n  zren:\n    git:\n      url: https://github.com/Saugat913/zren.git\n  flutter:\n    sdk: flutter\n"
    );
}

#[test]
fn inject_is_idempotent() {
    let updated = inject_git_dependency(PUBSPEC, "zren", URL).unwrap().unwrap();
    assert!(inject_git_dependency(&updated, "zren", URL) == Ok(None));
}

#[test]
fn inject_skips_named_package() {
    assert!(inject_git_dependency("dependencies:\n  zren:\n", "zren", URL) == Ok(None));
}

#[test]
fn inject_uses_first_dependencies_line() {
    let content = "dev_dependencies:\n  a: 1\ndependencies:\n";
    let updated = inject_git_dependency(content, "p", "u").unwrap().unwrap();
    assert_eq!(updated, "dev_dependencies:\n  p:\n    git:\n      url: u\n  a: 1\ndependencies:\n");
}

#[test]
fn inject_errors() {
    assert!(inject_git_dependency(PUBSPEC, "", URL) == Err(InjectError::EmptyPackageName));
    assert!(inject_git_dependency(PUBSPEC, "zren", "") == Err(InjectError::EmptyGitUrl));
    assert!(inject_git_dependency("name: x\n", "zren", URL) == Err(InjectError::MissingDependenciesSection));
    assert!(inject_git_dependency("", "", "") == Err(InjectError::EmptyPackageName));
}

#[test]
fn dependency_arguments_checked() {
    assert!(check_dependency_args("a", "b") == Ok(()));
    assert!(check_dependency_args("", "b") == Err(InjectError::EmptyPackageName));
    assert!(check_dependency_args("a", "") == Err(InjectError::EmptyGitUrl));
}

#[test]
fn inject_error_messages() {
    assert_eq!(InjectError::EmptyPackageName.message(), "package_name must not be empty");
    assert_eq!(InjectError::EmptyGitUrl.message(), "git_url must not be empty");
    assert_eq!(
        InjectError::MissingDependenciesSection.message(),
        "Could not find `dependencies:` in pubspec.yaml"
    );
}

#[test]
fn command_success_is_ok() {
    let outcome = CommandOutcome::Finished {
        success: true,
        stderr: "warning".to_string(),
        stdout: String::new(),
    };
    assert!(execute_command("flutter", outcome).is_ok());
}

#[test]
fn command_failure_reports_trimmed_output() {
    let outcome = CommandOutcome::Finished {
        success: false,
        stderr: "  bad thing\n".to_string(),
        stdout: "\nout ".to_string(),
    };
    let err = execute_command("flutter", outcome).unwrap_err();
    match &err {
        CommandError::Failed { command, stderr, stdout } => {
            assert_eq!(command, "flutter");
            assert_eq!(stderr, "bad thing");
            assert_eq!(stdout, "out");
        }
        _ => panic!("wrong error"),
    }
    assert_eq!(err.message(), "Command 'flutter' failed.bad thingout");
}

#[test]
fn command_not_started_reports_reason() {
    let outcome = CommandOutcome::NotStarted { reason: "No such file or directory".to_string() };
    let err = execute_command("flutter", outcome).unwrap_err();
    assert_eq!(err.message(), "While executing command flutter: No such file or directory");
}
