use yabridgectl::path_setup::{
    verify_path_setup, PathAction, PathCheck, PathEvent, PathOutcome, PathWarning,
};
use yabridgectl::process::{Completion, Invocation};

fn exited(success: bool) -> PathEvent {
    PathEvent::Completed(Completion::Exited { success, stdout: Vec::new(), stderr: Vec::new() })
}

fn variable(value: &str) -> PathEvent {
    PathEvent::Variable(Some(String::from(value)))
}

fn report(outcome: PathOutcome, warning: Option<PathWarning>) -> (PathCheck, PathAction) {
    (PathCheck::Finished, PathAction::Report { outcome, warning })
}

/// Feeds `events` to a new check and returns the state and the last answer.
fn run(events: Vec<PathEvent>) -> (PathCheck, PathAction) {
    let mut state = PathCheck::Start;
    let mut action = PathAction::Reject;
    for event in events {
        let next = verify_path_setup(state, event);
        state = next.0;
        action = next.1;
    }
    (state, action)
}

fn until_shell_runs(shell_path: &str) -> Vec<PathEvent> {
    vec![PathEvent::Begin, PathEvent::Executable(false), variable(shell_path), variable("/home/me")]
}

#[test]
fn check_begins_with_the_data_directory() {
    assert_eq!(
        verify_path_setup(PathCheck::Start, PathEvent::Begin),
        (
            PathCheck::ProbingDataDirectory,
            PathAction::ProbeDataDirectory { file_name: String::from("yabridge-host.exe") }
        )
    );
}

#[test]
fn host_in_data_directory_is_verified_at_once() {
    assert_eq!(
        run(vec![PathEvent::Begin, PathEvent::Executable(true)]),
        report(PathOutcome::Verified, None)
    );
}

#[test]
fn nothing_runs_after_the_check_is_over() {
    let mut state = PathCheck::Start;
    let events = vec![
        PathEvent::Begin,
        PathEvent::Executable(true),
        variable("/bin/bash"),
        variable("/home/me"),
        exited(false),
        PathEvent::Library(Ok(String::from("/opt"))),
        PathEvent::Begin,
    ];
    for (i, event) in events.into_iter().enumerate() {
        let (next, action) = verify_path_setup(state, event);
        assert!(!matches!(action, PathAction::Run(_)));
        if i >= 2 {
            assert_eq!(action, PathAction::Reject);
            assert_eq!(next, PathCheck::Finished);
        }
        state = next;
    }
}

#[test]
fn host_not_in_data_directory_asks_for_shell() {
    assert_eq!(
        run(vec![PathEvent::Begin, PathEvent::Executable(false)]),
        (PathCheck::ReadingShell, PathAction::ReadVariable { name: String::from("SHELL") })
    );
}

#[test]
fn unset_shell_is_inconclusive() {
    assert_eq!(
        run(vec![PathEvent::Begin, PathEvent::Executable(false), PathEvent::Variable(None)]),
        report(PathOutcome::SkippedInconclusive, Some(PathWarning::NoLoginShell))
    );
}

#[test]
fn unknown_shell_is_inconclusive() {
    assert_eq!(
        run(vec![PathEvent::Begin, PathEvent::Executable(false), variable("/usr/bin/xonsh")]),
        report(
            PathOutcome::SkippedInconclusive,
            Some(PathWarning::UnknownShell { shell: String::from("xonsh") })
        )
    );
}

#[test]
fn known_shell_asks_for_home() {
    assert_eq!(
        run(vec![PathEvent::Begin, PathEvent::Executable(false), variable("/usr/bin/zsh")]),
        (
            PathCheck::ReadingHome {
                shell_path: String::from("/usr/bin/zsh"),
                shell: String::from("zsh")
            },
            PathAction::ReadVariable { name: String::from("HOME") }
        )
    );
}

#[test]
fn known_shell_is_run_as_login_shell() {
    assert_eq!(
        run(until_shell_runs("/usr/bin/zsh")),
        (
            PathCheck::RunningShell { shell: String::from("zsh") },
            PathAction::Run(Invocation {
                program: String::from("/usr/bin/zsh"),
                arg0: Some(String::from("-/usr/bin/zsh")),
                args: vec![
                    String::from("-l"),
                    String::from("-c"),
                    String::from("command -v yabridge-host.exe")
                ],
                environment: Some(vec![(String::from("HOME"), String::from("/home/me"))]),
                capture_output: false,
            })
        )
    );
}

#[test]
fn unset_home_is_passed_on_empty() {
    let events = vec![
        PathEvent::Begin,
        PathEvent::Executable(false),
        variable("nu"),
        PathEvent::Variable(None),
    ];
    assert_eq!(
        run(events),
        (
            PathCheck::RunningShell { shell: String::from("nu") },
            PathAction::Run(Invocation {
                program: String::from("nu"),
                arg0: Some(String::from("-nu")),
                args: vec![String::from("-c"), String::from("which yabridge-host.exe")],
                environment: Some(vec![(String::from("HOME"), String::new())]),
                capture_output: false,
            })
        )
    );
}

#[test]
fn exit_status_zero_is_verified() {
    let mut events = until_shell_runs("/bin/bash");
    events.push(exited(true));
    assert_eq!(run(events), report(PathOutcome::Verified, None));
}

#[test]
fn exit_status_nonzero_asks_for_the_library() {
    let mut events = until_shell_runs("/bin/bash");
    events.push(exited(false));
    assert_eq!(
        run(events),
        (PathCheck::LocatingLibrary { shell: String::from("bash") }, PathAction::LocateLibrary)
    );
}

#[test]
fn exit_status_nonzero_is_missing() {
    let mut events = until_shell_runs("/bin/bash");
    events.push(exited(false));
    events.push(PathEvent::Library(Ok(String::from("/home/me/.local/share/yabridge"))));
    assert_eq!(
        run(events),
        report(
            PathOutcome::VerifiedButMissing,
            Some(PathWarning::NotInSearchPath {
                directory: String::from("/home/me/.local/share/yabridge"),
                shell: String::from("bash"),
            })
        )
    );
}

#[test]
fn library_that_is_not_found_is_an_error() {
    let mut events = until_shell_runs("/bin/bash");
    events.push(exited(false));
    events.push(PathEvent::Library(Err(String::from("Could not find 'libyabridge.so'"))));
    assert_eq!(
        run(events),
        (
            PathCheck::Finished,
            PathAction::Fail { error: String::from("Could not find 'libyabridge.so'") }
        )
    );
}

#[test]
fn shell_that_does_not_start_is_inconclusive() {
    let mut events = until_shell_runs("/opt/bin/fish");
    events.push(PathEvent::Completed(Completion::NotStarted {
        error: String::from("No such file or directory (os error 2)"),
    }));
    assert_eq!(
        run(events),
        report(
            PathOutcome::SkippedInconclusive,
            Some(PathWarning::ShellNotRunnable {
                shell: String::from("fish"),
                error: String::from("No such file or directory (os error 2)"),
            })
        )
    );
}

#[test]
fn event_that_answers_nothing_is_rejected() {
    assert_eq!(
        verify_path_setup(PathCheck::Start, PathEvent::Executable(true)),
        (PathCheck::Start, PathAction::Reject)
    );
    assert_eq!(
        verify_path_setup(PathCheck::ReadingShell, exited(true)),
        (PathCheck::ReadingShell, PathAction::Reject)
    );
    let running = PathCheck::RunningShell { shell: String::from("bash") };
    assert_eq!(
        verify_path_setup(running, PathEvent::Begin),
        (PathCheck::RunningShell { shell: String::from("bash") }, PathAction::Reject)
    );
}

#[test]
fn state_with_an_unknown_shell_starts_nothing() {
    let state =
        PathCheck::ReadingHome { shell_path: String::from("/bin/rc"), shell: String::from("rc") };
    assert_eq!(
        verify_path_setup(state, variable("/home/me")),
        report(
            PathOutcome::SkippedInconclusive,
            Some(PathWarning::UnknownShell { shell: String::from("rc") })
        )
    );
}

#[test]
fn only_a_missing_host_fails_the_setup() {
    assert!(PathOutcome::Verified.passes());
    assert!(PathOutcome::SkippedInconclusive.passes());
    assert!(!PathOutcome::VerifiedButMissing.passes());
}
