//! Verifies that `yabridge-host.exe` can be found when a plugin host is
//! started from the desktop session. Such a host does not see what an
//! interactive shell adds to the search path, only what a login shell has.
//!
//! The check is a state machine. `verify_path_setup` takes the state and what
//! the caller observed, and answers with the next state and what to do next.

use crate::config::YABRIDGE_HOST_EXE_NAME;
use crate::process::{Completion, CompletionView, Invocation, InvocationView};
use crate::shell::{classify_shell, login_probe, login_probe_of, recipe_for, shell_name,
    shell_name_of, ShellRecipe};
use vstd::prelude::*;

verus! {

/// How the check ended.
#[derive(Clone, Copy, Debug, PartialEq, Eq)]
pub enum PathOutcome {
    /// The host binary will be found.
    Verified,
    /// The login shell was asked and does not find the host binary. This is
    /// the one outcome that the user has to act on.
    VerifiedButMissing,
    /// The check could not be made. That is no sign of a broken setup.
    SkippedInconclusive,
}

impl PathOutcome {
    /// Whether the setup passes: it does unless the host binary is known to
    /// be missing.
    pub open spec fn passes_spec(self) -> bool {
        !(self is VerifiedButMissing)
    }

    /// Whether the setup passes.
    #[verifier::when_used_as_spec(passes_spec)]
    pub fn passes(self) -> (ok: bool)
        ensures
            ok == self.passes_spec(),
    {
        match self {
            PathOutcome::VerifiedButMissing => false,
            _ => true,
        }
    }
}

/// What the user is told when the check does not simply succeed.
#[derive(Debug, PartialEq, Eq)]
pub enum PathWarning {
    /// `$SHELL` is not set.
    NoLoginShell,
    /// The login shell is none that the check knows how to start.
    UnknownShell { shell: String },
    /// The login shell does not find the host binary. `directory` is where
    /// the binary is installed, which is what the search path lacks.
    NotInSearchPath { directory: String, shell: String },
    /// The login shell could not be started.
    ShellNotRunnable { shell: String, error: String },
}

/// A `PathWarning` as plain values.
pub enum PathWarningView {
    NoLoginShell,
    UnknownShell { shell: Seq<char> },
    NotInSearchPath { directory: Seq<char>, shell: Seq<char> },
    ShellNotRunnable { shell: Seq<char>, error: Seq<char> },
}

impl View for PathWarning {
    type V = PathWarningView;

    open spec fn view(&self) -> PathWarningView {
        match self {
            PathWarning::NoLoginShell => PathWarningView::NoLoginShell,
            PathWarning::UnknownShell { shell } => PathWarningView::UnknownShell { shell: shell@ },
            PathWarning::NotInSearchPath { directory, shell } => PathWarningView::NotInSearchPath {
                directory: directory@,
                shell: shell@,
            },
            PathWarning::ShellNotRunnable { shell, error } => PathWarningView::ShellNotRunnable {
                shell: shell@,
                error: error@,
            },
        }
    }
}

/// Where the check stands: what it last asked for.
#[derive(Debug, PartialEq, Eq)]
pub enum PathCheck {
    /// Nothing has been asked yet.
    Start,
    /// Asked whether the host binary is in yabridge's own data directory.
    ProbingDataDirectory,
    /// Asked for `$SHELL`.
    ReadingShell,
    /// Asked for `$HOME`, to start the shell at `shell_path` with.
    ReadingHome { shell_path: String, shell: String },
    /// Started the login shell.
    RunningShell { shell: String },
    /// Asked where yabridge's library is installed.
    LocatingLibrary { shell: String },
    /// The check is over.
    Finished,
}

/// A `PathCheck` as plain values.
pub enum PathCheckView {
    Start,
    ProbingDataDirectory,
    ReadingShell,
    ReadingHome { shell_path: Seq<char>, shell: Seq<char> },
    RunningShell { shell: Seq<char> },
    LocatingLibrary { shell: Seq<char> },
    Finished,
}

impl View for PathCheck {
    type V = PathCheckView;

    open spec fn view(&self) -> PathCheckView {
        match self {
            PathCheck::Start => PathCheckView::Start,
            PathCheck::ProbingDataDirectory => PathCheckView::ProbingDataDirectory,
            PathCheck::ReadingShell => PathCheckView::ReadingShell,
            PathCheck::ReadingHome { shell_path, shell } => PathCheckView::ReadingHome {
                shell_path: shell_path@,
                shell: shell@,
            },
            PathCheck::RunningShell { shell } => PathCheckView::RunningShell { shell: shell@ },
            PathCheck::LocatingLibrary { shell } => PathCheckView::LocatingLibrary {
                shell: shell@,
            },
            PathCheck::Finished => PathCheckView::Finished,
        }
    }
}

/// What the caller has to report.
#[derive(Debug, PartialEq, Eq)]
pub enum PathEvent {
    /// The check is to begin.
    Begin,
    /// Whether the file asked about is there and executable.
    Executable(bool),
    /// The value of the variable asked for, if it is set.
    Variable(Option<String>),
    /// What became of the process.
    Completed(Completion),
    /// The directory that holds yabridge's library, or why it was not found.
    Library(Result<String, String>),
}

/// A `PathEvent` as plain values.
pub enum PathEventView {
    Begin,
    Executable(bool),
    Variable(Option<Seq<char>>),
    Completed(CompletionView),
    Library(Result<Seq<char>, Seq<char>>),
}

impl View for PathEvent {
    type V = PathEventView;

    open spec fn view(&self) -> PathEventView {
        match self {
            PathEvent::Begin => PathEventView::Begin,
            PathEvent::Executable(found) => PathEventView::Executable(*found),
            PathEvent::Variable(None) => PathEventView::Variable(None),
            PathEvent::Variable(Some(value)) => PathEventView::Variable(Some(value@)),
            PathEvent::Completed(completion) => PathEventView::Completed(completion@),
            PathEvent::Library(Ok(directory)) => PathEventView::Library(Ok(directory@)),
            PathEvent::Library(Err(error)) => PathEventView::Library(Err(error@)),
        }
    }
}

/// What the caller is to do next.
#[derive(Debug, PartialEq, Eq)]
pub enum PathAction {
    /// See whether `file_name` in yabridge's data directory is an executable
    /// file, and answer with `Executable`.
    ProbeDataDirectory { file_name: String },
    /// Read the environment variable `name`, and answer with `Variable`.
    ReadVariable { name: String },
    /// Run the process, and answer with `Completed`.
    Run(Invocation),
    /// Find the directory that yabridge's library is installed in, and answer
    /// with `Library`.
    LocateLibrary,
    /// The check is over with this outcome. Show the warning, if there is
    /// one.
    Report { outcome: PathOutcome, warning: Option<PathWarning> },
    /// The check is over with an error.
    Fail { error: String },
    /// The event does not answer what was asked. The state is as it was.
    Reject,
}

/// A `PathAction` as plain values.
pub enum PathActionView {
    ProbeDataDirectory { file_name: Seq<char> },
    ReadVariable { name: Seq<char> },
    Run(InvocationView),
    LocateLibrary,
    Report { outcome: PathOutcome, warning: Option<PathWarningView> },
    Fail { error: Seq<char> },
    Reject,
}

impl View for PathAction {
    type V = PathActionView;

    open spec fn view(&self) -> PathActionView {
        match self {
            PathAction::ProbeDataDirectory { file_name } => PathActionView::ProbeDataDirectory {
                file_name: file_name@,
            },
            PathAction::ReadVariable { name } => PathActionView::ReadVariable { name: name@ },
            PathAction::Run(invocation) => PathActionView::Run(invocation@),
            PathAction::LocateLibrary => PathActionView::LocateLibrary,
            PathAction::Report { outcome, warning: None } => PathActionView::Report {
                outcome: *outcome,
                warning: None,
            },
            PathAction::Report { outcome, warning: Some(warning) } => PathActionView::Report {
                outcome: *outcome,
                warning: Some(warning@),
            },
            PathAction::Fail { error } => PathActionView::Fail { error: error@ },
            PathAction::Reject => PathActionView::Reject,
        }
    }
}

/// The end of the check with the given outcome and warning.
pub open spec fn report(outcome: PathOutcome, warning: Option<PathWarningView>) -> (
    PathCheckView,
    PathActionView,
) {
    (PathCheckView::Finished, PathActionView::Report { outcome, warning })
}

/// One step of the check.
///
/// The data directory comes first, since yabridge always searches there: if
/// the host binary is in it, nothing else is looked at. Otherwise the login
/// shell is asked. Whatever keeps the shell from being asked (no `$SHELL`, a
/// shell that is not known, a shell that does not start) leaves the check
/// inconclusive. Once the shell was asked, its exit status decides.
pub open spec fn path_step(state: PathCheckView, event: PathEventView) -> (
    PathCheckView,
    PathActionView,
) {
    match (state, event) {
        (PathCheckView::Start, PathEventView::Begin) => (
            PathCheckView::ProbingDataDirectory,
            PathActionView::ProbeDataDirectory { file_name: YABRIDGE_HOST_EXE_NAME@ },
        ),
        (PathCheckView::ProbingDataDirectory, PathEventView::Executable(found)) => if found {
            report(PathOutcome::Verified, None)
        } else {
            (PathCheckView::ReadingShell, PathActionView::ReadVariable { name: "SHELL"@ })
        },
        (PathCheckView::ReadingShell, PathEventView::Variable(None)) => report(
            PathOutcome::SkippedInconclusive,
            Some(PathWarningView::NoLoginShell),
        ),
        (PathCheckView::ReadingShell, PathEventView::Variable(Some(shell_path))) => {
            let shell = shell_name_of(shell_path);
            if recipe_for(shell) is Unknown {
                report(
                    PathOutcome::SkippedInconclusive,
                    Some(PathWarningView::UnknownShell { shell }),
                )
            } else {
                (
                    PathCheckView::ReadingHome { shell_path, shell },
                    PathActionView::ReadVariable { name: "HOME"@ },
                )
            }
        },
        (PathCheckView::ReadingHome { shell_path, shell }, PathEventView::Variable(home)) => {
            let home = match home {
                Some(home) => home,
                None => Seq::empty(),
            };
            match login_probe_of(recipe_for(shell), shell_path, home, YABRIDGE_HOST_EXE_NAME@) {
                Some(probe) => (PathCheckView::RunningShell { shell }, PathActionView::Run(probe)),
                None => report(
                    PathOutcome::SkippedInconclusive,
                    Some(PathWarningView::UnknownShell { shell }),
                ),
            }
        },
        (PathCheckView::RunningShell { shell }, PathEventView::Completed(completion)) => {
            match completion {
                CompletionView::Exited { success, .. } => if success {
                    report(PathOutcome::Verified, None)
                } else {
                    (PathCheckView::LocatingLibrary { shell }, PathActionView::LocateLibrary)
                },
                CompletionView::NotStarted { error } => report(
                    PathOutcome::SkippedInconclusive,
                    Some(PathWarningView::ShellNotRunnable { shell, error }),
                ),
            }
        },
        (PathCheckView::LocatingLibrary { shell }, PathEventView::Library(found)) => match found {
            Ok(directory) => report(
                PathOutcome::VerifiedButMissing,
                Some(PathWarningView::NotInSearchPath { directory, shell }),
            ),
            Err(error) => (PathCheckView::Finished, PathActionView::Fail { error }),
        },
        (state, _) => (state, PathActionView::Reject),
    }
}

/// Takes the check one step further: from where it stands and what the
/// caller observed to where it stands next and what the caller is to do. The
/// check begins in `PathCheck::Start` with `PathEvent::Begin`, and is over
/// with the first `Report` or `Fail`.
pub fn verify_path_setup(state: PathCheck, event: PathEvent) -> (next: (PathCheck, PathAction))
    ensures
        (next.0@, next.1@) == path_step(state@, event@),
{
    match (state, event) {
        (PathCheck::Start, PathEvent::Begin) => (
            PathCheck::ProbingDataDirectory,
            PathAction::ProbeDataDirectory { file_name: YABRIDGE_HOST_EXE_NAME.to_owned() },
        ),
        (PathCheck::ProbingDataDirectory, PathEvent::Executable(found)) => {
            if found {
                finish(PathOutcome::Verified, None)
            } else {
                (PathCheck::ReadingShell, PathAction::ReadVariable { name: "SHELL".to_owned() })
            }
        },
        (PathCheck::ReadingShell, PathEvent::Variable(None)) => finish(
            PathOutcome::SkippedInconclusive,
            Some(PathWarning::NoLoginShell),
        ),
        (PathCheck::ReadingShell, PathEvent::Variable(Some(shell_path))) => {
            let shell = shell_name(shell_path.as_str());
            match classify_shell(shell.as_str()) {
                ShellRecipe::Unknown => finish(
                    PathOutcome::SkippedInconclusive,
                    Some(PathWarning::UnknownShell { shell }),
                ),
                _ => (
                    PathCheck::ReadingHome { shell_path, shell },
                    PathAction::ReadVariable { name: "HOME".to_owned() },
                ),
            }
        },
        (PathCheck::ReadingHome { shell_path, shell }, PathEvent::Variable(home)) => {
            let home = match home {
                Some(home) => home,
                None => String::new(),
            };
            let recipe = classify_shell(shell.as_str());
            match login_probe(recipe, shell_path.as_str(), home.as_str(), YABRIDGE_HOST_EXE_NAME) {
                Some(probe) => (PathCheck::RunningShell { shell }, PathAction::Run(probe)),
                None => finish(
                    PathOutcome::SkippedInconclusive,
                    Some(PathWarning::UnknownShell { shell }),
                ),
            }
        },
        (PathCheck::RunningShell { shell }, PathEvent::Completed(completion)) => {
            match completion {
                Completion::Exited { success, .. } => {
                    if success {
                        finish(PathOutcome::Verified, None)
                    } else {
                        (PathCheck::LocatingLibrary { shell }, PathAction::LocateLibrary)
                    }
                },
                Completion::NotStarted { error } => finish(
                    PathOutcome::SkippedInconclusive,
                    Some(PathWarning::ShellNotRunnable { shell, error }),
                ),
            }
        },
        (PathCheck::LocatingLibrary { shell }, PathEvent::Library(found)) => match found {
            Ok(directory) => finish(
                PathOutcome::VerifiedButMissing,
                Some(PathWarning::NotInSearchPath { directory, shell }),
            ),
            Err(error) => (PathCheck::Finished, PathAction::Fail { error }),
        },
        (state, _) => (state, PathAction::Reject),
    }
}

/// Ends the check.
fn finish(outcome: PathOutcome, warning: Option<PathWarning>) -> (end: (PathCheck, PathAction))
    ensures
        end.0@ == PathCheckView::Finished,
        end.1@ == (PathActionView::Report {
            outcome,
            warning: match warning {
                Some(warning) => Some(warning@),
                None => None,
            },
        }),
{
    (PathCheck::Finished, PathAction::Report { outcome, warning })
}

/// Where the check stands after it was given `events` in turn, from the
/// start.
pub open spec fn state_after(events: Seq<PathEventView>) -> PathCheckView
    decreases events.len(),
{
    if events.len() == 0 {
        PathCheckView::Start
    } else {
        path_step(state_after(events.drop_last()), events.last()).0
    }
}

/// What the check answers to the last of `events`, given all of them in
/// turn from the start.
pub open spec fn answer_to(events: Seq<PathEventView>) -> PathActionView {
    path_step(state_after(events.drop_last()), events.last()).1
}

/// A check that is over stays over: whatever comes after is rejected.
pub proof fn lemma_finished_is_final(event: PathEventView)
    ensures
        path_step(PathCheckView::Finished, event) == (
            PathCheckView::Finished,
            PathActionView::Reject,
        ),
{
}

/// The login shell is only ever started in answer to the value of `$HOME`,
/// which is asked for last, and with nothing in its environment but that
/// value.
pub proof fn lemma_shell_starts_with_clean_environment(
    state: PathCheckView,
    event: PathEventView,
)
    requires
        path_step(state, event).1 is Run,
    ensures
        state is ReadingHome,
        event is Variable,
        ({
            let probe = path_step(state, event).1->Run_0;
            let home = match event->Variable_0 {
                Some(home) => home,
                None => Seq::empty(),
            };
            &&& probe.program == state->shell_path
            &&& probe.arg0 == Some("-"@ + state->shell_path)
            &&& probe.environment == Some(seq![("HOME"@, home)])
            &&& !probe.capture_output
        }),
{
}

/// If the host binary is in the data directory, the check is over at once:
/// it is verified, and whatever else is reported afterwards, no process is
/// ever started.
pub proof fn lemma_data_directory_settles_it(events: Seq<PathEventView>, k: int)
    requires
        events.len() >= 2,
        events[0] == PathEventView::Begin,
        events[1] == PathEventView::Executable(true),
        0 < k <= events.len(),
    ensures
        answer_to(events.take(2)) == (PathActionView::Report {
            outcome: PathOutcome::Verified,
            warning: None,
        }),
        !(answer_to(events.take(k)) is Run),
        k >= 2 ==> state_after(events.take(k)) == PathCheckView::Finished,
    decreases k,
{
    let first = events.take(1);
    let second = events.take(2);
    assert(second.drop_last() == first);
    if k > 2 {
        lemma_data_directory_settles_it(events, k - 1);
        assert(events.take(k).drop_last() == events.take(k - 1));
    }
}

/// Without `$SHELL` there is no shell to ask, and the check is skipped.
pub proof fn lemma_no_login_shell_is_inconclusive()
    ensures
        answer_to(
            seq![
                PathEventView::Begin,
                PathEventView::Executable(false),
                PathEventView::Variable(None),
            ],
        ) == (PathActionView::Report {
            outcome: PathOutcome::SkippedInconclusive,
            warning: Some(PathWarningView::NoLoginShell),
        }),
{
    let events = seq![
        PathEventView::Begin,
        PathEventView::Executable(false),
        PathEventView::Variable(None),
    ];
    lemma_asks_for_shell();
    assert(events.drop_last() == seq![PathEventView::Begin, PathEventView::Executable(false)]);
}

/// When the host binary is not in the data directory, the check asks for
/// `$SHELL`.
pub proof fn lemma_asks_for_shell()
    ensures
        state_after(seq![PathEventView::Begin, PathEventView::Executable(false)])
            == PathCheckView::ReadingShell,
{
    let events = seq![PathEventView::Begin, PathEventView::Executable(false)];
    assert(events.drop_last() == seq![PathEventView::Begin]);
    assert(seq![PathEventView::Begin].drop_last() == Seq::<PathEventView>::empty());
    assert(state_after(Seq::<PathEventView>::empty()) == PathCheckView::Start);
    assert(state_after(seq![PathEventView::Begin]) == PathCheckView::ProbingDataDirectory);
}

/// A login shell that the check does not know is not started. The check is
/// skipped, with a warning that names the shell.
pub proof fn lemma_unknown_shell_is_inconclusive(shell_path: Seq<char>)
    requires
        recipe_for(shell_name_of(shell_path)) is Unknown,
    ensures
        answer_to(
            seq![
                PathEventView::Begin,
                PathEventView::Executable(false),
                PathEventView::Variable(Some(shell_path)),
            ],
        ) == (PathActionView::Report {
            outcome: PathOutcome::SkippedInconclusive,
            warning: Some(PathWarningView::UnknownShell { shell: shell_name_of(shell_path) }),
        }),
{
    let events = seq![
        PathEventView::Begin,
        PathEventView::Executable(false),
        PathEventView::Variable(Some(shell_path)),
    ];
    lemma_asks_for_shell();
    assert(events.drop_last() == seq![PathEventView::Begin, PathEventView::Executable(false)]);
}

/// The events up to the start of a known login shell: the host binary is not
/// in the data directory, `$SHELL` is `shell_path`, and `$HOME` is `home`.
pub open spec fn events_until_shell_runs(shell_path: Seq<char>, home: Option<Seq<char>>) -> Seq<
    PathEventView,
> {
    seq![
        PathEventView::Begin,
        PathEventView::Executable(false),
        PathEventView::Variable(Some(shell_path)),
        PathEventView::Variable(home),
    ]
}

/// A login shell that the check knows is started, once `$HOME` is known.
pub proof fn lemma_known_shell_is_run(shell_path: Seq<char>, home: Option<Seq<char>>)
    requires
        !(recipe_for(shell_name_of(shell_path)) is Unknown),
    ensures
        state_after(events_until_shell_runs(shell_path, home)) == (PathCheckView::RunningShell {
            shell: shell_name_of(shell_path),
        }),
        answer_to(events_until_shell_runs(shell_path, home)) is Run,
{
    let events = events_until_shell_runs(shell_path, home);
    let asked = seq![
        PathEventView::Begin,
        PathEventView::Executable(false),
        PathEventView::Variable(Some(shell_path)),
    ];
    lemma_asks_for_shell();
    assert(asked.drop_last() == seq![PathEventView::Begin, PathEventView::Executable(false)]);
    assert(events.drop_last() == asked);
}

/// What the login shell's exit status means. Zero: the host binary is on
/// its search path. Anything else: it is missing, which is reported once the
/// directory to add is known. And a shell that does not start proves
/// nothing, so the check is skipped, with the reason in the warning.
pub proof fn lemma_exit_status_decides(
    shell_path: Seq<char>,
    home: Option<Seq<char>>,
    completion: CompletionView,
    directory: Seq<char>,
)
    requires
        !(recipe_for(shell_name_of(shell_path)) is Unknown),
    ensures
        ({
            let shell = shell_name_of(shell_path);
            let ran = events_until_shell_runs(shell_path, home).push(
                PathEventView::Completed(completion),
            );
            match completion {
                CompletionView::Exited { success: true, .. } => answer_to(ran) == (
                PathActionView::Report { outcome: PathOutcome::Verified, warning: None }),
                CompletionView::Exited { success: false, .. } => {
                    &&& answer_to(ran) == PathActionView::LocateLibrary
                    &&& answer_to(ran.push(PathEventView::Library(Ok(directory)))) == (
                    PathActionView::Report {
                        outcome: PathOutcome::VerifiedButMissing,
                        warning: Some(PathWarningView::NotInSearchPath { directory, shell }),
                    })
                },
                CompletionView::NotStarted { error } => answer_to(ran) == (PathActionView::Report {
                    outcome: PathOutcome::SkippedInconclusive,
                    warning: Some(PathWarningView::ShellNotRunnable { shell, error }),
                }),
            }
        }),
{
    let before = events_until_shell_runs(shell_path, home);
    let ran = before.push(PathEventView::Completed(completion));
    lemma_known_shell_is_run(shell_path, home);
    assert(ran.drop_last() == before);
    let located = ran.push(PathEventView::Library(Ok(directory)));
    assert(located.drop_last() == ran);
}

} // verus!
