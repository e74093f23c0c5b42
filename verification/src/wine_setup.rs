//! Verifies that the installed versions of Wine and yabridge work together.
//!
//! Starting the host binary can take more than a second when no wineserver is
//! running, so a combination that has worked once is remembered, and the host
//! binary is only started again when Wine's version or the binary itself has
//! changed.
//!
//! The check is a state machine. `verify_wine_setup` takes the state and what
//! the caller observed, and answers with the next state and what to do next.

use crate::config::{KnownConfig, KnownConfigView};
use crate::files::{fingerprint_of, hash_file, FileError, FileErrorView, FileOperationView};
use crate::host_output::{diagnose, diagnosis_of, Diagnosis, DiagnosisView};
use crate::process::{Completion, CompletionView, Invocation, InvocationView};
use crate::text::{decode, text_of, trim_line_feed, without_line_feed};
use vstd::prelude::*;

verus! {

/// The files of the host binary: the script that Wine generates to start it,
/// and the library that holds its code.
#[derive(Debug, PartialEq, Eq)]
pub struct HostFiles {
    pub yabridge_host_exe: String,
    pub yabridge_host_exe_so: String,
}

/// `HostFiles` as plain values.
pub struct HostFilesView {
    pub yabridge_host_exe: Seq<char>,
    pub yabridge_host_exe_so: Seq<char>,
}

impl View for HostFiles {
    type V = HostFilesView;

    open spec fn view(&self) -> HostFilesView {
        HostFilesView {
            yabridge_host_exe: self.yabridge_host_exe@,
            yabridge_host_exe_so: self.yabridge_host_exe_so@,
        }
    }
}

/// Why the check could not be made. Each of these ends it.
#[derive(Debug, PartialEq, Eq)]
pub enum WineError {
    /// Wine could not be started.
    WineNotRunnable { wine: String, error: String },
    /// `program` wrote something that is not UTF-8.
    OutputNotUtf8 { program: String },
    /// The host binary is not installed where it is looked for.
    HostNotFound { error: String },
    /// The host binary could not be read.
    HostNotReadable(FileError<String>),
    /// The host binary could not be started.
    HostNotRunnable { path: String, error: String },
    /// The configuration could not be written.
    NotPersisted { error: String },
}

/// A `WineError` as plain values.
pub enum WineErrorView {
    WineNotRunnable { wine: Seq<char>, error: Seq<char> },
    OutputNotUtf8 { program: Seq<char> },
    HostNotFound { error: Seq<char> },
    HostNotReadable(FileErrorView),
    HostNotRunnable { path: Seq<char>, error: Seq<char> },
    NotPersisted { error: Seq<char> },
}

impl View for WineError {
    type V = WineErrorView;

    open spec fn view(&self) -> WineErrorView {
        match self {
            WineError::WineNotRunnable { wine, error } => WineErrorView::WineNotRunnable {
                wine: wine@,
                error: error@,
            },
            WineError::OutputNotUtf8 { program } => WineErrorView::OutputNotUtf8 {
                program: program@,
            },
            WineError::HostNotFound { error } => WineErrorView::HostNotFound { error: error@ },
            WineError::HostNotReadable(error) => WineErrorView::HostNotReadable(error@),
            WineError::HostNotRunnable { path, error } => WineErrorView::HostNotRunnable {
                path: path@,
                error: error@,
            },
            WineError::NotPersisted { error } => WineErrorView::NotPersisted { error: error@ },
        }
    }
}

/// What the user is told when Wine does not run the host binary: the line of
/// output that most likely names the reason, if there was one, and the
/// version of Wine that was tried.
#[derive(Debug, PartialEq, Eq)]
pub struct WineWarning {
    pub last_error: Option<String>,
    pub wine_version: String,
}

/// A `WineWarning` as plain values.
pub struct WineWarningView {
    pub last_error: Option<Seq<char>>,
    pub wine_version: Seq<char>,
}

impl View for WineWarning {
    type V = WineWarningView;

    open spec fn view(&self) -> WineWarningView {
        WineWarningView {
            last_error: self.last_error.deep_view(),
            wine_version: self.wine_version@,
        }
    }
}

/// Where the check stands: what it last asked for.
#[derive(Debug, PartialEq, Eq)]
pub enum WineCheck {
    /// Nothing has been asked yet.
    Start,
    /// Asked for `$WINELOADER`.
    ReadingWineLoader,
    /// Started `wine --version`.
    QueryingVersion { wine: String },
    /// Asked where the host binary is installed.
    LocatingHost { wine_version: String },
    /// Asked for the contents of `yabridge-host.exe.so`.
    ReadingHost { wine_version: String, files: HostFiles },
    /// Started the host binary, to see whether `current` works.
    RunningHost { current: KnownConfig, yabridge_host_exe: String },
    /// Asked for the configuration to be written.
    Persisting,
    /// The check is over.
    Finished,
}

/// A `WineCheck` as plain values.
pub enum WineCheckView {
    Start,
    ReadingWineLoader,
    QueryingVersion { wine: Seq<char> },
    LocatingHost { wine_version: Seq<char> },
    ReadingHost { wine_version: Seq<char>, files: HostFilesView },
    RunningHost { current: KnownConfigView, yabridge_host_exe: Seq<char> },
    Persisting,
    Finished,
}

impl View for WineCheck {
    type V = WineCheckView;

    open spec fn view(&self) -> WineCheckView {
        match self {
            WineCheck::Start => WineCheckView::Start,
            WineCheck::ReadingWineLoader => WineCheckView::ReadingWineLoader,
            WineCheck::QueryingVersion { wine } => WineCheckView::QueryingVersion { wine: wine@ },
            WineCheck::LocatingHost { wine_version } => WineCheckView::LocatingHost {
                wine_version: wine_version@,
            },
            WineCheck::ReadingHost { wine_version, files } => WineCheckView::ReadingHost {
                wine_version: wine_version@,
                files: files@,
            },
            WineCheck::RunningHost { current, yabridge_host_exe } => WineCheckView::RunningHost {
                current: current@,
                yabridge_host_exe: yabridge_host_exe@,
            },
            WineCheck::Persisting => WineCheckView::Persisting,
            WineCheck::Finished => WineCheckView::Finished,
        }
    }
}

/// What the caller has to report.
#[derive(Debug, PartialEq, Eq)]
pub enum WineEvent {
    /// The check is to begin.
    Begin,
    /// The value of the variable asked for, if it is set.
    Variable(Option<String>),
    /// What became of the process.
    Completed(Completion),
    /// The files of the host binary, or why they were not found.
    Located(Result<HostFiles, String>),
    /// The contents of the file asked for, or why it could not be read.
    Contents(Result<Vec<u8>, String>),
    /// Whether the configuration was written, or why it could not be.
    Persisted(Result<(), String>),
}

/// A `WineEvent` as plain values.
pub enum WineEventView {
    Begin,
    Variable(Option<Seq<char>>),
    Completed(CompletionView),
    Located(Result<HostFilesView, Seq<char>>),
    Contents(Result<Seq<u8>, Seq<char>>),
    Persisted(Result<(), Seq<char>>),
}

impl View for WineEvent {
    type V = WineEventView;

    open spec fn view(&self) -> WineEventView {
        match self {
            WineEvent::Begin => WineEventView::Begin,
            WineEvent::Variable(value) => WineEventView::Variable(value.deep_view()),
            WineEvent::Completed(completion) => WineEventView::Completed(completion@),
            WineEvent::Located(Ok(files)) => WineEventView::Located(Ok(files@)),
            WineEvent::Located(Err(error)) => WineEventView::Located(Err(error@)),
            WineEvent::Contents(Ok(bytes)) => WineEventView::Contents(Ok(bytes@)),
            WineEvent::Contents(Err(error)) => WineEventView::Contents(Err(error@)),
            WineEvent::Persisted(Ok(())) => WineEventView::Persisted(Ok(())),
            WineEvent::Persisted(Err(error)) => WineEventView::Persisted(Err(error@)),
        }
    }
}

/// What the caller is to do next.
#[derive(Debug, PartialEq, Eq)]
pub enum WineAction {
    /// Read the environment variable `name`, and answer with `Variable`.
    ReadVariable { name: String },
    /// Run the process, and answer with `Completed`.
    Run(Invocation),
    /// Find the files of the host binary, and answer with `Located`.
    LocateHost,
    /// Read all of the file at `path`, and answer with `Contents`.
    ReadFile { path: String },
    /// Write the configuration with the record of the verified combination
    /// in it, all of it or nothing, and answer with `Persisted`.
    Persist,
    /// The check is over. Show the warning, if there is one.
    Report { warning: Option<WineWarning> },
    /// The check is over with an error.
    Fail(WineError),
    /// The event does not answer what was asked. The state is as it was.
    Reject,
}

/// A `WineAction` as plain values.
pub enum WineActionView {
    ReadVariable { name: Seq<char> },
    Run(InvocationView),
    LocateHost,
    ReadFile { path: Seq<char> },
    Persist,
    Report { warning: Option<WineWarningView> },
    Fail(WineErrorView),
    Reject,
}

impl View for WineAction {
    type V = WineActionView;

    open spec fn view(&self) -> WineActionView {
        match self {
            WineAction::ReadVariable { name } => WineActionView::ReadVariable { name: name@ },
            WineAction::Run(invocation) => WineActionView::Run(invocation@),
            WineAction::LocateHost => WineActionView::LocateHost,
            WineAction::ReadFile { path } => WineActionView::ReadFile { path: path@ },
            WineAction::Persist => WineActionView::Persist,
            WineAction::Report { warning: None } => WineActionView::Report { warning: None },
            WineAction::Report { warning: Some(warning) } => WineActionView::Report {
                warning: Some(warning@),
            },
            WineAction::Fail(error) => WineActionView::Fail(error@),
            WineAction::Reject => WineActionView::Reject,
        }
    }
}

/// The record that a configuration holds, as plain values.
pub open spec fn known_view(known: Option<KnownConfig>) -> Option<KnownConfigView> {
    match known {
        Some(known) => Some(known@),
        None => None,
    }
}

/// A process that runs `program` with `args` in the caller's environment and
/// whose output is kept.
pub open spec fn captured(program: Seq<char>, args: Seq<Seq<char>>) -> InvocationView {
    InvocationView { program, arg0: None, args, environment: None, capture_output: true }
}

/// The result of one step: the record that the configuration holds after it,
/// the next state, and what the caller is to do.
pub struct WineStep {
    pub known: Option<KnownConfigView>,
    pub state: WineCheckView,
    pub action: WineActionView,
}

/// The end of the check with an error. Nothing is recorded.
pub open spec fn fail(known: Option<KnownConfigView>, error: WineErrorView) -> WineStep {
    WineStep { known, state: WineCheckView::Finished, action: WineActionView::Fail(error) }
}

/// The end of the check without an error. Nothing is recorded.
pub open spec fn report(known: Option<KnownConfigView>, warning: Option<WineWarningView>)
    -> WineStep {
    WineStep { known, state: WineCheckView::Finished, action: WineActionView::Report { warning } }
}

/// One step of the check, for a configuration that holds the record `known`.
///
/// Wine is asked for its version and the host binary is fingerprinted. If the
/// two are what `known` holds, the check is over. Only otherwise is the host
/// binary started; if it prints its usage string, the pair becomes the new
/// record and the configuration is written. In no other case does the record
/// change.
pub open spec fn wine_step(known: Option<KnownConfigView>, state: WineCheckView, event: WineEventView)
    -> WineStep {
    match (state, event) {
        (WineCheckView::Start, WineEventView::Begin) => WineStep {
            known,
            state: WineCheckView::ReadingWineLoader,
            action: WineActionView::ReadVariable { name: "WINELOADER"@ },
        },
        (WineCheckView::ReadingWineLoader, WineEventView::Variable(value)) => {
            let wine = match value {
                Some(wine) => wine,
                None => "wine"@,
            };
            WineStep {
                known,
                state: WineCheckView::QueryingVersion { wine },
                action: WineActionView::Run(captured(wine, seq!["--version"@])),
            }
        },
        (WineCheckView::QueryingVersion { wine }, WineEventView::Completed(completion)) => {
            match completion {
                CompletionView::NotStarted { error } => fail(
                    known,
                    WineErrorView::WineNotRunnable { wine, error },
                ),
                CompletionView::Exited { stdout, .. } => match text_of(stdout) {
                    None => fail(known, WineErrorView::OutputNotUtf8 { program: wine }),
                    Some(output) => WineStep {
                        known,
                        state: WineCheckView::LocatingHost {
                            wine_version: without_line_feed(output),
                        },
                        action: WineActionView::LocateHost,
                    },
                },
            }
        },
        (WineCheckView::LocatingHost { wine_version }, WineEventView::Located(found)) => {
            match found {
                Err(error) => fail(known, WineErrorView::HostNotFound { error }),
                Ok(files) => WineStep {
                    known,
                    state: WineCheckView::ReadingHost { wine_version, files },
                    action: WineActionView::ReadFile { path: files.yabridge_host_exe_so },
                },
            }
        },
        (WineCheckView::ReadingHost { wine_version, files }, WineEventView::Contents(contents)) => {
            match contents {
                Err(cause) => fail(
                    known,
                    WineErrorView::HostNotReadable(
                        FileErrorView {
                            operation: FileOperationView::Read { path: files.yabridge_host_exe_so },
                            cause,
                        },
                    ),
                ),
                Ok(bytes) => {
                    let current = KnownConfigView {
                        wine_version,
                        yabridge_host_hash: fingerprint_of(bytes),
                    };
                    if known == Some(current) {
                        report(known, None)
                    } else {
                        WineStep {
                            known,
                            state: WineCheckView::RunningHost {
                                current,
                                yabridge_host_exe: files.yabridge_host_exe,
                            },
                            action: WineActionView::Run(
                                captured(files.yabridge_host_exe, Seq::empty()),
                            ),
                        }
                    }
                },
            }
        },
        (
            WineCheckView::RunningHost { current, yabridge_host_exe },
            WineEventView::Completed(completion),
        ) => {
            match completion {
                CompletionView::NotStarted { error } => fail(
                    known,
                    WineErrorView::HostNotRunnable { path: yabridge_host_exe, error },
                ),
                CompletionView::Exited { stderr, .. } => match text_of(stderr) {
                    None => fail(known, WineErrorView::OutputNotUtf8 { program: yabridge_host_exe }),
                    Some(output) => match diagnosis_of(output) {
                        DiagnosisView::Success => WineStep {
                            known: Some(current),
                            state: WineCheckView::Persisting,
                            action: WineActionView::Persist,
                        },
                        DiagnosisView::Failure { last_error } => report(
                            known,
                            Some(
                                WineWarningView { last_error, wine_version: current.wine_version },
                            ),
                        ),
                    },
                },
            }
        },
        (WineCheckView::Persisting, WineEventView::Persisted(written)) => match written {
            Ok(_) => report(known, None),
            Err(error) => fail(known, WineErrorView::NotPersisted { error }),
        },
        (state, _) => WineStep { known, state, action: WineActionView::Reject },
    }
}

/// Takes the check one step further: from where it stands and what the
/// caller observed to where it stands next and what the caller is to do. The
/// check begins in `WineCheck::Start` with `WineEvent::Begin`, and is over
/// with the first `Report` or `Fail`.
///
/// `last_known_config` is the record in the configuration that the check is
/// run for. It is replaced when a new combination has been verified, right
/// before the caller is asked to write the configuration.
pub fn verify_wine_setup(
    last_known_config: &mut Option<KnownConfig>,
    state: WineCheck,
    event: WineEvent,
) -> (next: (WineCheck, WineAction))
    ensures
        (WineStep {
            known: known_view(*final(last_known_config)),
            state: next.0@,
            action: next.1@,
        }) == wine_step(known_view(*old(last_known_config)), state@, event@),
{
    match (state, event) {
        (WineCheck::Start, WineEvent::Begin) => (
            WineCheck::ReadingWineLoader,
            WineAction::ReadVariable { name: "WINELOADER".to_owned() },
        ),
        (WineCheck::ReadingWineLoader, WineEvent::Variable(value)) => {
            // The scripts that Wine generates respect `$WINELOADER`, so the
            // check does too
            let wine = match value {
                Some(wine) => wine,
                None => "wine".to_owned(),
            };
            let mut args: Vec<String> = Vec::new();
            args.push("--version".to_owned());
            let probe = capture(wine.clone(), args);
            assert(probe@.args =~= seq!["--version"@]);
            (WineCheck::QueryingVersion { wine }, WineAction::Run(probe))
        },
        (WineCheck::QueryingVersion { wine }, WineEvent::Completed(completion)) => {
            match completion {
                Completion::NotStarted { error } => (
                    WineCheck::Finished,
                    WineAction::Fail(WineError::WineNotRunnable { wine, error }),
                ),
                Completion::Exited { stdout, .. } => match decode(stdout) {
                    None => (
                        WineCheck::Finished,
                        WineAction::Fail(WineError::OutputNotUtf8 { program: wine }),
                    ),
                    Some(output) => (
                        WineCheck::LocatingHost { wine_version: trim_line_feed(output) },
                        WineAction::LocateHost,
                    ),
                },
            }
        },
        (WineCheck::LocatingHost { wine_version }, WineEvent::Located(found)) => match found {
            Err(error) => (
                WineCheck::Finished,
                WineAction::Fail(WineError::HostNotFound { error }),
            ),
            Ok(files) => {
                // `yabridge-host.exe` is only a script that Wine generated,
                // the code is in `yabridge-host.exe.so`
                let path = files.yabridge_host_exe_so.clone();
                (WineCheck::ReadingHost { wine_version, files }, WineAction::ReadFile { path })
            },
        },
        (WineCheck::ReadingHost { wine_version, files }, WineEvent::Contents(contents)) => {
            match hash_file(files.yabridge_host_exe_so.as_str(), contents) {
                Err(error) => (
                    WineCheck::Finished,
                    WineAction::Fail(WineError::HostNotReadable(error)),
                ),
                Ok(yabridge_host_hash) => {
                    let current = KnownConfig { wine_version, yabridge_host_hash };
                    let unchanged = match last_known_config {
                        Some(known) => *known == current,
                        None => false,
                    };
                    if unchanged {
                        (WineCheck::Finished, WineAction::Report { warning: None })
                    } else {
                        let probe = capture(files.yabridge_host_exe.clone(), Vec::new());
                        assert(probe@.args =~= Seq::<Seq<char>>::empty());
                        (
                            WineCheck::RunningHost {
                                current,
                                yabridge_host_exe: files.yabridge_host_exe,
                            },
                            WineAction::Run(probe),
                        )
                    }
                },
            }
        },
        (
            WineCheck::RunningHost { current, yabridge_host_exe },
            WineEvent::Completed(completion),
        ) => {
            match completion {
                Completion::NotStarted { error } => (
                    WineCheck::Finished,
                    WineAction::Fail(WineError::HostNotRunnable { path: yabridge_host_exe, error }),
                ),
                Completion::Exited { stderr, .. } => match decode(stderr) {
                    None => (
                        WineCheck::Finished,
                        WineAction::Fail(WineError::OutputNotUtf8 { program: yabridge_host_exe }),
                    ),
                    Some(output) => match diagnose(output.as_str()) {
                        Diagnosis::Success => {
                            *last_known_config = Some(current);
                            (WineCheck::Persisting, WineAction::Persist)
                        },
                        Diagnosis::Failure { last_error } => (
                            WineCheck::Finished,
                            WineAction::Report {
                                warning: Some(
                                    WineWarning { last_error, wine_version: current.wine_version },
                                ),
                            },
                        ),
                    },
                },
            }
        },
        (WineCheck::Persisting, WineEvent::Persisted(written)) => match written {
            Ok(_) => (WineCheck::Finished, WineAction::Report { warning: None }),
            Err(error) => (WineCheck::Finished, WineAction::Fail(WineError::NotPersisted { error })),
        },
        (state, _) => (state, WineAction::Reject),
    }
}

/// Describes a process whose output is kept.
fn capture(program: String, args: Vec<String>) -> (invocation: Invocation)
    ensures
        invocation@ == captured(program@, args.deep_view()),
{
    Invocation { program, arg0: None, args, environment: None, capture_output: true }
}

/// The host binary is started if and only if the pair at hand differs from
/// the recorded one, in Wine's version, in the fingerprint, or in both. There
/// being no record counts as a difference. A pair that is the recorded one
/// ends the check, and the record stays as it is either way.
pub proof fn lemma_host_runs_iff_changed(
    known: Option<KnownConfigView>,
    wine_version: Seq<char>,
    files: HostFilesView,
    contents: Seq<u8>,
)
    ensures
        ({
            let hash = fingerprint_of(contents);
            let step = wine_step(
                known,
                WineCheckView::ReadingHost { wine_version, files },
                WineEventView::Contents(Ok(contents)),
            );
            let same = known matches Some(known) && known.wine_version == wine_version
                && known.yabridge_host_hash == hash;
            &&& step.known == known
            &&& same ==> step.state == WineCheckView::Finished && step.action == (
            WineActionView::Report { warning: None })
            &&& !same ==> step.state == (WineCheckView::RunningHost {
                current: KnownConfigView { wine_version, yabridge_host_hash: hash },
                yabridge_host_exe: files.yabridge_host_exe,
            }) && step.action == WineActionView::Run(
                captured(files.yabridge_host_exe, Seq::empty()),
            )
        }),
{
}

/// Only two steps start a process: the one that asks Wine for its version,
/// and the one that found the pair at hand to differ from the record. The
/// latter is the only one that starts the host binary.
pub proof fn lemma_what_is_run(
    known: Option<KnownConfigView>,
    state: WineCheckView,
    event: WineEventView,
)
    requires
        wine_step(known, state, event).action is Run,
    ensures
        match state {
            WineCheckView::ReadingWineLoader => wine_step(known, state, event).action->Run_0.args
                == seq!["--version"@],
            WineCheckView::ReadingHost { wine_version, files } => {
                &&& event matches WineEventView::Contents(Ok(contents))
                &&& known != Some(
                    KnownConfigView { wine_version, yabridge_host_hash: fingerprint_of(contents) },
                )
                &&& wine_step(known, state, event).action == WineActionView::Run(
                    captured(files.yabridge_host_exe, Seq::empty()),
                )
            },
            _ => false,
        },
{
}

/// The record is replaced in one step only: when the host binary has printed
/// its usage string. It is then replaced as a whole by the pair that was
/// tried, and the configuration is to be written next. A check that fails or
/// ends in an error leaves the record alone.
pub proof fn lemma_record_changes_on_success_only(
    known: Option<KnownConfigView>,
    state: WineCheckView,
    event: WineEventView,
)
    ensures
        ({
            let step = wine_step(known, state, event);
            &&& step.action is Persist ==> state is RunningHost && step.known == Some(
                state->current,
            )
            &&& !(step.action is Persist) ==> step.known == known
        }),
{
}

/// Recording a verified pair twice is the same as recording it once: the
/// second success leaves the record as the first one made it. And with the
/// pair on record, the next check of the same Wine and host binary ends
/// without the host binary being started.
pub proof fn lemma_recording_is_idempotent(
    known: Option<KnownConfigView>,
    current: KnownConfigView,
    files: HostFilesView,
    completion: CompletionView,
    contents: Seq<u8>,
)
    requires
        wine_step(
            known,
            WineCheckView::RunningHost { current, yabridge_host_exe: files.yabridge_host_exe },
            WineEventView::Completed(completion),
        ).action is Persist,
        fingerprint_of(contents) == current.yabridge_host_hash,
    ensures
        ({
            let running = WineCheckView::RunningHost {
                current,
                yabridge_host_exe: files.yabridge_host_exe,
            };
            let once = wine_step(known, running, WineEventView::Completed(completion));
            let twice = wine_step(once.known, running, WineEventView::Completed(completion));
            let again = wine_step(
                once.known,
                WineCheckView::ReadingHost { wine_version: current.wine_version, files },
                WineEventView::Contents(Ok(contents)),
            );
            &&& once.known == Some(current)
            &&& twice == once
            &&& again.known == once.known
            &&& again.action == (WineActionView::Report { warning: None })
        }),
{
}

} // verus!
