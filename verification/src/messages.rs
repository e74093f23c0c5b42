//! The words in which the checks speak to the user.

use crate::files::failure_message;
use crate::path_setup::{PathWarning, PathWarningView};
use crate::terminal::{highlight, sets_off, wrap, wrapped, MAX_TERMINAL_WIDTH};
use crate::text::{strip_prefix, without_prefix};
use crate::wine_setup::{WineError, WineErrorView, WineWarning, WineWarningView};
use vstd::prelude::*;
use vstd::string::*;

verus! {

/// The text of a warning of the search path check. `shell` and `variable`
/// are the name of the shell and the word `PATH` as they are to be shown.
pub open spec fn path_warning_text(
    warning: PathWarningView,
    shell: Seq<char>,
    variable: Seq<char>,
) -> Seq<char> {
    match warning {
        PathWarningView::NoLoginShell =>
            "Warning: Could not determine login shell, skipping PATH setup check"@,
        PathWarningView::UnknownShell { .. } =>
            "WARNING: Yabridgectl does not know how to handle your login shell '"@ + shell
            + "', skipping PATH environment variable check. Feel free to open a feature request in order to get yabridgectl to support your shell.\n\nhttps://github.com/robbert-vdh/yabridge/issues"@,
        PathWarningView::NotInSearchPath { directory, .. } =>
            "Warning: 'yabridge-host.exe' is not present in your login shell's search path. Yabridge won't be able to run using the copy-based installation method until this is fixed.\nAdd '"@
            + directory + "' to "@ + shell + "'s login shell "@ + variable
            + " environment variable. See the troubleshooting section of the readme for more details. Rerun this command to verify that the variable has been set correctly, and then reboot your system to complete the setup.\n\nhttps://github.com/robbert-vdh/yabridge#troubleshooting-common-issues"@,
        PathWarningView::ShellNotRunnable { error, .. } => "Warning: could not run "@ + shell
            + " as a login shell, skipping PATH setup check: "@ + error,
    }
}

/// The name of the shell that `warning` is about, if it is about one.
pub open spec fn shell_of(warning: PathWarningView) -> Seq<char> {
    match warning {
        PathWarningView::NoLoginShell => Seq::empty(),
        PathWarningView::UnknownShell { shell } => shell,
        PathWarningView::NotInSearchPath { shell, .. } => shell,
        PathWarningView::ShellNotRunnable { shell, .. } => shell,
    }
}

/// Puts the text of `warning` together from its parts.
pub fn compose_path_warning(warning: &PathWarning, shell: &str, variable: &str) -> (text: String)
    ensures
        text@ == path_warning_text(warning@, shell@, variable@),
{
    match warning {
        PathWarning::NoLoginShell =>
            "Warning: Could not determine login shell, skipping PATH setup check".to_owned(),
        PathWarning::UnknownShell { .. } =>
            "WARNING: Yabridgectl does not know how to handle your login shell '".to_owned().concat(
                shell,
            ).concat(
                "', skipping PATH environment variable check. Feel free to open a feature request in order to get yabridgectl to support your shell.\n\nhttps://github.com/robbert-vdh/yabridge/issues",
            ),
        PathWarning::NotInSearchPath { directory, .. } =>
            "Warning: 'yabridge-host.exe' is not present in your login shell's search path. Yabridge won't be able to run using the copy-based installation method until this is fixed.\nAdd '".to_owned().concat(
                directory.as_str(),
            ).concat("' to ").concat(shell).concat("'s login shell ").concat(variable).concat(
                " environment variable. See the troubleshooting section of the readme for more details. Rerun this command to verify that the variable has been set correctly, and then reboot your system to complete the setup.\n\nhttps://github.com/robbert-vdh/yabridge#troubleshooting-common-issues",
            ),
        PathWarning::ShellNotRunnable { error, .. } => "Warning: could not run ".to_owned().concat(
            shell,
        ).concat(" as a login shell, skipping PATH setup check: ").concat(error.as_str()),
    }
}

/// Whether `shown` is `warning` as the terminal may show it: its text, with
/// the shell's name and the word `PATH` set off, wrapped to the width of some
/// terminal. The one warning that is about no shell is a single short line
/// and is shown as it is.
pub open spec fn shows_path_warning(shown: Seq<char>, warning: PathWarningView) -> bool {
    if warning is NoLoginShell {
        shown == path_warning_text(warning, Seq::empty(), Seq::empty())
    } else {
        exists|shell: Seq<char>, variable: Seq<char>, width: usize|
            #![trigger wrapped(path_warning_text(warning, shell, variable), width as int)]
            {
                &&& width <= MAX_TERMINAL_WIDTH
                &&& sets_off(shell, shell_of(warning))
                &&& sets_off(variable, "PATH"@)
                &&& shown == wrapped(path_warning_text(warning, shell, variable), width as int)
            }
    }
}

impl PathWarning {
    /// The warning as it is printed.
    pub fn render(&self) -> (shown: String)
        ensures
            shows_path_warning(shown@, self@),
    {
        let shell = match self {
            PathWarning::NoLoginShell => {
                let text = compose_path_warning(self, "", "");
                proof {
                    reveal_strlit("");
                }
                return text;
            },
            PathWarning::UnknownShell { shell } => highlight(shell.as_str()),
            PathWarning::NotInSearchPath { shell, .. } => highlight(shell.as_str()),
            PathWarning::ShellNotRunnable { shell, .. } => highlight(shell.as_str()),
        };
        let variable = highlight("PATH");
        let text = compose_path_warning(self, shell.as_str(), variable.as_str());
        let shown = wrap(text.as_str());
        shown
    }
}

/// The text of the warning that Wine did not run the host binary. `error`
/// and `version` are the line that Wine printed and its version as they are
/// to be shown.
pub open spec fn wine_warning_text(error: Seq<char>, version: Seq<char>) -> Seq<char> {
    "Warning: Could not run 'yabridge-host.exe'. Wine reported the following error: \n\n"@ + error
        + "\n\nThis can happen when using a version of Wine that is much older than the version that has been used to compile yabridge with. Your current Wine version is '"@
        + version
        + "'. See the troubleshooting section of the readme for more information on how to upgrade your installation of Wine.\n\nhttps://github.com/robbert-vdh/yabridge#troubleshooting-common-issues"@
}

/// The line that `warning` gives as Wine's error, or a word that stands for
/// it where Wine printed nothing of use.
pub open spec fn reported_error(warning: WineWarningView) -> Seq<char> {
    match warning.last_error {
        Some(line) => line,
        None => "<no_output>"@,
    }
}

/// The version that `warning` gives as Wine's: what `wine --version` printed
/// without the `wine-` it starts with.
pub open spec fn reported_version(warning: WineWarningView) -> Seq<char> {
    without_prefix(warning.wine_version, "wine-"@)
}

/// Puts the text of the warning together from its parts.
pub fn compose_wine_warning(error: &str, version: &str) -> (text: String)
    ensures
        text@ == wine_warning_text(error@, version@),
{
    "Warning: Could not run 'yabridge-host.exe'. Wine reported the following error: \n\n".to_owned()
        .concat(error).concat(
        "\n\nThis can happen when using a version of Wine that is much older than the version that has been used to compile yabridge with. Your current Wine version is '",
    ).concat(version).concat(
        "'. See the troubleshooting section of the readme for more information on how to upgrade your installation of Wine.\n\nhttps://github.com/robbert-vdh/yabridge#troubleshooting-common-issues",
    )
}

/// Whether `shown` is `warning` as the terminal may show it: its text, with
/// Wine's error and version set off, wrapped to the width of some terminal.
pub open spec fn shows_wine_warning(shown: Seq<char>, warning: WineWarningView) -> bool {
    exists|error: Seq<char>, version: Seq<char>, width: usize|
        #![trigger wrapped(wine_warning_text(error, version), width as int)]
        {
            &&& width <= MAX_TERMINAL_WIDTH
            &&& sets_off(error, reported_error(warning))
            &&& sets_off(version, reported_version(warning))
            &&& shown == wrapped(wine_warning_text(error, version), width as int)
        }
}

impl WineWarning {
    /// The warning as it is printed.
    pub fn render(&self) -> (shown: String)
        ensures
            shows_wine_warning(shown@, self@),
    {
        let error = match &self.last_error {
            Some(line) => highlight(line.as_str()),
            None => highlight("<no_output>"),
        };
        let version = highlight(strip_prefix(self.wine_version.as_str(), "wine-"));
        let text = compose_wine_warning(error.as_str(), version.as_str());
        let shown = wrap(text.as_str());
        shown
    }
}

/// What the user reads when the check ends with `error`: what was attempted,
/// and on which program or file.
pub open spec fn wine_error_message(error: WineErrorView) -> Seq<char> {
    match error {
        WineErrorView::WineNotRunnable { wine, .. } => "Could not run '"@ + wine
            + "', make sure Wine is installed"@,
        WineErrorView::OutputNotUtf8 { program } => "The output of '"@ + program
            + "' is not valid UTF-8"@,
        WineErrorView::HostNotFound { .. } => "Could not find 'yabridge-host.exe'"@,
        WineErrorView::HostNotReadable(error) => failure_message(error.operation),
        WineErrorView::HostNotRunnable { path, .. } => "Could not run '"@ + path + "'"@,
        WineErrorView::NotPersisted { error } => error,
    }
}

/// The reason that came with `error` from the system, where there is one
/// besides the message.
pub open spec fn wine_error_cause(error: WineErrorView) -> Option<Seq<char>> {
    match error {
        WineErrorView::WineNotRunnable { error, .. } => Some(error),
        WineErrorView::OutputNotUtf8 { .. } => None,
        WineErrorView::HostNotFound { error } => Some(error),
        WineErrorView::HostNotReadable(error) => Some(error.cause),
        WineErrorView::HostNotRunnable { error, .. } => Some(error),
        WineErrorView::NotPersisted { .. } => None,
    }
}

impl WineError {
    /// The message for this error.
    pub fn message(&self) -> (message: String)
        ensures
            message@ == wine_error_message(self@),
    {
        match self {
            WineError::WineNotRunnable { wine, .. } => "Could not run '".to_owned().concat(
                wine.as_str(),
            ).concat("', make sure Wine is installed"),
            WineError::OutputNotUtf8 { program } => "The output of '".to_owned().concat(
                program.as_str(),
            ).concat("' is not valid UTF-8"),
            WineError::HostNotFound { .. } => "Could not find 'yabridge-host.exe'".to_owned(),
            WineError::HostNotReadable(error) => error.operation.failure_message(),
            WineError::HostNotRunnable { path, .. } => "Could not run '".to_owned().concat(
                path.as_str(),
            ).concat("'"),
            WineError::NotPersisted { error } => error.clone(),
        }
    }

    /// The reason behind this error, as the system gave it.
    pub fn cause(&self) -> (cause: Option<String>)
        ensures
            cause.deep_view() == wine_error_cause(self@),
    {
        match self {
            WineError::WineNotRunnable { error, .. } => Some(error.clone()),
            WineError::OutputNotUtf8 { .. } => None,
            WineError::HostNotFound { error } => Some(error.clone()),
            WineError::HostNotReadable(error) => Some(error.cause.clone()),
            WineError::HostNotRunnable { error, .. } => Some(error.clone()),
            WineError::NotPersisted { .. } => None,
        }
    }
}

} // verus!
