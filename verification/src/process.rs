//! Processes, as the checks describe them to whoever starts them, and what
//! comes back from a run.

use vstd::prelude::*;

verus! {

/// A process to start. The one who starts it waits for it to end.
#[derive(Debug, PartialEq, Eq)]
pub struct Invocation {
    /// The program to run.
    pub program: String,
    /// The name the process is given as its `argv[0]`, where that is not
    /// `program` itself.
    pub arg0: Option<String>,
    /// The arguments after `argv[0]`.
    pub args: Vec<String>,
    /// `Some`: the process starts with these variables and no others.
    /// `None`: it inherits the environment of the one who starts it.
    pub environment: Option<Vec<(String, String)>>,
    /// Whether what the process writes is kept. If not, both of its output
    /// streams are discarded and only the exit status is looked at.
    pub capture_output: bool,
}

/// An `Invocation` as plain values.
pub struct InvocationView {
    pub program: Seq<char>,
    pub arg0: Option<Seq<char>>,
    pub args: Seq<Seq<char>>,
    pub environment: Option<Seq<(Seq<char>, Seq<char>)>>,
    pub capture_output: bool,
}

impl View for Invocation {
    type V = InvocationView;

    open spec fn view(&self) -> InvocationView {
        InvocationView {
            program: self.program@,
            arg0: self.arg0.deep_view(),
            args: self.args.deep_view(),
            environment: self.environment.deep_view(),
            capture_output: self.capture_output,
        }
    }
}

/// What became of a process.
#[derive(Debug, PartialEq, Eq)]
pub enum Completion {
    /// The process could not be started. `error` says why.
    NotStarted { error: String },
    /// The process ran and ended. `success` is whether its exit status was
    /// zero. The two streams are empty unless output was captured.
    Exited { success: bool, stdout: Vec<u8>, stderr: Vec<u8> },
}

/// A `Completion` as plain values.
pub enum CompletionView {
    NotStarted { error: Seq<char> },
    Exited { success: bool, stdout: Seq<u8>, stderr: Seq<u8> },
}

impl View for Completion {
    type V = CompletionView;

    open spec fn view(&self) -> CompletionView {
        match self {
            Completion::NotStarted { error } => CompletionView::NotStarted { error: error@ },
            Completion::Exited { success, stdout, stderr } => CompletionView::Exited {
                success: *success,
                stdout: stdout@,
                stderr: stderr@,
            },
        }
    }
}

} // verus!
