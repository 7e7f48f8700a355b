//! The shell invoker's interface as plain values: what is to be run, and
//! what came of running it.
//!
//! The engine never starts a process. It describes one as an [`Invocation`],
//! and is told what happened as an [`Outcome`].

use crate::utils::status::Status;
use crate::utils::text::{contains, str_contains};
use vstd::prelude::*;
use vstd::string::*;

verus! {

/// What marks, in the error text of a failed command, that the interpreter
/// could not find it.
pub const NOT_FOUND_MARKER: &'static str = "command not found";

/// The message of [`CommandError::NotFound`].
pub const COMMAND_NOT_FOUND: &'static str = "Command not found";

/// The message of [`CommandError::ExecutionFailed`].
pub const COMMAND_EXECUTION_FAILED: &'static str = "Command execution failed";

/// A process to be started: a program and its arguments, and whether it
/// shares the terminal (attached) or has its output collected (captured).
#[derive(PartialEq, Eq, Debug)]
pub struct Invocation {
    pub program: String,
    pub args: Vec<String>,
    pub attached: bool,
}

/// An [`Invocation`] as a mathematical value.
pub struct InvocationView {
    pub program: Seq<char>,
    pub args: Seq<Seq<char>>,
    pub attached: bool,
}

impl View for Invocation {
    type V = InvocationView;

    open spec fn view(&self) -> InvocationView {
        InvocationView {
            program: self.program@,
            args: self.args@.map_values(|arg: String| arg@),
            attached: self.attached,
        }
    }
}

/// The invocation that hands `line` to `interpreter` as one string to run:
/// the line is the single argument after `-c`, never split.
pub open spec fn shell_line(interpreter: Seq<char>, line: Seq<char>, attached: bool)
    -> InvocationView {
    InvocationView { program: interpreter, args: seq!["-c"@, line], attached }
}

/// The probe of an idempotency check: the check's line, run by the baseline
/// shell whatever shell the unit itself uses, with its output collected.
pub open spec fn probe_of(check: Seq<char>) -> InvocationView {
    shell_line("sh"@, check, false)
}

/// The view of an invocation that may be absent.
pub open spec fn invocation_view(invocation: Option<Invocation>) -> Option<InvocationView> {
    match invocation {
        Some(invocation) => Some(invocation@),
        None => None,
    }
}

impl Invocation {
    /// The invocation that hands `line` to `interpreter` as one string to run.
    pub fn shell_line(interpreter: String, line: &str, attached: bool) -> (invocation: Invocation)
        ensures
            invocation@ == shell_line(interpreter@, line@, attached),
    {
        let mut args: Vec<String> = Vec::new();
        args.push("-c".to_owned());
        args.push(line.to_owned());
        assert(args@.map_values(|arg: String| arg@) =~= seq!["-c"@, line@]);
        Invocation { program: interpreter, args, attached }
    }

    /// The probe of an idempotency check.
    pub fn probe(check: &str) -> (invocation: Invocation)
        ensures
            invocation@ == probe_of(check@),
    {
        Invocation::shell_line("sh".to_owned(), check, false)
    }
}

/// What a process that ran to its end left behind.
#[derive(PartialEq, Eq, Debug)]
pub struct Output {
    /// The exit code; none where a signal ended the process.
    pub code: Option<i32>,
    /// What the process wrote to its output stream; empty where it was attached.
    pub stdout: String,
    /// What the process wrote to its error stream; empty where it was attached.
    pub stderr: String,
}

/// An [`Output`] as a mathematical value.
pub struct OutputView {
    pub code: Option<i32>,
    pub stdout: Seq<char>,
    pub stderr: Seq<char>,
}

impl View for Output {
    type V = OutputView;

    open spec fn view(&self) -> OutputView {
        OutputView { code: self.code, stdout: self.stdout@, stderr: self.stderr@ }
    }
}

/// What came of an invocation.
#[derive(PartialEq, Eq, Debug)]
pub enum Outcome {
    /// The process was started and ran to its end.
    Completed(Output),
    /// The process could not be started; the text says why.
    SpawnFailed(String),
}

/// An [`Outcome`] as a mathematical value.
pub enum OutcomeView {
    Completed(OutputView),
    SpawnFailed(Seq<char>),
}

impl View for Outcome {
    type V = OutcomeView;

    open spec fn view(&self) -> OutcomeView {
        match self {
            Outcome::Completed(output) => OutcomeView::Completed(output@),
            Outcome::SpawnFailed(reason) => OutcomeView::SpawnFailed(reason@),
        }
    }
}

/// Why a command failed, for diagnostics only: no decision rests on it.
#[derive(Clone, Copy, PartialEq, Eq, Structural, Debug)]
pub enum CommandError {
    /// The interpreter could not find the command.
    NotFound,
    /// Anything else.
    ExecutionFailed,
}

impl OutcomeView {
    /// The process ran to its end and left with exit code 0.
    pub open spec fn succeeded(self) -> bool {
        self matches OutcomeView::Completed(output) && output.code == Some(0i32)
    }

    /// An idempotency probe with this outcome found its check satisfied: it
    /// exited with code 0 and wrote something to its output.
    pub open spec fn satisfies_check(self) -> bool {
        self matches OutcomeView::Completed(output) && output.code == Some(0i32)
            && output.stdout.len() > 0
    }

    /// The status of a payload with this outcome: `Success` for exit code 0,
    /// `Failure` for any other code, for an end by signal, and where the
    /// process could not be started.
    pub open spec fn status(self) -> Status {
        if self.succeeded() {
            Status::Success
        } else {
            Status::Failure
        }
    }

    /// The text in which a failure explains itself: the error stream of a
    /// process that ran, or the reason why none was started.
    pub open spec fn error_text(self) -> Seq<char> {
        match self {
            OutcomeView::Completed(output) => output.stderr,
            OutcomeView::SpawnFailed(reason) => reason,
        }
    }

    /// Why the command failed, if it did.
    pub open spec fn diagnosis(self) -> Option<CommandError> {
        if self.succeeded() {
            None
        } else {
            Some(classify(self.error_text()))
        }
    }
}

/// The kind of failure that an error text speaks of: not-found where the
/// text holds the marker, a failed execution otherwise.
pub open spec fn classify(stderr: Seq<char>) -> CommandError {
    if contains(stderr, NOT_FOUND_MARKER@) {
        CommandError::NotFound
    } else {
        CommandError::ExecutionFailed
    }
}

impl CommandError {
    pub open spec fn spec_message(self) -> Seq<char> {
        match self {
            CommandError::NotFound => COMMAND_NOT_FOUND@,
            CommandError::ExecutionFailed => COMMAND_EXECUTION_FAILED@,
        }
    }

    /// The kind of failure that an error text speaks of.
    pub fn classify(stderr: &str) -> (error: CommandError)
        ensures
            error == classify(stderr@),
    {
        if str_contains(stderr, NOT_FOUND_MARKER) {
            CommandError::NotFound
        } else {
            CommandError::ExecutionFailed
        }
    }

    /// The error in words.
    pub fn message(&self) -> (message: &'static str)
        ensures
            message@ == self.spec_message(),
    {
        match self {
            CommandError::NotFound => COMMAND_NOT_FOUND,
            CommandError::ExecutionFailed => COMMAND_EXECUTION_FAILED,
        }
    }

    /// The error in words.
    pub fn to_string(&self) -> (message: String)
        ensures
            message@ == self.spec_message(),
    {
        self.message().to_owned()
    }
}

impl Outcome {
    /// An outcome of a process that exited with `code`, having written
    /// `stdout` and `stderr`.
    pub fn exited(code: i32, stdout: &str, stderr: &str) -> (outcome: Outcome)
        ensures
            outcome@ == OutcomeView::Completed(
                OutputView { code: Some(code), stdout: stdout@, stderr: stderr@ },
            ),
    {
        Outcome::Completed(
            Output { code: Some(code), stdout: stdout.to_owned(), stderr: stderr.to_owned() },
        )
    }

    /// Whether the process ran to its end and left with exit code 0.
    pub fn succeeded(&self) -> (ok: bool)
        ensures
            ok == self@.succeeded(),
    {
        match self {
            Outcome::Completed(output) => match output.code {
                Some(code) => code == 0,
                None => false,
            },
            Outcome::SpawnFailed(_) => false,
        }
    }

    /// Whether an idempotency probe with this outcome found its check satisfied.
    pub fn satisfies_check(&self) -> (satisfied: bool)
        ensures
            satisfied == self@.satisfies_check(),
    {
        match self {
            Outcome::Completed(output) => match output.code {
                Some(code) => code == 0 && !output.stdout.as_str().is_empty(),
                None => false,
            },
            Outcome::SpawnFailed(_) => false,
        }
    }

    /// The status of a payload with this outcome.
    pub fn status(&self) -> (status: Status)
        ensures
            status == self@.status(),
    {
        if self.succeeded() {
            Status::Success
        } else {
            Status::Failure
        }
    }

    /// Why the command failed, if it did.
    pub fn diagnosis(&self) -> (error: Option<CommandError>)
        ensures
            error == self@.diagnosis(),
    {
        match self {
            Outcome::Completed(output) => {
                if self.succeeded() {
                    None
                } else {
                    Some(CommandError::classify(output.stderr.as_str()))
                }
            },
            Outcome::SpawnFailed(reason) => Some(CommandError::classify(reason.as_str())),
        }
    }
}

} // verus!
