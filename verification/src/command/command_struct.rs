use crate::command::shell::{interpreter, interpreter_of, shell_view, Shell, ShellView};
use crate::distribution::DistributionType;
use crate::process::{shell_line, CommandError, Invocation, InvocationView};
use crate::traits::{CommandRunner, ErrorHandler, ProcessRunner};
use crate::unit::Plan;
use crate::utils::text::text_view;
use vstd::prelude::*;

verus! {

/// A command unit: one shell line, with the shell that runs it, the
/// distribution it is restricted to, and the check that tells whether its
/// effect is already there.
#[derive(PartialEq, Eq, Debug)]
pub struct CommandStruct {
    command: String,
    shell: Option<Shell>,
    distribution: Option<DistributionType>,
    check: Option<String>,
    run_spawn: Option<bool>,
}

/// A command unit as a mathematical value.
pub struct CommandView {
    /// The shell line.
    pub command: Seq<char>,
    /// The interpreter of the line; the baseline shell where there is none.
    pub shell: Option<ShellView>,
    /// The only distribution that the unit applies to, if it is restricted.
    pub distribution: Option<DistributionType>,
    /// A shell line whose non-empty output on success means that the
    /// unit's effect is already there.
    pub check: Option<Seq<char>>,
    /// Whether the line runs attached to the terminal; captured where
    /// nothing is said.
    pub run_spawn: Option<bool>,
}

impl CommandView {
    /// Whether the payload shares the terminal.
    pub open spec fn attached(self) -> bool {
        self.run_spawn == Some(true)
    }

    /// The invocation that runs the unit's line: the whole line goes to the
    /// unit's interpreter as one string.
    pub open spec fn payload(self, attached: bool) -> InvocationView {
        shell_line(interpreter(self.shell), self.command, attached)
    }

    /// Whether the unit does not apply to `host`.
    pub open spec fn should_skip(self, host: DistributionType) -> bool {
        self.distribution matches Some(distribution) && distribution != host
    }

    /// What the unit asks of the shell: no guard check, then its
    /// distribution guard, its idempotency check and its line.
    pub open spec fn plan(self) -> Plan {
        Plan {
            guard: None,
            restriction: self.distribution,
            check: self.check,
            payload: self.payload(self.attached()),
            subject: self.command,
        }
    }
}

/// The view of a text that may be absent.
pub open spec fn string_view(text: Option<String>) -> Option<Seq<char>> {
    match text {
        Some(text) => Some(text@),
        None => None,
    }
}

impl View for CommandStruct {
    type V = CommandView;

    closed spec fn view(&self) -> CommandView {
        CommandView {
            command: self.command@,
            shell: shell_view(self.shell),
            distribution: self.distribution,
            check: string_view(self.check),
            run_spawn: self.run_spawn,
        }
    }
}

impl CommandStruct {
    /// A command unit with these attributes.
    pub fn new(
        command: &str,
        shell: Option<Shell>,
        distribution: Option<DistributionType>,
        check: Option<&str>,
        run_spawn: Option<bool>,
    ) -> (unit: CommandStruct)
        ensures
            unit@ == (CommandView {
                command: command@,
                shell: shell_view(shell),
                distribution,
                check: text_view(check),
                run_spawn,
            }),
    {
        let check = match check {
            Some(check) => Some(check.to_owned()),
            None => None,
        };
        CommandStruct { command: command.to_owned(), shell, distribution, check, run_spawn }
    }

    /// The shell line.
    pub fn command(&self) -> (command: &str)
        ensures
            command@ == self@.command,
    {
        self.command.as_str()
    }

    /// The distribution guard: a unit without a restriction never skips; a
    /// restricted one skips on every host but that of its distribution.
    pub fn should_skip(&self, host: &DistributionType) -> (skip: bool)
        ensures
            skip == self@.should_skip(*host),
    {
        if let Some(distribution) = &self.distribution {
            if *distribution != *host {
                return true;
            }
        }
        false
    }

    /// The only distribution that the unit applies to, if it is restricted.
    pub fn distribution(&self) -> (distribution: Option<&DistributionType>)
        ensures
            distribution is Some == self@.distribution is Some,
            distribution matches Some(d) ==> Some(*d) == self@.distribution,
    {
        self.distribution.as_ref()
    }

    /// The interpreter of the line, if one is set.
    pub fn shell(&self) -> (shell: Option<&Shell>)
        ensures
            shell is Some == self@.shell is Some,
            shell matches Some(s) ==> Some(s@) == self@.shell,
    {
        self.shell.as_ref()
    }

    /// The idempotency check, if the unit has one.
    pub fn idempotency_check(&self) -> (check: Option<&str>)
        ensures
            text_view(check) == self@.check,
    {
        match &self.check {
            Some(check) => Some(check.as_str()),
            None => None,
        }
    }

    /// Whether the line runs attached to the terminal, where that is said.
    pub fn run_spawn(&self) -> (run_spawn: Option<bool>)
        ensures
            run_spawn == self@.run_spawn,
    {
        self.run_spawn
    }

    /// The invocation that runs the unit's line, attached to the terminal
    /// or captured.
    pub fn payload(&self, attached: bool) -> (invocation: Invocation)
        ensures
            invocation@ == self@.payload(attached),
    {
        Invocation::shell_line(interpreter_of(&self.shell), self.command.as_str(), attached)
    }
}

impl ErrorHandler for CommandStruct {
    fn handle_command_error(stderr: &str) -> (error: CommandError) {
        CommandError::classify(stderr)
    }
}

impl CommandRunner for CommandStruct {
    open spec fn plan(&self) -> Plan {
        self@.plan()
    }

    fn setup_command(&self) -> (invocation: Invocation) {
        self.payload(self.is_run_spawn())
    }

    fn is_run_spawn(&self) -> (attached: bool) {
        match self.run_spawn {
            Some(attached) => attached,
            None => false,
        }
    }
}

impl ProcessRunner for CommandStruct {
    fn guard(&self) -> (guard: Option<&str>) {
        None
    }

    fn check(&self) -> (check: Option<&str>) {
        self.idempotency_check()
    }

    fn skips(&self, host: &DistributionType) -> (skip: bool) {
        self.should_skip(host)
    }

    fn subject(&self) -> (subject: &str) {
        self.command()
    }
}

} // verus!
