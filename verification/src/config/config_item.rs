use crate::command::{string_view, CommandStruct, CommandView};
use crate::distribution::DistributionType;
use crate::process::{CommandError, Invocation};
use crate::traits::{CommandRunner, Configurator, ErrorHandler, ProcessRunner};
use crate::unit::Plan;
use crate::utils::text::text_view;
use vstd::prelude::*;

verus! {

/// A configuration unit: a command unit that runs attached to the terminal,
/// behind an idempotency check of its own.
#[derive(PartialEq, Eq, Debug)]
pub struct Config {
    command: CommandStruct,
    check: Option<String>,
}

/// A configuration unit as a mathematical value.
pub struct ConfigView {
    /// The command unit that the configuration wraps.
    pub command: CommandView,
    /// The configuration's own check, probed before the wrapped unit is
    /// looked at, whatever check that unit has itself.
    pub check: Option<Seq<char>>,
}

impl ConfigView {
    /// What the configuration asks of the shell: its own check first, then
    /// what the wrapped unit asks, with the payload attached to the terminal.
    pub open spec fn plan(self) -> Plan {
        Plan {
            guard: self.check,
            restriction: self.command.distribution,
            check: self.command.check,
            payload: self.command.payload(true),
            subject: self.command.command,
        }
    }
}

impl View for Config {
    type V = ConfigView;

    closed spec fn view(&self) -> ConfigView {
        ConfigView { command: self.command@, check: string_view(self.check) }
    }
}

impl Config {
    /// The configuration that wraps `command` behind `check`.
    pub fn new(command: CommandStruct, check: Option<&str>) -> (config: Config)
        ensures
            config@ == (ConfigView { command: command@, check: text_view(check) }),
    {
        let check = match check {
            Some(check) => Some(check.to_owned()),
            None => None,
        };
        Config { command, check }
    }

    /// The command unit that the configuration wraps.
    pub fn command(&self) -> (command: &CommandStruct)
        ensures
            command@ == self@.command,
    {
        &self.command
    }

    /// The configuration's own check, if it has one.
    pub fn idempotency_check(&self) -> (check: Option<&str>)
        ensures
            text_view(check) == self@.check,
    {
        match &self.check {
            Some(check) => Some(check.as_str()),
            None => None,
        }
    }
}

impl ErrorHandler for Config {
    fn handle_command_error(stderr: &str) -> (error: CommandError) {
        CommandError::classify(stderr)
    }
}

impl CommandRunner for Config {
    open spec fn plan(&self) -> Plan {
        self@.plan()
    }

    fn setup_command(&self) -> (invocation: Invocation) {
        self.command.payload(true)
    }

    fn is_run_spawn(&self) -> (attached: bool) {
        true
    }
}

impl ProcessRunner for Config {
    fn guard(&self) -> (guard: Option<&str>) {
        self.idempotency_check()
    }

    fn check(&self) -> (check: Option<&str>) {
        self.command.idempotency_check()
    }

    fn skips(&self, host: &DistributionType) -> (skip: bool) {
        self.command.should_skip(host)
    }

    fn subject(&self) -> (subject: &str) {
        self.command.command()
    }
}

impl Configurator for Config {

}

} // verus!
