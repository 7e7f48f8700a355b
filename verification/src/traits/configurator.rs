use crate::distribution::DistributionType;
use crate::process::Outcome;
use crate::traits::command_runner::ProcessRunner;
use crate::unit::UnitState;
use crate::utils::status::Status;
use vstd::prelude::*;

verus! {

/// Why a configuration could not be handled.
#[derive(Clone, Copy, PartialEq, Eq, Structural, Debug)]
pub enum ConfigError {
    /// Taking a configuration back is not supported: no unit knows the
    /// inverse of what it does.
    RevertUnsupported,
}

impl ConfigError {
    pub open spec fn spec_message(self) -> Seq<char> {
        "Reverting a configuration is not supported"@
    }

    /// The error in words.
    pub fn to_string(&self) -> (message: String)
        ensures
            message@ == self.spec_message(),
    {
        "Reverting a configuration is not supported".to_owned()
    }
}

/// A unit that brings a piece of configuration about.
pub trait Configurator: ProcessRunner {
    /// One step of applying the configuration: where it stands after the
    /// invocation it waited for in `state` has come to `outcome`.
    fn apply(&self, host: &DistributionType, state: UnitState, outcome: &Outcome) -> (next:
        UnitState)
        ensures
            next == self.plan().advance(*host, state, outcome@),
            self.plan().fits(state) ==> self.plan().fits(next),
    {
        self.run(host, state, outcome)
    }

    /// Takes the configuration back. Nothing can do so yet, and nothing is
    /// done in silence: the answer is always the error that says so.
    fn revert(&self) -> (result: Result<Status, ConfigError>)
        ensures
            result == Err::<Status, ConfigError>(ConfigError::RevertUnsupported),
    {
        Err(ConfigError::RevertUnsupported)
    }
}

} // verus!
