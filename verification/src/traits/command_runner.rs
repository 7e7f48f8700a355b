use crate::distribution::DistributionType;
use crate::process::{invocation_view, Invocation, Outcome};
use crate::traits::error_handler::ErrorHandler;
use crate::unit::{Plan, UnitState};
use crate::utils::status::Status;
use crate::utils::text::text_view;
use vstd::prelude::*;

verus! {

/// A unit whose work is one invocation.
pub trait CommandRunner: ErrorHandler {
    /// What the unit asks of the shell, in order.
    spec fn plan(&self) -> Plan;

    /// The invocation that does the unit's work: its payload.
    fn setup_command(&self) -> (invocation: Invocation)
        ensures
            invocation@ == self.plan().payload,
    ;

    /// Whether the payload shares the terminal instead of having its output
    /// collected.
    fn is_run_spawn(&self) -> (attached: bool)
        ensures
            attached == self.plan().payload.attached,
    ;
}

/// The status that a unit rests with for the status that its run came to:
/// a failure, a skip and a pass stay what they are, anything else is a
/// success. No transient status gets past it.
pub open spec fn spec_after_run(command_status: Status) -> Status {
    match command_status {
        Status::Failure => Status::Failure,
        Status::Skipped => Status::Skipped,
        Status::Passed => Status::Passed,
        _ => Status::Success,
    }
}

/// A unit that runs as a state machine: it is asked where it begins, what
/// it waits for, and where an outcome takes it.
pub trait ProcessRunner: CommandRunner {
    /// The check that comes before everything else, if the unit has one.
    fn guard(&self) -> (guard: Option<&str>)
        ensures
            text_view(guard) == self.plan().guard,
    ;

    /// The unit's own idempotency check, if it has one.
    fn check(&self) -> (check: Option<&str>)
        ensures
            text_view(check) == self.plan().check,
    ;

    /// The distribution guard: whether the unit does not apply to `host`.
    fn skips(&self, host: &DistributionType) -> (skip: bool)
        ensures
            skip == self.plan().skips(*host),
    ;

    /// The line that names the unit in reports.
    fn subject(&self) -> (subject: &str)
        ensures
            subject@ == self.plan().subject,
    ;

    /// Where the unit stands once no guard check is in its way: skipped
    /// where the distribution guard says so, else waiting for the probe of
    /// its check, or for its payload where it has no check.
    fn enter(&self, host: &DistributionType) -> (state: UnitState)
        ensures
            state == self.plan().enter(*host),
    {
        if self.skips(host) {
            UnitState::Rested(Status::Skipped)
        } else if self.check().is_some() {
            UnitState::Probing
        } else {
            UnitState::Running
        }
    }

    /// Where the run of the unit begins, before anything has been invoked.
    fn before_run(&self, host: &DistributionType) -> (state: UnitState)
        ensures
            state == self.plan().begin(*host),
            self.plan().fits(state),
    {
        if self.guard().is_some() {
            UnitState::Checking
        } else {
            self.enter(host)
        }
    }

    /// The invocation that the unit waits for in `state`; none once it rests.
    fn next_command(&self, state: &UnitState) -> (invocation: Option<Invocation>)
        ensures
            invocation_view(invocation) == self.plan().request(*state),
            self.plan().fits(*state) ==> (invocation is None <==> *state is Rested),
    {
        match state {
            UnitState::Checking => match self.guard() {
                Some(guard) => Some(Invocation::probe(guard)),
                None => None,
            },
            UnitState::Probing => match self.check() {
                Some(check) => Some(Invocation::probe(check)),
                None => None,
            },
            UnitState::Running => Some(self.setup_command()),
            UnitState::Rested(_) => None,
        }
    }

    /// The status that the unit rests with for the status that its run came to.
    fn after_run(&self, command_status: Status) -> (status: Status)
        ensures
            status == spec_after_run(command_status),
            status.is_resting(),
    {
        match command_status {
            Status::Failure => Status::Failure,
            Status::Skipped => Status::Skipped,
            Status::Passed => Status::Passed,
            _ => Status::Success,
        }
    }

    /// One step of the unit's run: where it stands after the invocation it
    /// waited for in `state` has come to `outcome`.
    ///
    /// A satisfied probe lets the unit rest as `Passed`, and the payload is
    /// never asked for; an unsatisfied one moves it on. The payload's
    /// outcome is the unit's status: `Success` where the process left with
    /// exit code 0; `Failure` where it left with another code, was ended by
    /// a signal, or could not be started.
    fn run(&self, host: &DistributionType, state: UnitState, outcome: &Outcome) -> (next:
        UnitState)
        ensures
            next == self.plan().advance(*host, state, outcome@),
            self.plan().fits(state) ==> self.plan().fits(next),
    {
        match state {
            UnitState::Checking => {
                if self.guard().is_none() {
                    state
                } else if outcome.satisfies_check() {
                    UnitState::Rested(Status::Passed)
                } else {
                    self.enter(host)
                }
            },
            UnitState::Probing => {
                if self.check().is_none() {
                    state
                } else if outcome.satisfies_check() {
                    UnitState::Rested(Status::Passed)
                } else {
                    UnitState::Running
                }
            },
            UnitState::Running => UnitState::Rested(self.after_run(outcome.status())),
            UnitState::Rested(_) => state,
        }
    }
}

} // verus!
