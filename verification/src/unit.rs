//! The life of one executable unit, as a state machine.
//!
//! A unit is a shell line with what guards it. Its run goes through up to
//! three invocations, each only if the one before did not settle the matter:
//! the probe of a guard check, the probe of the unit's own idempotency check,
//! and the payload. Between the first two stands the distribution guard,
//! which asks nothing of the shell.

use crate::distribution::DistributionType;
use crate::process::{probe_of, InvocationView, OutcomeView};
use crate::utils::status::Status;
use vstd::prelude::*;

verus! {

/// Where the run of a unit stands: what it waits for, or what it rests with.
#[derive(Clone, Copy, PartialEq, Eq, Structural, Debug)]
pub enum UnitState {
    /// The probe of the guard check is out.
    Checking,
    /// The probe of the unit's own idempotency check is out.
    Probing,
    /// The payload is out.
    Running,
    /// The unit rests with this status.
    Rested(Status),
}

/// What a unit asks of the shell, in order, and under which conditions.
pub struct Plan {
    /// A check that comes before everything else: where its probe is
    /// satisfied, the unit rests as `Passed` and nothing more is asked.
    pub guard: Option<Seq<char>>,
    /// The only distribution that the unit applies to, if it is restricted.
    pub restriction: Option<DistributionType>,
    /// The unit's own idempotency check, probed once the distribution guard
    /// has let the unit through.
    pub check: Option<Seq<char>>,
    /// The invocation that does the unit's work.
    pub payload: InvocationView,
    /// The line that names the unit in reports.
    pub subject: Seq<char>,
}

impl Plan {
    /// The distribution guard: a restricted unit is skipped on every host
    /// but that of its distribution. So a unit restricted to a named
    /// distribution is skipped wherever the distribution is unknown.
    pub open spec fn skips(self, host: DistributionType) -> bool {
        self.restriction matches Some(distribution) && distribution != host
    }

    /// Where the unit stands once no guard check is in its way.
    pub open spec fn enter(self, host: DistributionType) -> UnitState {
        if self.skips(host) {
            UnitState::Rested(Status::Skipped)
        } else if self.check is Some {
            UnitState::Probing
        } else {
            UnitState::Running
        }
    }

    /// Where the run of the unit begins.
    pub open spec fn begin(self, host: DistributionType) -> UnitState {
        if self.guard is Some {
            UnitState::Checking
        } else {
            self.enter(host)
        }
    }

    /// The invocation that the unit waits for in `state`; none once it rests.
    pub open spec fn request(self, state: UnitState) -> Option<InvocationView> {
        match state {
            UnitState::Checking => match self.guard {
                Some(guard) => Some(probe_of(guard)),
                None => None,
            },
            UnitState::Probing => match self.check {
                Some(check) => Some(probe_of(check)),
                None => None,
            },
            UnitState::Running => Some(self.payload),
            UnitState::Rested(_) => None,
        }
    }

    /// Where the unit stands after the invocation it waited for in `state`
    /// has come to `outcome`. A state that waits for nothing stays as it is.
    pub open spec fn advance(self, host: DistributionType, state: UnitState, outcome: OutcomeView)
        -> UnitState {
        match state {
            UnitState::Checking => if self.guard is None {
                state
            } else if outcome.satisfies_check() {
                UnitState::Rested(Status::Passed)
            } else {
                self.enter(host)
            },
            UnitState::Probing => if self.check is None {
                state
            } else if outcome.satisfies_check() {
                UnitState::Rested(Status::Passed)
            } else {
                UnitState::Running
            },
            UnitState::Running => UnitState::Rested(outcome.status()),
            UnitState::Rested(_) => state,
        }
    }

    /// Where the unit stands after a driver has answered what it waited
    /// for with `outcomes`, one after another, from `state` on.
    pub open spec fn run_through(
        self,
        host: DistributionType,
        state: UnitState,
        outcomes: Seq<OutcomeView>,
    ) -> UnitState
        decreases outcomes.len(),
    {
        if outcomes.len() == 0 {
            state
        } else {
            self.run_through(
                host,
                self.advance(host, state, outcomes.first()),
                outcomes.drop_first(),
            )
        }
    }

    /// The invocations that a driver has carried out on that way: one for
    /// each outcome, as long as the unit waited for something.
    pub open spec fn invoked(
        self,
        host: DistributionType,
        state: UnitState,
        outcomes: Seq<OutcomeView>,
    ) -> Seq<InvocationView>
        decreases outcomes.len(),
    {
        if outcomes.len() == 0 {
            Seq::empty()
        } else {
            match self.request(state) {
                Some(invocation) => seq![invocation] + self.invoked(
                    host,
                    self.advance(host, state, outcomes.first()),
                    outcomes.drop_first(),
                ),
                None => Seq::empty(),
            }
        }
    }

    /// How many invocations the unit may still ask for, at most.
    pub open spec fn remaining(state: UnitState) -> nat {
        match state {
            UnitState::Checking => 3,
            UnitState::Probing => 2,
            UnitState::Running => 1,
            UnitState::Rested(_) => 0,
        }
    }

    /// The states that a run of the unit can be in: it waits only for a
    /// probe of a check that it has, and rests only with a resting status.
    pub open spec fn fits(self, state: UnitState) -> bool {
        match state {
            UnitState::Checking => self.guard is Some,
            UnitState::Probing => self.check is Some,
            UnitState::Running => true,
            UnitState::Rested(status) => status.is_resting(),
        }
    }
}

impl UnitState {
    pub open spec fn spec_status(self) -> Option<Status> {
        match self {
            UnitState::Rested(status) => Some(status),
            _ => None,
        }
    }

    /// The status that the unit rests with, once it does.
    pub fn status(&self) -> (status: Option<Status>)
        ensures
            status == self.spec_status(),
    {
        match self {
            UnitState::Rested(status) => Some(*status),
            _ => None,
        }
    }
}

} // verus!
