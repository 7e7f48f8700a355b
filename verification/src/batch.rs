//! Units run one after another, and the one status they come to.
//!
//! Every unit of a batch gets its turn, whatever the units before it came
//! to: a failure is remembered, and does not stop the batch. When a unit
//! rests, the batch asks for one report of it, and then turns to the next.

use crate::distribution::DistributionType;
use crate::protocol::{invoke, request_view, Reply, ReplyView, Request, RequestView};
use crate::traits::{CommandRunner, ProcessRunner};
use crate::unit::{Plan, UnitState};
use crate::utils::status::Status;
use vstd::prelude::*;

verus! {

/// Where the run of a batch stands.
#[derive(Clone, Copy, PartialEq, Eq, Debug)]
pub struct BatchState {
    /// The place of the unit whose turn it is; the number of units once
    /// all have had theirs.
    pub index: usize,
    /// Whether a unit before this one has failed.
    pub failed: bool,
    /// Where the unit whose turn it is stands.
    pub unit: UnitState,
}

/// A [`BatchState`] as a mathematical value.
pub struct BatchView {
    pub index: int,
    pub failed: bool,
    pub unit: UnitState,
}

impl View for BatchState {
    type V = BatchView;

    open spec fn view(&self) -> BatchView {
        BatchView { index: self.index as int, failed: self.failed, unit: self.unit }
    }
}

/// A sequence of units, each by its plan.
pub struct Batch {
    pub plans: Seq<Plan>,
}

impl Batch {
    /// The batch of these units.
    pub open spec fn of<U: ProcessRunner>(units: Seq<U>) -> Batch {
        Batch { plans: Seq::new(units.len(), |i: int| units[i].plan()) }
    }

    /// Whether `index` is the place of a unit.
    pub open spec fn has(self, index: int) -> bool {
        0 <= index < self.plans.len()
    }

    /// The state in which the unit at `index` begins, or the batch rests
    /// where there is no such unit.
    pub open spec fn enter(self, host: DistributionType, index: int, failed: bool) -> BatchView {
        BatchView {
            index,
            failed,
            unit: if self.has(index) {
                self.plans[index].begin(host)
            } else {
                UnitState::Rested(Status::spec_of_failed(failed))
            },
        }
    }

    /// The state in which the run of the batch begins.
    pub open spec fn begin(self, host: DistributionType) -> BatchView {
        self.enter(host, 0, false)
    }

    /// The batch rests once every unit has had its turn.
    pub open spec fn rested(self, state: BatchView) -> bool {
        !self.has(state.index)
    }

    /// The status of a batch at rest: `Failure` if a unit failed, else
    /// `Success`.
    pub open spec fn status(self, state: BatchView) -> Option<Status> {
        if self.rested(state) {
            Some(Status::spec_of_failed(state.failed))
        } else {
            None
        }
    }

    /// What the batch waits for in `state`: the invocation that the unit
    /// in turn waits for, or the report of that unit once it rests; nothing
    /// once the batch itself rests.
    pub open spec fn request(self, state: BatchView) -> Option<RequestView> {
        if self.rested(state) {
            None
        } else {
            match state.unit {
                UnitState::Rested(status) => Some(
                    RequestView::Report { status, subject: self.plans[state.index].subject },
                ),
                _ => invoke(self.plans[state.index].request(state.unit)),
            }
        }
    }

    /// Where the batch stands after `reply`. An outcome moves the unit in
    /// turn; the word that its report is written moves the batch to the
    /// next unit, with the failure of this one remembered. Any other reply
    /// changes nothing.
    pub open spec fn advance(self, host: DistributionType, state: BatchView, reply: ReplyView)
        -> BatchView {
        if self.rested(state) {
            state
        } else {
            match (state.unit, reply) {
                (UnitState::Rested(status), ReplyView::Done) => self.enter(
                    host,
                    state.index + 1,
                    state.failed || status == Status::Failure,
                ),
                (UnitState::Rested(_), _) => state,
                (_, ReplyView::Outcome(outcome)) => BatchView {
                    unit: self.plans[state.index].advance(host, state.unit, outcome),
                    ..state
                },
                _ => state,
            }
        }
    }

    /// Where the batch stands after a driver has handed it `replies`, one
    /// after another, from `state` on.
    pub open spec fn run_through(
        self,
        host: DistributionType,
        state: BatchView,
        replies: Seq<ReplyView>,
    ) -> BatchView
        decreases replies.len(),
    {
        if replies.len() == 0 {
            state
        } else {
            self.run_through(
                host,
                self.advance(host, state, replies.first()),
                replies.drop_first(),
            )
        }
    }

    /// The statuses that units have rested with on that way, in the order
    /// of the units: one for each unit whose report the driver has written.
    pub open spec fn reported(
        self,
        host: DistributionType,
        state: BatchView,
        replies: Seq<ReplyView>,
    ) -> Seq<Status>
        decreases replies.len(),
    {
        if replies.len() == 0 {
            Seq::empty()
        } else {
            let later = self.reported(
                host,
                self.advance(host, state, replies.first()),
                replies.drop_first(),
            );
            match (state.unit, replies.first()) {
                (UnitState::Rested(status), ReplyView::Done) if !self.rested(state) => seq![
                    status,
                ] + later,
                _ => later,
            }
        }
    }

    /// How many requests the batch may still make, at most: for each unit
    /// up to three invocations and one report.
    pub open spec fn remaining(self, state: BatchView) -> nat {
        if self.rested(state) {
            0
        } else {
            (5 * (self.plans.len() - state.index - 1) + Plan::remaining(state.unit) + 1) as nat
        }
    }

    /// The states that a run of the batch can be in.
    pub open spec fn fits(self, state: BatchView) -> bool {
        &&& 0 <= state.index <= self.plans.len()
        &&& self.has(state.index) ==> self.plans[state.index].fits(state.unit)
    }
}

fn enter<U: ProcessRunner>(units: &Vec<U>, host: &DistributionType, index: usize, failed: bool)
    -> (state: BatchState)
    requires
        index <= units.len(),
    ensures
        state@ == Batch::of(units@).enter(*host, index as int, failed),
        Batch::of(units@).fits(state@),
{
    let unit = if index < units.len() {
        units[index].before_run(host)
    } else {
        UnitState::Rested(Status::of_failed(failed))
    };
    BatchState { index, failed, unit }
}

/// The state in which the run of `units` begins.
pub fn begin<U: ProcessRunner>(units: &Vec<U>, host: &DistributionType) -> (state: BatchState)
    ensures
        state@ == Batch::of(units@).begin(*host),
        Batch::of(units@).fits(state@),
{
    enter(units, host, 0, false)
}

/// The status of `units` once all have had their turn.
pub fn status<U: ProcessRunner>(units: &Vec<U>, state: &BatchState) -> (status: Option<Status>)
    ensures
        status == Batch::of(units@).status(state@),
{
    if state.index < units.len() {
        None
    } else {
        Some(Status::of_failed(state.failed))
    }
}

/// What the run of `units` waits for in `state`.
pub fn request<U: ProcessRunner>(units: &Vec<U>, state: &BatchState) -> (request: Option<Request>)
    ensures
        request_view(request) == Batch::of(units@).request(state@),
        Batch::of(units@).fits(state@) ==> (request is None <==> Batch::of(units@).rested(state@)),
{
    if state.index >= units.len() {
        return None;
    }
    let unit = &units[state.index];
    match state.unit {
        UnitState::Rested(status) => Some(
            Request::Report { status, subject: unit.subject().to_owned() },
        ),
        _ => match unit.next_command(&state.unit) {
            Some(invocation) => Some(Request::Invoke(invocation)),
            None => None,
        },
    }
}

/// One step of the run of `units`: where it stands after `reply`.
pub fn advance<U: ProcessRunner>(
    units: &Vec<U>,
    host: &DistributionType,
    state: BatchState,
    reply: &Reply,
) -> (next: BatchState)
    ensures
        next@ == Batch::of(units@).advance(*host, state@, reply@),
        Batch::of(units@).fits(state@) ==> Batch::of(units@).fits(next@),
{
    if state.index >= units.len() {
        return state;
    }
    match state.unit {
        UnitState::Rested(status) => match reply {
            Reply::Done => {
                let failed = state.failed || status == Status::Failure;
                enter(units, host, state.index + 1, failed)
            },
            _ => state,
        },
        _ => match reply {
            Reply::Outcome(outcome) => BatchState {
                index: state.index,
                failed: state.failed,
                unit: units[state.index].run(host, state.unit, outcome),
            },
            _ => state,
        },
    }
}

} // verus!
