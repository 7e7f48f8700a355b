//! What holds of every run of a unit.

use crate::command::CommandView;
use crate::config::ConfigView;
use crate::distribution::DistributionType;
use crate::process::{probe_of, InvocationView, OutcomeView};
use crate::unit::{Plan, UnitState};
use crate::utils::status::Status;
use vstd::prelude::*;

verus! {

/// A unit at rest stays at rest, and asks for nothing, whatever a driver
/// hands it.
pub proof fn law_rest_is_final(
    plan: Plan,
    host: DistributionType,
    status: Status,
    outcomes: Seq<OutcomeView>,
)
    ensures
        plan.run_through(host, UnitState::Rested(status), outcomes) == UnitState::Rested(status),
        plan.invoked(host, UnitState::Rested(status), outcomes) == Seq::<InvocationView>::empty(),
    decreases outcomes.len(),
{
    if outcomes.len() > 0 {
        law_rest_is_final(plan, host, status, outcomes.drop_first());
    }
}

/// A run of a unit never leaves the states that fit it: it rests only with
/// `Success`, `Failure`, `Skipped` or `Passed`, and `Running` never gets out.
pub proof fn law_run_keeps_fitting(
    plan: Plan,
    host: DistributionType,
    state: UnitState,
    outcomes: Seq<OutcomeView>,
)
    requires
        plan.fits(state),
    ensures
        plan.fits(plan.begin(host)),
        plan.fits(plan.run_through(host, state, outcomes)),
        plan.run_through(host, state, outcomes) matches UnitState::Rested(status)
            ==> status.is_resting(),
    decreases outcomes.len(),
{
    if outcomes.len() > 0 {
        law_run_keeps_fitting(
            plan,
            host,
            plan.advance(host, state, outcomes.first()),
            outcomes.drop_first(),
        );
    }
}

/// Every outcome takes a unit that waits for one nearer to its rest: a
/// unit asks for three invocations at most, and then rests.
pub proof fn law_unit_comes_to_rest(
    plan: Plan,
    host: DistributionType,
    state: UnitState,
    outcome: OutcomeView,
)
    requires
        plan.fits(state),
    ensures
        !(state is Rested) ==> Plan::remaining(plan.advance(host, state, outcome))
            < Plan::remaining(state),
        Plan::remaining(plan.begin(host)) <= 3,
        Plan::remaining(state) == 0 <==> state is Rested,
{
}

/// A command unit whose distribution restriction does not match the host
/// rests as `Skipped` from the start, and nothing is ever invoked for it.
pub proof fn law_restricted_unit_is_skipped(
    unit: CommandView,
    host: DistributionType,
    outcomes: Seq<OutcomeView>,
)
    requires
        unit.distribution matches Some(distribution) && distribution != host,
    ensures
        unit.plan().begin(host) == UnitState::Rested(Status::Skipped),
        unit.plan().request(unit.plan().begin(host)) is None,
        unit.plan().run_through(host, unit.plan().begin(host), outcomes) == UnitState::Rested(
            Status::Skipped,
        ),
        unit.plan().invoked(host, unit.plan().begin(host), outcomes) == Seq::<
            InvocationView,
        >::empty(),
{
    law_rest_is_final(unit.plan(), host, Status::Skipped, outcomes);
}

/// A unit without a restriction is never skipped, on any host.
pub proof fn law_unrestricted_unit_never_skips(unit: CommandView, host: DistributionType)
    requires
        unit.distribution is None,
    ensures
        !unit.should_skip(host),
        unit.plan().begin(host) != UnitState::Rested(Status::Skipped),
{
}

/// A unit restricted to a named distribution is skipped on every host
/// whose distribution is unknown.
pub proof fn law_unknown_host_skips_restricted_units(unit: CommandView)
    requires
        unit.distribution matches Some(distribution) && distribution
            != DistributionType::Unknown,
    ensures
        unit.should_skip(DistributionType::Unknown),
{
}

/// A command unit that applies to the host and whose idempotency check is
/// satisfied (its probe exits with code 0 and writes something) rests as
/// `Passed`: the probe is the one invocation of the run, and the payload is
/// never invoked, whatever else a driver hands over.
pub proof fn law_satisfied_check_passes(
    unit: CommandView,
    host: DistributionType,
    probe: OutcomeView,
    later: Seq<OutcomeView>,
)
    requires
        !unit.should_skip(host),
        unit.check is Some,
        probe.satisfies_check(),
    ensures
        unit.plan().begin(host) == UnitState::Probing,
        unit.plan().request(UnitState::Probing) == Some(probe_of(unit.check->0)),
        unit.plan().advance(host, UnitState::Probing, probe) == UnitState::Rested(Status::Passed),
        unit.plan().run_through(host, unit.plan().begin(host), seq![probe] + later)
            == UnitState::Rested(Status::Passed),
        unit.plan().invoked(host, unit.plan().begin(host), seq![probe] + later) == seq![
            probe_of(unit.check->0),
        ],
{
    let plan = unit.plan();
    let outcomes = seq![probe] + later;
    assert(outcomes.first() == probe);
    assert(outcomes.drop_first() =~= later);
    law_rest_is_final(plan, host, Status::Passed, later);
    assert(plan.invoked(host, UnitState::Probing, outcomes) =~= seq![probe_of(unit.check->0)]);
}

/// Running a unit with a satisfied idempotency check again gives `Passed`
/// again: a run leaves the unit as it was, so each of two runs, one after
/// the other, invokes the probe and nothing else.
pub proof fn law_satisfied_check_is_idempotent(
    unit: CommandView,
    host: DistributionType,
    first: OutcomeView,
    second: OutcomeView,
)
    requires
        !unit.should_skip(host),
        unit.check is Some,
        first.satisfies_check(),
        second.satisfies_check(),
    ensures
        unit.plan().run_through(host, unit.plan().begin(host), seq![first]) == UnitState::Rested(
            Status::Passed,
        ),
        unit.plan().run_through(host, unit.plan().begin(host), seq![second]) == UnitState::Rested(
            Status::Passed,
        ),
        unit.plan().invoked(host, unit.plan().begin(host), seq![first]) == seq![
            probe_of(unit.check->0),
        ],
        unit.plan().invoked(host, unit.plan().begin(host), seq![second]) == seq![
            probe_of(unit.check->0),
        ],
{
    law_satisfied_check_passes(unit, host, first, Seq::empty());
    law_satisfied_check_passes(unit, host, second, Seq::empty());
    assert(seq![first] + Seq::<OutcomeView>::empty() =~= seq![first]);
    assert(seq![second] + Seq::<OutcomeView>::empty() =~= seq![second]);
}

/// The run of a command unit that applies to the host, in full. Without a
/// check, the payload is the one invocation, and its outcome is the unit's
/// status. With a check that is not satisfied, the probe comes first and
/// the payload second, and the payload's outcome is the unit's status:
/// `Success` for exit code 0, `Failure` for anything else.
pub proof fn law_unit_runs_its_payload(
    unit: CommandView,
    host: DistributionType,
    probe: OutcomeView,
    payload: OutcomeView,
)
    requires
        !unit.should_skip(host),
        !probe.satisfies_check(),
    ensures
        unit.check is None ==> unit.plan().run_through(
            host,
            unit.plan().begin(host),
            seq![payload],
        ) == UnitState::Rested(payload.status()),
        unit.check is None ==> unit.plan().invoked(host, unit.plan().begin(host), seq![payload])
            == seq![unit.payload(unit.attached())],
        unit.check is Some ==> unit.plan().run_through(
            host,
            unit.plan().begin(host),
            seq![probe, payload],
        ) == UnitState::Rested(payload.status()),
        unit.check is Some ==> unit.plan().invoked(
            host,
            unit.plan().begin(host),
            seq![probe, payload],
        ) == seq![probe_of(unit.check->0), unit.payload(unit.attached())],
        payload.status() == Status::Success <==> payload.succeeded(),
        payload.status() == Status::Failure <==> !payload.succeeded(),
{
    let plan = unit.plan();
    reveal_with_fuel(Plan::run_through, 3);
    reveal_with_fuel(Plan::invoked, 3);
    assert(seq![payload].drop_first() =~= Seq::<OutcomeView>::empty());
    assert(seq![probe, payload].drop_first() =~= seq![payload]);
    if unit.check is None {
        assert(plan.invoked(host, plan.begin(host), seq![payload]) =~= seq![
            unit.payload(unit.attached()),
        ]);
    } else {
        assert(plan.invoked(host, plan.begin(host), seq![probe, payload]) =~= seq![
            probe_of(unit.check->0),
            unit.payload(unit.attached()),
        ]);
    }
}

/// A configuration whose own check is satisfied rests as `Passed`: the
/// probe of that check is the one invocation, and the unit that the
/// configuration wraps is not looked at, neither its restriction nor its
/// check nor its line.
pub proof fn law_satisfied_config_check_passes(
    config: ConfigView,
    host: DistributionType,
    probe: OutcomeView,
    later: Seq<OutcomeView>,
)
    requires
        config.check is Some,
        probe.satisfies_check(),
    ensures
        config.plan().begin(host) == UnitState::Checking,
        config.plan().request(UnitState::Checking) == Some(probe_of(config.check->0)),
        config.plan().run_through(host, config.plan().begin(host), seq![probe] + later)
            == UnitState::Rested(Status::Passed),
        config.plan().invoked(host, config.plan().begin(host), seq![probe] + later) == seq![
            probe_of(config.check->0),
        ],
{
    let plan = config.plan();
    let outcomes = seq![probe] + later;
    assert(outcomes.first() == probe);
    assert(outcomes.drop_first() =~= later);
    law_rest_is_final(plan, host, Status::Passed, later);
    assert(plan.invoked(host, UnitState::Checking, outcomes) =~= seq![probe_of(config.check->0)]);
}

/// A configuration whose own check is not satisfied, or which has none,
/// hands over to the unit that it wraps: from there on it stands where
/// that unit would stand alone, and asks for what that unit would ask
/// for, but that the line runs attached to the terminal.
pub proof fn law_config_delegates_attached(
    config: ConfigView,
    host: DistributionType,
    probe: OutcomeView,
    state: UnitState,
    outcome: OutcomeView,
)
    requires
        !probe.satisfies_check(),
        state != UnitState::Checking,
    ensures
        config.check is Some ==> config.plan().advance(host, UnitState::Checking, probe)
            == config.command.plan().begin(host),
        config.check is None ==> config.plan().begin(host) == config.command.plan().begin(host),
        config.plan().advance(host, state, outcome) == config.command.plan().advance(
            host,
            state,
            outcome,
        ),
        state != UnitState::Running ==> config.plan().request(state) == config.command.plan().request(
            state,
        ),
        config.plan().request(UnitState::Running) == Some(config.command.payload(true)),
        config.command.payload(true).attached,
        config.command.payload(true).program == config.command.payload(false).program,
        config.command.payload(true).args == config.command.payload(false).args,
{
}

} // verus!
