//! What holds of every run of a batch of units.

use crate::batch::{Batch, BatchView};
use crate::distribution::DistributionType;
use crate::process::OutcomeView;
use crate::protocol::{answers, ReplyView};
use crate::unit::UnitState;
use crate::utils::status::Status;
use vstd::prelude::*;

verus! {

/// A reply that does not answer what the batch waits for changes nothing.
pub proof fn law_batch_ignores_other_replies(
    batch: Batch,
    host: DistributionType,
    state: BatchView,
    reply: ReplyView,
)
    requires
        batch.fits(state),
        !answers(batch.request(state), reply),
    ensures
        batch.advance(host, state, reply) == state,
{
}

/// The units of a batch have their turns in order, and none is passed
/// over: a step either stays with the unit in turn, or that unit rests
/// and the next one begins, just as it would begin alone, whatever the
/// unit before it came to.
pub proof fn law_batch_turns_in_order(
    batch: Batch,
    host: DistributionType,
    state: BatchView,
    reply: ReplyView,
)
    requires
        batch.fits(state),
        !batch.rested(state),
    ensures
        ({
            let next = batch.advance(host, state, reply);
            ||| next.index == state.index && next.failed == state.failed
            ||| {
                &&& state.unit is Rested
                &&& next.index == state.index + 1
                &&& next.failed == (state.failed || state.unit == UnitState::Rested(
                    Status::Failure,
                ))
                &&& batch.has(next.index) ==> next.unit == batch.plans[next.index].begin(host)
            }
        }),
{
}

/// A batch begins in a state that fits it.
pub proof fn law_batch_begins_fitting(batch: Batch, host: DistributionType)
    ensures
        batch.fits(batch.begin(host)),
        batch.remaining(batch.begin(host)) <= 5 * batch.plans.len(),
{
}

/// Every reply that answers what a batch waits for takes it nearer to its
/// rest: a batch of `n` units rests after `5 * n` requests at most.
pub proof fn law_batch_comes_to_rest(
    batch: Batch,
    host: DistributionType,
    state: BatchView,
    reply: ReplyView,
)
    requires
        batch.fits(state),
        answers(batch.request(state), reply),
    ensures
        batch.remaining(batch.advance(host, state, reply)) < batch.remaining(state),
        batch.remaining(batch.begin(host)) <= 5 * batch.plans.len(),
        batch.remaining(state) == 0 <==> batch.rested(state),
{
}

/// A batch at rest stays at rest, and no report is written any more.
pub proof fn law_batch_rest_is_final(
    batch: Batch,
    host: DistributionType,
    state: BatchView,
    replies: Seq<ReplyView>,
)
    requires
        batch.rested(state),
    ensures
        batch.run_through(host, state, replies) == state,
        batch.reported(host, state, replies) == Seq::<Status>::empty(),
    decreases replies.len(),
{
    if replies.len() > 0 {
        law_batch_rest_is_final(batch, host, state, replies.drop_first());
    }
}

/// However a driver answers, a batch counts its units rightly and forgets
/// no failure: it stands as many units further as reports were written,
/// and remembers a failure exactly if one was remembered before or one of
/// the reported units rested with `Failure`.
pub proof fn law_batch_remembers_failures(
    batch: Batch,
    host: DistributionType,
    state: BatchView,
    replies: Seq<ReplyView>,
)
    requires
        batch.fits(state),
    ensures
        batch.fits(batch.run_through(host, state, replies)),
        batch.run_through(host, state, replies).index == state.index + batch.reported(
            host,
            state,
            replies,
        ).len(),
        batch.run_through(host, state, replies).failed == (state.failed || batch.reported(
            host,
            state,
            replies,
        ).contains(Status::Failure)),
    decreases replies.len(),
{
    if replies.len() > 0 {
        let next = batch.advance(host, state, replies.first());
        let later = batch.reported(host, next, replies.drop_first());
        law_batch_remembers_failures(batch, host, next, replies.drop_first());
        let seen = batch.reported(host, state, replies);
        if seen.len() == later.len() + 1 {
            let status = seen[0];
            assert(seen =~= seq![status] + later);
            assert(forall|i: int| 0 <= i < later.len() ==> later[i] == seen[i + 1]);
            if later.contains(Status::Failure) {
                let i = choose|i: int| 0 <= i < later.len() && later[i] == Status::Failure;
                assert(seen[i + 1] == Status::Failure);
            }
            if seen.contains(Status::Failure) {
                let i = choose|i: int| 0 <= i < seen.len() && seen[i] == Status::Failure;
                if i > 0 {
                    assert(later[i - 1] == Status::Failure);
                }
            }
            if status == Status::Failure {
                assert(seen[0] == Status::Failure);
            }
        }
    }
}

/// A batch run from its beginning to its rest has run every unit, and
/// comes to the status of them all: `Failure` if at least one of the units
/// rested with `Failure`, else `Success`. No failure ends the batch early.
pub proof fn law_batch_aggregates(batch: Batch, host: DistributionType, replies: Seq<ReplyView>)
    requires
        batch.rested(batch.run_through(host, batch.begin(host), replies)),
    ensures
        batch.reported(host, batch.begin(host), replies).len() == batch.plans.len(),
        batch.status(batch.run_through(host, batch.begin(host), replies)) == Some(
            Status::aggregate(batch.reported(host, batch.begin(host), replies)),
        ),
{
    law_batch_remembers_failures(batch, host, batch.begin(host), replies);
}

/// Once a unit of a batch has failed, the batch can only come to
/// `Failure`; and it still goes on to the next unit.
pub proof fn law_batch_failure_is_kept(
    batch: Batch,
    host: DistributionType,
    state: BatchView,
    replies: Seq<ReplyView>,
)
    requires
        batch.fits(state),
        !batch.rested(state),
        state.failed || state.unit == UnitState::Rested(Status::Failure),
    ensures
        batch.advance(host, state, ReplyView::Done).index == if state.unit is Rested {
            state.index + 1
        } else {
            state.index
        },
        ({
            let end = batch.run_through(host, state, replies);
            if batch.rested(end) {
                batch.status(end) == Some(Status::Failure)
            } else {
                end.failed || end.unit == UnitState::Rested(Status::Failure)
            }
        }),
    decreases replies.len(),
{
    if replies.len() > 0 {
        let next = batch.advance(host, state, replies.first());
        if batch.rested(next) {
            law_batch_rest_is_final(batch, host, next, replies.drop_first());
        } else {
            law_batch_failure_is_kept(batch, host, next, replies.drop_first());
        }
    }
}

/// The replies that hand over `outcomes`, one after another.
pub open spec fn outcomes_of(outcomes: Seq<OutcomeView>) -> Seq<ReplyView> {
    Seq::new(outcomes.len(), |i: int| ReplyView::Outcome(outcomes[i]))
}

/// Running through one run of replies and then another is running through
/// both on end.
pub proof fn law_batch_runs_on(
    batch: Batch,
    host: DistributionType,
    state: BatchView,
    first: Seq<ReplyView>,
    second: Seq<ReplyView>,
)
    ensures
        batch.run_through(host, state, first + second) == batch.run_through(
            host,
            batch.run_through(host, state, first),
            second,
        ),
    decreases first.len(),
{
    if first.len() == 0 {
        assert(first + second =~= second);
    } else {
        assert((first + second).first() == first.first());
        assert((first + second).drop_first() =~= first.drop_first() + second);
        law_batch_runs_on(
            batch,
            host,
            batch.advance(host, state, first.first()),
            first.drop_first(),
            second,
        );
    }
}

/// In a batch, the unit in turn runs as it would run alone: the outcomes
/// that a driver hands over take it where they would take it by itself,
/// and leave the rest of the batch as it was.
pub proof fn law_batch_runs_its_units(
    batch: Batch,
    host: DistributionType,
    state: BatchView,
    outcomes: Seq<OutcomeView>,
)
    requires
        !batch.rested(state),
    ensures
        batch.run_through(host, state, outcomes_of(outcomes)) == (BatchView {
            unit: batch.plans[state.index].run_through(host, state.unit, outcomes),
            ..state
        }),
    decreases outcomes.len(),
{
    if outcomes.len() > 0 {
        let replies = outcomes_of(outcomes);
        assert(replies.first() == ReplyView::Outcome(outcomes.first()));
        assert(replies.drop_first() =~= outcomes_of(outcomes.drop_first()));
        law_batch_runs_its_units(
            batch,
            host,
            batch.advance(host, state, replies.first()),
            outcomes.drop_first(),
        );
    }
}

/// The turn of one unit in full: once the outcomes that bring the unit to
/// its rest are handed over and its report is written, the next unit
/// begins, as it would begin alone, and the batch remembers whether this
/// unit or one before it failed.
pub proof fn law_batch_takes_a_turn(
    batch: Batch,
    host: DistributionType,
    state: BatchView,
    outcomes: Seq<OutcomeView>,
    status: Status,
)
    requires
        !batch.rested(state),
        batch.plans[state.index].run_through(host, state.unit, outcomes) == UnitState::Rested(
            status,
        ),
    ensures
        batch.run_through(host, state, outcomes_of(outcomes) + seq![ReplyView::Done])
            == batch.enter(host, state.index + 1, state.failed || status == Status::Failure),
{
    law_batch_runs_its_units(batch, host, state, outcomes);
    law_batch_runs_on(batch, host, state, outcomes_of(outcomes), seq![ReplyView::Done]);
    let rested = batch.run_through(host, state, outcomes_of(outcomes));
    reveal_with_fuel(Batch::run_through, 2);
    assert(seq![ReplyView::Done].drop_first() =~= Seq::<ReplyView>::empty());
}

/// Of two units of which the first fails and the second succeeds, both
/// run, and the batch comes to `Failure`: the failure of the first does
/// not keep the second from its turn, and the success of the second does
/// not make the failure good.
pub proof fn law_first_fails_second_still_runs(
    batch: Batch,
    host: DistributionType,
    first: Seq<OutcomeView>,
    second: Seq<OutcomeView>,
)
    requires
        batch.plans.len() == 2,
        batch.plans[0].run_through(host, batch.plans[0].begin(host), first) == UnitState::Rested(
            Status::Failure,
        ),
        batch.plans[1].run_through(host, batch.plans[1].begin(host), second) == UnitState::Rested(
            Status::Success,
        ),
    ensures
        batch.run_through(host, batch.begin(host), outcomes_of(first) + seq![ReplyView::Done])
            == (BatchView { index: 1, failed: true, unit: batch.plans[1].begin(host) }),
        ({
            let replies = outcomes_of(first) + seq![ReplyView::Done] + (outcomes_of(second) + seq![
                ReplyView::Done,
            ]);
            let end = batch.run_through(host, batch.begin(host), replies);
            &&& batch.rested(end)
            &&& batch.status(end) == Some(Status::Failure)
        }),
{
    let turn = outcomes_of(first) + seq![ReplyView::Done];
    let next = outcomes_of(second) + seq![ReplyView::Done];
    law_batch_takes_a_turn(batch, host, batch.begin(host), first, Status::Failure);
    let middle = batch.run_through(host, batch.begin(host), turn);
    law_batch_takes_a_turn(batch, host, middle, second, Status::Success);
    law_batch_runs_on(batch, host, batch.begin(host), turn, next);
}

} // verus!
