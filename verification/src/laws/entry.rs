//! What holds of every run of a setup entry.

use crate::batch::BatchView;
use crate::command::CommandView;
use crate::distribution::DistributionType;
use crate::process::OutcomeView;
use crate::protocol::{answers, ReplyView};
use crate::laws::batch::{
    law_batch_begins_fitting, law_batch_comes_to_rest, law_batch_rest_is_final,
    law_first_fails_second_still_runs, outcomes_of,
};
use crate::laws::preparation::law_preparation_comes_to_rest;
use crate::laws::status::law_aggregate_is_failure_of_any;
use crate::setup::{applies_to, PreparationView, SetupEntryView, SetupStateView};
use crate::unit::UnitState;
use crate::utils::status::Status;
use vstd::prelude::*;

verus! {

/// Pruning leaves only commands that apply to the host, each of which was
/// in the entry before; nothing but the commands is touched.
pub proof fn law_pruned_commands_apply(entry: SetupEntryView, host: DistributionType)
    ensures
        forall|i: int|
            0 <= i < entry.pruned(host).commands.len() ==> !(#[trigger] entry.pruned(
                host,
            ).commands[i]).should_skip(host),
        forall|i: int|
            0 <= i < entry.pruned(host).commands.len() ==> entry.commands.contains(
                #[trigger] entry.pruned(host).commands[i],
            ),
        forall|i: int|
            0 <= i < entry.commands.len() && !(#[trigger] entry.commands[i]).should_skip(host)
                ==> entry.pruned(host).commands.contains(entry.commands[i]),
        entry.pruned(host).commands.len() <= entry.commands.len(),
        entry.pruned(host).check == entry.check,
        entry.pruned(host).configs == entry.configs,
        entry.pruned(host).setup == entry.setup,
        entry.pruned(host).description == entry.description,
{
    let keep = applies_to(host);
    let kept = entry.commands.filter(keep);
    broadcast use vstd::seq_lib::group_filter_ensures;

    assert forall|i: int| 0 <= i < kept.len() implies !(#[trigger] kept[i]).should_skip(host) by {
        entry.commands.lemma_filter_pred(keep, i);
    }
    assert forall|i: int| 0 <= i < kept.len() implies entry.commands.contains(
        #[trigger] kept[i],
    ) by {
        assert(kept.contains(kept[i]));
        entry.commands.lemma_filter_contains_rev(keep, kept[i]);
    }
    assert forall|i: int|
        0 <= i < entry.commands.len() && !(#[trigger] entry.commands[i]).should_skip(
            host,
        ) implies kept.contains(entry.commands[i]) by {
        entry.commands.lemma_filter_contains(keep, i);
    }
}

/// Pruning an entry whose commands all apply to the host changes nothing;
/// so pruning twice is pruning once.
pub proof fn law_pruning_is_idempotent(entry: SetupEntryView, host: DistributionType)
    ensures
        (forall|i: int| 0 <= i < entry.commands.len() ==> !(#[trigger] entry.commands[i]).should_skip(host))
            ==> entry.pruned(host) == entry,
        entry.pruned(host).pruned(host) == entry.pruned(host),
{
    if forall|i: int| 0 <= i < entry.commands.len() ==> !(#[trigger] entry.commands[i]).should_skip(host) {
        lemma_filter_all(entry.commands, host);
    }
    law_pruned_commands_apply(entry, host);
    lemma_filter_all(entry.pruned(host).commands, host);
}

proof fn lemma_filter_all(commands: Seq<CommandView>, host: DistributionType)
    requires
        forall|i: int| 0 <= i < commands.len() ==> !(#[trigger] commands[i]).should_skip(host),
    ensures
        commands.filter(applies_to(host)) == commands,
    decreases commands.len(),
{
    reveal(Seq::filter);
    if commands.len() > 0 {
        lemma_filter_all(commands.drop_last(), host);
        assert(commands.drop_last().push(commands.last()) =~= commands);
    }
}

/// A reply that does not answer what the entry waits for changes nothing.
pub proof fn law_entry_ignores_other_replies(
    entry: SetupEntryView,
    host: DistributionType,
    state: SetupStateView,
    reply: ReplyView,
)
    requires
        entry.fits(state),
        !answers(entry.request(state), reply),
    ensures
        entry.setup(host, state, reply) == state,
        entry.after_setup(host, state, reply) == entry,
{
}

/// An entry is pruned in one step of its life only, the step that finds
/// it prepared and takes it on to its guard. Before that it is left as it
/// was; and so is an entry that fails in its preparation, and one that
/// runs already.
pub proof fn law_entry_is_pruned_when_prepared(
    entry: SetupEntryView,
    host: DistributionType,
    state: SetupStateView,
    reply: ReplyView,
)
    requires
        entry.fits(state),
        state is Announcing || state is Preparing,
    ensures
        ({
            let next = entry.setup(host, state, reply);
            let left = entry.after_setup(host, state, reply);
            &&& next is Announcing || next is Preparing ==> left == entry
            &&& next == SetupStateView::Rested(Status::Failure) ==> left == entry
            &&& next is Guard || next is Commands || next is Configs || next
                == SetupStateView::Rested(Status::Success) ==> left == entry.pruned(host)
            &&& left.fits(next)
        }),
        forall|later: SetupStateView, other: ReplyView|
            !(later is Announcing) && !(later is Preparing) ==> #[trigger] entry.after_setup(
                host,
                later,
                other,
            ) == entry,
{
    if entry.prunes(state, reply) {
        lemma_phases_are_bounded(entry.pruned(host), host);
    }
}

/// Every reply that answers what an entry waits for takes it nearer to
/// its rest: no run of an entry goes on for ever.
pub proof fn law_entry_comes_to_rest(
    entry: SetupEntryView,
    host: DistributionType,
    state: SetupStateView,
    reply: ReplyView,
)
    requires
        entry.fits(state),
        answers(entry.request(state), reply),
    ensures
        entry.after_setup(host, state, reply).fits(entry.setup(host, state, reply)),
        entry.after_setup(host, state, reply).remaining(entry.setup(host, state, reply))
            < entry.remaining(state),
        entry.remaining(state) == 0 <==> state is Rested,
{
    lemma_phases_are_bounded(entry, host);
    let pruned = entry.pruned(host);
    lemma_phases_are_bounded(pruned, host);
    entry.commands.lemma_filter_len(applies_to(host));
    match state {
        SetupStateView::Preparing(preparation) => {
            law_preparation_comes_to_rest(entry.setup->0, preparation, reply);
        },
        SetupStateView::Commands(batch) => {
            law_batch_comes_to_rest(entry.command_batch(), host, batch, reply);
        },
        SetupStateView::Configs(batch) => {
            law_batch_comes_to_rest(entry.config_batch(), host, batch, reply);
        },
        _ => {},
    }
}

/// Entering a phase leaves the entry in a state that fits it, with no more
/// to do than the phase and those behind it can hold.
proof fn lemma_phases_are_bounded(entry: SetupEntryView, host: DistributionType)
    ensures
        entry.fits(entry.enter_configs(host)),
        entry.fits(entry.enter_commands(host)),
        entry.fits(entry.enter_guard(host)),
        entry.remaining(entry.enter_configs(host)) <= 5 * entry.config_batch().plans.len(),
        entry.remaining(entry.enter_commands(host)) <= 5 * entry.command_batch().plans.len() + 5
            * entry.config_batch().plans.len(),
        entry.remaining(entry.enter_guard(host)) <= 5 * entry.command_batch().plans.len() + 5
            * entry.config_batch().plans.len() + 1,
        forall|batch: BatchView|
            entry.config_batch().fits(batch) ==> entry.remaining(
                #[trigger] entry.after_configs(batch),
            ) == entry.config_batch().remaining(batch),
        forall|batch: BatchView|
            entry.command_batch().fits(batch) ==> entry.remaining(
                #[trigger] entry.after_commands(host, batch),
            ) <= entry.command_batch().remaining(batch) + 5 * entry.config_batch().plans.len(),
{
    let configs = entry.config_batch();
    let commands = entry.command_batch();
    law_batch_begins_fitting(configs, host);
    law_batch_begins_fitting(commands, host);
    assert(configs.remaining(configs.begin(host)) <= 5 * configs.plans.len());
    assert(commands.remaining(commands.begin(host)) <= 5 * commands.plans.len());
}

/// An entry at rest stays at rest, as it is.
pub proof fn law_entry_rest_is_final(
    entry: SetupEntryView,
    host: DistributionType,
    status: Status,
    replies: Seq<ReplyView>,
)
    ensures
        entry.run_through(host, SetupStateView::Rested(status), replies) == (
            entry,
            SetupStateView::Rested(status),
        ),
    decreases replies.len(),
{
    if replies.len() > 0 {
        law_entry_rest_is_final(entry, host, status, replies.drop_first());
    }
}

/// A run of an entry never leaves the states that fit it; so an entry
/// rests only with `Success` or with `Failure`, and waits for something
/// as long as it does not rest. What is left of the entry is the entry
/// itself, or the entry pruned.
pub proof fn law_entry_keeps_fitting(
    entry: SetupEntryView,
    host: DistributionType,
    state: SetupStateView,
    replies: Seq<ReplyView>,
)
    requires
        entry.fits(state),
    ensures
        ({
            let (left, end) = entry.run_through(host, state, replies);
            &&& left.fits(end)
            &&& left == entry || left == entry.pruned(host)
            &&& end matches SetupStateView::Rested(status) ==> status == Status::Success || status
                == Status::Failure
            &&& left.request(end) is None <==> end is Rested
        }),
    decreases replies.len(),
{
    if replies.len() > 0 {
        let after = entry.after_setup(host, state, replies.first());
        let next = entry.setup(host, state, replies.first());
        lemma_phases_are_bounded(entry.pruned(host), host);
        law_pruning_is_idempotent(entry, host);
        assert(after.fits(next));
        law_entry_keeps_fitting(after, host, next, replies.drop_first());
    }
}

/// Where what an entry needs cannot be made to be there, the entry rests
/// with `Failure`, and nothing of it is run: it is not even pruned.
pub proof fn law_failed_preparation_fails_the_entry(
    entry: SetupEntryView,
    host: DistributionType,
    preparation: PreparationView,
    reply: ReplyView,
    replies: Seq<ReplyView>,
)
    requires
        entry.setup matches Some(item) && item.advance(preparation, reply) is Failed,
    ensures
        entry.setup(host, SetupStateView::Preparing(preparation), reply) == SetupStateView::Rested(
            Status::Failure,
        ),
        entry.after_setup(host, SetupStateView::Preparing(preparation), reply) == entry,
        entry.run_through(
            host,
            SetupStateView::Preparing(preparation),
            seq![reply] + replies,
        ) == (entry, SetupStateView::Rested(Status::Failure)),
{
    law_entry_rest_is_final(entry, host, Status::Failure, replies);
    assert((seq![reply] + replies).first() == reply);
    assert((seq![reply] + replies).drop_first() =~= replies);
}

/// From its guard on, an entry is what its run makes of it: nothing is
/// pruned any more, and every step is a step of the run.
pub proof fn law_prepared_entry_runs(
    entry: SetupEntryView,
    host: DistributionType,
    state: SetupStateView,
    replies: Seq<ReplyView>,
)
    requires
        !(state is Announcing),
        !(state is Preparing),
    ensures
        entry.run_through(host, state, replies).0 == entry,
        replies.len() > 0 ==> entry.run_through(host, state, replies) == entry.run_through(
            host,
            entry.run(host, state, replies.first()),
            replies.drop_first(),
        ),
        !(entry.run_through(host, state, replies).1 is Announcing),
        !(entry.run_through(host, state, replies).1 is Preparing),
    decreases replies.len(),
{
    if replies.len() > 0 {
        law_prepared_entry_runs(
            entry,
            host,
            entry.run(host, state, replies.first()),
            replies.drop_first(),
        );
    }
}

/// Where the guard of an entry is satisfied, the entry goes past its
/// commands: none of them is run, now or later, and the entry turns to its
/// configurations at once.
pub proof fn law_satisfied_guard_bypasses_commands(
    entry: SetupEntryView,
    host: DistributionType,
    probe: OutcomeView,
    replies: Seq<ReplyView>,
)
    requires
        entry.check is Some,
        probe.satisfies_check(),
    ensures
        entry.run(host, SetupStateView::Guard, ReplyView::Outcome(probe)) == entry.enter_configs(
            host,
        ),
        !(entry.run_through(
            host,
            entry.run(host, SetupStateView::Guard, ReplyView::Outcome(probe)),
            replies,
        ).1 is Commands),
        entry.configs is None ==> entry.run(host, SetupStateView::Guard, ReplyView::Outcome(probe))
            == SetupStateView::Rested(Status::Success),
{
    lemma_configs_never_go_back(entry, host, entry.enter_configs(host), replies);
}

/// From its configurations on, an entry never turns to its commands again.
proof fn lemma_configs_never_go_back(
    entry: SetupEntryView,
    host: DistributionType,
    state: SetupStateView,
    replies: Seq<ReplyView>,
)
    requires
        state is Configs || state is Rested,
    ensures
        entry.run_through(host, state, replies).1 is Configs || entry.run_through(
            host,
            state,
            replies,
        ).1 is Rested,
    decreases replies.len(),
{
    if replies.len() > 0 {
        lemma_configs_never_go_back(
            entry,
            host,
            entry.run(host, state, replies.first()),
            replies.drop_first(),
        );
    }
}

/// Whether a failure is on record in the command phase: a command before
/// the one in turn has failed, or the one in turn has just rested with
/// `Failure`.
pub open spec fn failure_on_record(batch: BatchView) -> bool {
    batch.failed || batch.unit == UnitState::Rested(Status::Failure)
}

/// Once a command of an entry has failed, none of its configurations is
/// ever looked at: however a driver answers, the entry stays with its
/// commands, which all still get their turn, until it rests with `Failure`.
pub proof fn law_failed_commands_end_the_entry(
    entry: SetupEntryView,
    host: DistributionType,
    batch: BatchView,
    replies: Seq<ReplyView>,
)
    requires
        entry.fits(SetupStateView::Commands(batch)),
        failure_on_record(batch),
    ensures
        ({
            let end = entry.run_through(host, SetupStateView::Commands(batch), replies).1;
            ||| end == SetupStateView::Rested(Status::Failure)
            ||| (end matches SetupStateView::Commands(later) && failure_on_record(later)
                && entry.fits(end))
        }),
        !(entry.run_through(host, SetupStateView::Commands(batch), replies).1 is Configs),
    decreases replies.len(),
{
    if replies.len() > 0 {
        let next = entry.run(host, SetupStateView::Commands(batch), replies.first());
        match next {
            SetupStateView::Commands(later) => {
                law_failed_commands_end_the_entry(entry, host, later, replies.drop_first());
            },
            _ => {
                assert(next == SetupStateView::Rested(Status::Failure));
                law_entry_rest_is_final(entry, host, Status::Failure, replies.drop_first());
            },
        }
    }
}

/// The configurations of an entry are looked at only once its commands
/// are through without a failure, or were bypassed by the guard: a step
/// that takes the entry from its guard or its commands to its
/// configurations starts from a satisfied guard, from a guard with no
/// command behind it, or from the last command at rest with no failure on
/// record.
pub proof fn law_configs_follow_clean_commands(
    entry: SetupEntryView,
    host: DistributionType,
    state: SetupStateView,
    reply: ReplyView,
)
    requires
        entry.fits(state),
        state is Commands || state is Guard,
        entry.run(host, state, reply) is Configs,
    ensures
        state matches SetupStateView::Commands(batch) ==> (!failure_on_record(batch)
            && batch.index == entry.commands.len() - 1),
        state is Guard ==> (reply matches ReplyView::Outcome(probe) && (probe.satisfies_check()
            || entry.commands.len() == 0)),
{
}

/// While an entry is with its commands, it stands where the batch of its
/// commands stands; and when that batch comes to rest with a failure, the
/// entry rests with `Failure`.
pub proof fn law_entry_follows_its_commands(
    entry: SetupEntryView,
    host: DistributionType,
    batch: BatchView,
    replies: Seq<ReplyView>,
)
    requires
        !entry.command_batch().rested(batch),
    ensures
        ({
            let end = entry.command_batch().run_through(host, batch, replies);
            let state = entry.run_through(host, SetupStateView::Commands(batch), replies).1;
            &&& !entry.command_batch().rested(end) ==> state == SetupStateView::Commands(end)
            &&& entry.command_batch().rested(end) && end.failed ==> state
                == SetupStateView::Rested(Status::Failure)
        }),
    decreases replies.len(),
{
    if replies.len() > 0 {
        let commands = entry.command_batch();
        let next = commands.advance(host, batch, replies.first());
        if commands.rested(next) {
            law_batch_rest_is_final(commands, host, next, replies.drop_first());
            if next.failed {
                law_entry_rest_is_final(entry, host, Status::Failure, replies.drop_first());
            }
        } else {
            law_entry_follows_its_commands(entry, host, next, replies.drop_first());
        }
    }
}

/// An entry with two commands of which the first fails and the second
/// succeeds runs both, and rests with `Failure`, whatever configurations
/// it has: none of them is looked at.
pub proof fn law_entry_with_a_failed_command_fails(
    entry: SetupEntryView,
    host: DistributionType,
    first: Seq<OutcomeView>,
    second: Seq<OutcomeView>,
)
    requires
        entry.commands.len() == 2,
        entry.commands[0].plan().run_through(host, entry.commands[0].plan().begin(host), first)
            == UnitState::Rested(Status::Failure),
        entry.commands[1].plan().run_through(host, entry.commands[1].plan().begin(host), second)
            == UnitState::Rested(Status::Success),
    ensures
        entry.enter_commands(host) == SetupStateView::Commands(entry.command_batch().begin(host)),
        entry.run_through(
            host,
            entry.enter_commands(host),
            outcomes_of(first) + seq![ReplyView::Done],
        ).1 == SetupStateView::Commands(
            BatchView { index: 1, failed: true, unit: entry.commands[1].plan().begin(host) },
        ),
        entry.run_through(
            host,
            entry.enter_commands(host),
            outcomes_of(first) + seq![ReplyView::Done] + (outcomes_of(second) + seq![
                ReplyView::Done,
            ]),
        ).1 == SetupStateView::Rested(Status::Failure),
{
    let commands = entry.command_batch();
    law_first_fails_second_still_runs(commands, host, first, second);
    law_entry_follows_its_commands(
        entry,
        host,
        commands.begin(host),
        outcomes_of(first) + seq![ReplyView::Done],
    );
    law_entry_follows_its_commands(
        entry,
        host,
        commands.begin(host),
        outcomes_of(first) + seq![ReplyView::Done] + (outcomes_of(second) + seq![ReplyView::Done]),
    );
}

/// Whether a failure is on record in `state`: among the commands or the
/// configurations before the one in turn, or as the status that the
/// entry rests with.
pub open spec fn failure_recorded(state: SetupStateView) -> bool {
    match state {
        SetupStateView::Commands(batch) => batch.failed,
        SetupStateView::Configs(batch) => batch.failed,
        SetupStateView::Rested(status) => status == Status::Failure,
        _ => false,
    }
}

/// Whether `statuses` hold a failure.
pub open spec fn any_failed(statuses: Seq<Status>) -> bool {
    statuses.contains(Status::Failure)
}

/// A failure is among statuses exactly if it is the first of them or
/// among the rest.
proof fn lemma_failure_among(status: Status, later: Seq<Status>)
    ensures
        any_failed(seq![status] + later) == (status == Status::Failure || any_failed(later)),
{
    let all = seq![status] + later;
    if any_failed(later) {
        let i = choose|i: int| 0 <= i < later.len() && later[i] == Status::Failure;
        assert(all[i + 1] == Status::Failure);
    }
    if status == Status::Failure {
        assert(all[0] == Status::Failure);
    }
    if any_failed(all) {
        let i = choose|i: int| 0 <= i < all.len() && all[i] == Status::Failure;
        if i > 0 {
            assert(later[i - 1] == Status::Failure);
        }
    }
}

/// How the statuses of its commands and configurations make the status
/// of an entry. However a driver answers a prepared entry, a failure is
/// on record in the end exactly if one was on record before, or a command
/// or a configuration has been reported with `Failure` since. So an entry
/// that comes to rest from its guard rests with the status of all that
/// was reported together: with `Failure` if one of them failed, and with
/// `Success` if none did. And no configuration is reported once a command
/// has failed.
pub proof fn law_entry_status_is_the_aggregate(
    entry: SetupEntryView,
    host: DistributionType,
    state: SetupStateView,
    replies: Seq<ReplyView>,
)
    requires
        entry.fits(state),
        !(state is Announcing),
        !(state is Preparing),
    ensures
        ({
            let end = entry.run_through(host, state, replies).1;
            let commands = entry.reported_commands(host, state, replies);
            let configs = entry.reported_configs(host, state, replies);
            &&& end is Rested ==> failure_recorded(end) == (failure_recorded(state) || any_failed(
                commands,
            ) || any_failed(configs))
            &&& end matches SetupStateView::Rested(status) ==> status == if failure_recorded(state)
                || any_failed(commands) || any_failed(configs) {
                Status::Failure
            } else {
                Status::Success
            }
            &&& !failure_recorded(state) ==> (end matches SetupStateView::Rested(status) ==> status
                == Status::aggregate(commands + configs))
            &&& any_failed(commands) ==> configs.len() == 0
            &&& (state is Configs || state is Rested) ==> commands.len() == 0
        }),
    decreases replies.len(),
{
    law_aggregate_is_failure_of_any(
        entry.reported_commands(host, state, replies),
        entry.reported_configs(host, state, replies),
    );
    law_prepared_entry_runs(entry, host, state, replies);
    law_entry_keeps_fitting(entry, host, state, replies);
    if replies.len() > 0 {
        let reply = replies.first();
        let next = entry.run(host, state, reply);
        let rest = replies.drop_first();
        lemma_run_keeps_fitting(entry, host, state, reply);
        law_entry_status_is_the_aggregate(entry, host, next, rest);
        let later_commands = entry.reported_commands(host, next, rest);
        let later_configs = entry.reported_configs(host, next, rest);
        match (state, reply) {
            (SetupStateView::Commands(batch), ReplyView::Done) => match batch.unit {
                UnitState::Rested(status) => {
                    lemma_failure_among(status, later_commands);
                    if status == Status::Failure {
                        lemma_no_configs_after_failure(entry, host, next, rest);
                    }
                },
                _ => {},
            },
            (SetupStateView::Configs(batch), ReplyView::Done) => match batch.unit {
                UnitState::Rested(status) => {
                    lemma_failure_among(status, later_configs);
                },
                _ => {},
            },
            _ => {},
        }
        match state {
            SetupStateView::Commands(batch) => {
                if batch.failed {
                    lemma_no_configs_after_failure(entry, host, next, rest);
                }
            },
            _ => {},
        }
    }
}

/// A step of a prepared entry leaves it in a state that fits it.
proof fn lemma_run_keeps_fitting(
    entry: SetupEntryView,
    host: DistributionType,
    state: SetupStateView,
    reply: ReplyView,
)
    requires
        entry.fits(state),
        !(state is Announcing),
        !(state is Preparing),
    ensures
        entry.fits(entry.run(host, state, reply)),
        !(entry.run(host, state, reply) is Announcing),
        !(entry.run(host, state, reply) is Preparing),
        (state is Configs || state is Rested) ==> (entry.run(host, state, reply) is Configs
            || entry.run(host, state, reply) is Rested),
{
    lemma_phases_are_bounded(entry, host);
}

/// From a command phase with a failure on record, or from a rest with
/// `Failure`, no configuration is ever reported.
proof fn lemma_no_configs_after_failure(
    entry: SetupEntryView,
    host: DistributionType,
    state: SetupStateView,
    replies: Seq<ReplyView>,
)
    requires
        entry.fits(state),
        state == SetupStateView::Rested(Status::Failure) || (state matches SetupStateView::Commands(
            batch,
        ) && batch.failed),
    ensures
        entry.reported_configs(host, state, replies).len() == 0,
    decreases replies.len(),
{
    if replies.len() > 0 {
        lemma_phases_are_bounded(entry, host);
        let next = entry.run(host, state, replies.first());
        lemma_no_configs_after_failure(entry, host, next, replies.drop_first());
    }
}

} // verus!
