//! What holds of every run of a registry.

use crate::distribution::DistributionType;
use crate::laws::entry::law_entry_comes_to_rest;
use crate::protocol::{answers, ReplyView};
use crate::setup::{RegistryStateView, SetupRegistryView, SetupStateView};
use crate::utils::status::Status;
use vstd::prelude::*;

verus! {

/// A step of a registry leaves every entry in its place: none is added,
/// none is taken away, and none but the one in turn is touched. What is
/// touched of that one is its commands alone, and only by pruning.
pub proof fn law_registry_keeps_its_entries(
    registry: SetupRegistryView,
    host: DistributionType,
    state: RegistryStateView,
    reply: ReplyView,
)
    ensures
        registry.after_execute(host, state, reply).entries.len() == registry.entries.len(),
        forall|i: int|
            0 <= i < registry.entries.len() && i != state.index ==> registry.after_execute(
                host,
                state,
                reply,
            ).entries[i] == #[trigger] registry.entries[i],
        registry.has(state.index) ==> {
            let after = registry.after_execute(host, state, reply).entries[state.index];
            after == registry.entries[state.index] || after == registry.entries[state.index].pruned(
                host,
            )
        },
{
}

/// The later entries of a registry ask for the same, whatever a step has
/// made of the entry in turn.
proof fn lemma_budget_is_kept(
    registry: SetupRegistryView,
    host: DistributionType,
    state: RegistryStateView,
    reply: ReplyView,
    index: int,
)
    requires
        index > state.index,
    ensures
        registry.after_execute(host, state, reply).budget_from(index) == registry.budget_from(
            index,
        ),
    decreases registry.entries.len() - index,
{
    if registry.has(index) {
        lemma_budget_is_kept(registry, host, state, reply, index + 1);
    }
}

/// Every reply that answers what a registry waits for takes it nearer to
/// its rest: no run of a registry goes on for ever.
pub proof fn law_registry_comes_to_rest(
    registry: SetupRegistryView,
    host: DistributionType,
    state: RegistryStateView,
    reply: ReplyView,
)
    requires
        registry.fits(state),
        answers(registry.request(state), reply),
    ensures
        registry.after_execute(host, state, reply).remaining(registry.execute(host, state, reply))
            < registry.remaining(state),
        registry.remaining(state) == 0 <==> registry.rested(state),
{
    lemma_budget_is_kept(registry, host, state, reply, state.index + 1);
    if !(state.entry is Rested) {
        law_entry_comes_to_rest(registry.entries[state.index], host, state.entry, reply);
    } else {
        lemma_budget_is_kept(registry, host, state, reply, state.index + 2);
    }
}

/// A registry at rest stays at rest, as it is.
pub proof fn law_registry_rest_is_final(
    registry: SetupRegistryView,
    host: DistributionType,
    state: RegistryStateView,
    replies: Seq<ReplyView>,
)
    requires
        registry.rested(state),
    ensures
        registry.run_through(host, state, replies) == (registry, state),
        registry.reported(host, state, replies) == Seq::<Status>::empty(),
    decreases replies.len(),
{
    if replies.len() > 0 {
        law_registry_rest_is_final(registry, host, state, replies.drop_first());
    }
}

/// The entries of a registry have their turns in list order, one at a
/// time, and none is passed over: a step either stays with the entry in
/// turn, or that entry rests and the next one is announced, whatever the
/// entry before it came to.
pub proof fn law_registry_turns_in_order(
    registry: SetupRegistryView,
    host: DistributionType,
    state: RegistryStateView,
    reply: ReplyView,
)
    requires
        registry.fits(state),
        !registry.rested(state),
    ensures
        ({
            let next = registry.execute(host, state, reply);
            ||| next.index == state.index && next.failed == state.failed
            ||| {
                &&& state.entry is Rested
                &&& next.index == state.index + 1
                &&& next.failed == (state.failed || state.entry == SetupStateView::Rested(
                    Status::Failure,
                ))
                &&& registry.has(next.index) ==> next.entry == SetupStateView::Announcing
            }
        }),
{
}

/// However a driver answers, a registry counts its entries rightly and
/// forgets no failure: it stands as many entries further as reports were
/// written, and remembers a failure exactly if one was remembered before
/// or one of the reported entries rested with `Failure`.
pub proof fn law_registry_remembers_failures(
    registry: SetupRegistryView,
    host: DistributionType,
    state: RegistryStateView,
    replies: Seq<ReplyView>,
)
    requires
        registry.fits(state),
    ensures
        ({
            let (left, end) = registry.run_through(host, state, replies);
            let seen = registry.reported(host, state, replies);
            &&& left.fits(end)
            &&& left.entries.len() == registry.entries.len()
            &&& end.index == state.index + seen.len()
            &&& end.failed == (state.failed || seen.contains(Status::Failure))
        }),
    decreases replies.len(),
{
    if replies.len() > 0 {
        let after = registry.after_execute(host, state, replies.first());
        let next = registry.execute(host, state, replies.first());
        let later = after.reported(host, next, replies.drop_first());
        law_registry_remembers_failures(after, host, next, replies.drop_first());
        let seen = registry.reported(host, state, replies);
        if seen.len() == later.len() + 1 {
            let status = seen[0];
            assert(seen =~= seq![status] + later);
            assert(forall|i: int| 0 <= i < later.len() ==> later[i] == seen[i + 1]);
            if later.contains(Status::Failure) {
                let i = choose|i: int| 0 <= i < later.len() && later[i] == Status::Failure;
                assert(seen[i + 1] == Status::Failure);
            }
            if seen.contains(Status::Failure) {
                let i = choose|i: int| 0 <= i < seen.len() && seen[i] == Status::Failure;
                if i > 0 {
                    assert(later[i - 1] == Status::Failure);
                }
            }
            if status == Status::Failure {
                assert(seen[0] == Status::Failure);
            }
        }
    }
}

/// A registry run from its beginning to its rest has run every entry, in
/// order, and comes to the status of them all: `Failure` if at least one
/// entry rested with `Failure`, else `Success`. The failure of an entry
/// never keeps a later entry from running.
pub proof fn law_registry_aggregates(
    registry: SetupRegistryView,
    host: DistributionType,
    replies: Seq<ReplyView>,
)
    requires
        ({
            let (left, end) = registry.run_through(host, registry.begin(), replies);
            left.rested(end)
        }),
    ensures
        ({
            let (left, end) = registry.run_through(host, registry.begin(), replies);
            let seen = registry.reported(host, registry.begin(), replies);
            &&& seen.len() == registry.entries.len()
            &&& left.status(end) == Some(Status::aggregate(seen))
        }),
{
    law_registry_remembers_failures(registry, host, registry.begin(), replies);
}

} // verus!
