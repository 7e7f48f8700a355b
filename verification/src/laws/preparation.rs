//! What holds of every preparation of a setup entry.

use crate::protocol::{answers, ReplyView};
use crate::setup::{PreparationView, SetupItemView};
use crate::utils::text::{is_affirmative, trimmed};
use vstd::prelude::*;

verus! {

/// Every reply that answers what a preparation waits for takes it nearer
/// to its end: the directory takes two requests at most, each variable four.
pub proof fn law_preparation_comes_to_rest(
    item: SetupItemView,
    state: PreparationView,
    reply: ReplyView,
)
    requires
        item.fits(state),
        answers(item.request(state), reply),
    ensures
        item.fits(item.advance(state, reply)),
        item.remaining(item.advance(state, reply)) < item.remaining(state),
        item.remaining(item.begin()) <= 4 * item.variables() + 2,
        item.remaining(state) == 0 <==> (state is Ready || state is Failed),
{
}

/// A variable is set only where the user has said yes to its value: a
/// step that leaves the preparation waiting for a variable to be set
/// starts from the confirmation of that very value, with an answer that
/// means yes. Any other answer leaves the variable as it is, and the
/// preparation goes on with the next one.
pub proof fn law_variable_is_set_only_when_confirmed(
    item: SetupItemView,
    state: PreparationView,
    reply: ReplyView,
)
    requires
        item.fits(state),
        !(state is Store),
    ensures
        item.advance(state, reply) matches PreparationView::Store(place, value) ==> {
            &&& state == PreparationView::Confirmation(place, value)
            &&& reply matches ReplyView::Line(answer)
            &&& is_affirmative(answer)
        },
        state is Confirmation ==> (reply matches ReplyView::Line(answer) ==> {
            if is_affirmative(answer) {
                item.advance(state, reply) is Store
            } else {
                item.advance(state, reply) == item.enter_variable(state.place()->0 + 1)
            }
        }),
        state is Value ==> (reply matches ReplyView::Line(typed) ==> item.advance(state, reply)
            == PreparationView::Confirmation(state.place()->0, trimmed(typed))),
{
}

/// What is there is left alone: a working directory that exists is not
/// created, and a variable that is set is neither asked for nor set. The
/// preparation goes straight on.
pub proof fn law_what_is_there_is_left_alone(item: SetupItemView, place: int)
    ensures
        item.working_dir is Some ==> item.advance(
            PreparationView::Directory,
            ReplyView::Found(true),
        ) == item.enter_variable(0),
        item.working_dir is Some ==> item.advance(
            PreparationView::Directory,
            ReplyView::Found(false),
        ) == PreparationView::Creating,
        item.has_variable(place) ==> item.advance(
            PreparationView::Lookup(place),
            ReplyView::Found(true),
        ) == item.enter_variable(place + 1),
        item.has_variable(place) ==> item.advance(
            PreparationView::Lookup(place),
            ReplyView::Found(false),
        ) == PreparationView::Value(place),
        !(item.enter_variable(place) is Creating),
        !(item.enter_variable(place) is Value),
        !(item.enter_variable(place) is Store),
{
}

} // verus!
