//! What holds of the statuses and their presentation.

use crate::traits::spec_after_run;
use crate::utils::status::{Status, Stream};
use vstd::prelude::*;

verus! {

/// Every status has one badge and one stream, whatever line it reports:
/// only a failure goes to the error stream, and only `Normal` has no badge.
pub proof fn law_presentation_is_fixed(status: Status)
    ensures
        status.spec_stream() == Stream::Stderr <==> status == Status::Failure,
        status.spec_stream() == Stream::Stdout <==> status != Status::Failure,
        status.spec_badge() is None <==> status == Status::Normal,
        forall|message: Seq<char>|
            status == Status::Normal ==> #[trigger] status.spec_format_message(message)
                == message,
{
}

/// What a unit rests with is a resting status: whatever its run came to,
/// neither `Running` nor `Normal` nor `Warning` gets out; and a resting
/// status is handed on as it is.
pub proof fn law_after_run_rests(status: Status)
    ensures
        spec_after_run(status).is_resting(),
        status.is_resting() ==> spec_after_run(status) == status,
        spec_after_run(spec_after_run(status)) == spec_after_run(status),
{
}

/// The status of several units together is `Failure` exactly if one of
/// them is `Failure`, wherever it stands among them; else it is `Success`.
pub proof fn law_aggregate_is_failure_of_any(statuses: Seq<Status>, more: Seq<Status>)
    ensures
        Status::aggregate(statuses) == Status::Failure <==> exists|i: int|
            0 <= i < statuses.len() && statuses[i] == Status::Failure,
        Status::aggregate(statuses) == Status::Success || Status::aggregate(statuses)
            == Status::Failure,
        Status::aggregate(Seq::empty()) == Status::Success,
        Status::aggregate(statuses + more) == Status::Failure <==> (Status::aggregate(statuses)
            == Status::Failure || Status::aggregate(more) == Status::Failure),
{
    let all = statuses + more;
    if statuses.contains(Status::Failure) {
        let i = choose|i: int| 0 <= i < statuses.len() && statuses[i] == Status::Failure;
        assert(all[i] == Status::Failure);
    }
    if more.contains(Status::Failure) {
        let i = choose|i: int| 0 <= i < more.len() && more[i] == Status::Failure;
        assert(all[statuses.len() + i] == Status::Failure);
    }
    if all.contains(Status::Failure) {
        let i = choose|i: int| 0 <= i < all.len() && all[i] == Status::Failure;
        if i < statuses.len() {
            assert(statuses[i] == Status::Failure);
        } else {
            assert(more[i - statuses.len()] == Status::Failure);
        }
    }
}

} // verus!
