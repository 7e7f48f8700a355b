use crate::distribution::DistributionType;
use crate::protocol::{Reply, ReplyView};
use crate::setup::{SetupState, SetupStateView};
use vstd::prelude::*;

verus! {

/// Something that is set up on a host step by step: it is told what came
/// of its last request, and may change itself on the way.
pub trait ExecutableSetup: View + Sized {
    /// What `reply` in `state` leaves of `entry`, and where it stands then.
    spec fn spec_setup(
        entry: Self::V,
        host: DistributionType,
        state: SetupStateView,
        reply: ReplyView,
    ) -> (Self::V, SetupStateView);

    /// The states that a setup of `entry` can be in.
    spec fn fits(entry: Self::V, state: SetupStateView) -> bool;

    /// One step of the setup: where it stands after `reply`.
    fn setup(&mut self, host: &DistributionType, state: SetupState, reply: &Reply) -> (next:
        SetupState)
        ensures
            (final(self)@, next@) == Self::spec_setup(old(self)@, *host, state@, reply@),
            Self::fits(old(self)@, state@) ==> Self::fits(final(self)@, next@),
    ;
}

} // verus!
