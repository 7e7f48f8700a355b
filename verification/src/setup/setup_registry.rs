use crate::distribution::DistributionType;
use crate::protocol::{request_view, Reply, ReplyView, Request, RequestView};
use crate::setup::setup_entry::{SetupEntry, SetupEntryView, SetupState, SetupStateView};
use crate::traits::executable_setup::ExecutableSetup;
use crate::traits::Repository;
use crate::utils::status::Status;
use vstd::prelude::*;

verus! {

/// The setup entries of a host, in the order in which they run.
#[derive(PartialEq, Eq, Debug)]
pub struct SetupRegistry {
    entries: Vec<SetupEntry>,
}

/// A [`SetupRegistry`] as a mathematical value.
pub struct SetupRegistryView {
    pub entries: Seq<SetupEntryView>,
}

/// Where the run of a registry stands.
#[derive(PartialEq, Eq, Debug)]
pub struct RegistryState {
    /// The place of the entry whose turn it is; the number of entries
    /// once all have had theirs.
    pub index: usize,
    /// Whether an entry before this one has failed.
    pub failed: bool,
    /// Where the entry whose turn it is stands.
    pub entry: SetupState,
}

/// A [`RegistryState`] as a mathematical value.
pub struct RegistryStateView {
    pub index: int,
    pub failed: bool,
    pub entry: SetupStateView,
}

impl View for RegistryState {
    type V = RegistryStateView;

    open spec fn view(&self) -> RegistryStateView {
        RegistryStateView { index: self.index as int, failed: self.failed, entry: self.entry@ }
    }
}

/// The views of `entries`, in order.
pub open spec fn entry_views(entries: Seq<SetupEntry>) -> Seq<SetupEntryView> {
    Seq::new(entries.len(), |i: int| entries[i]@)
}

impl View for SetupRegistry {
    type V = SetupRegistryView;

    closed spec fn view(&self) -> SetupRegistryView {
        SetupRegistryView { entries: entry_views(self.entries@) }
    }
}

impl SetupRegistryView {
    /// Whether `index` is the place of an entry.
    pub open spec fn has(self, index: int) -> bool {
        0 <= index < self.entries.len()
    }

    /// The state in which the entry at `index` begins, or the registry
    /// rests where there is no such entry.
    pub open spec fn enter(self, index: int, failed: bool) -> RegistryStateView {
        RegistryStateView {
            index,
            failed,
            entry: if self.has(index) {
                SetupStateView::Announcing
            } else {
                SetupStateView::Rested(Status::spec_of_failed(failed))
            },
        }
    }

    /// The state in which the run of the registry begins.
    pub open spec fn begin(self) -> RegistryStateView {
        self.enter(0, false)
    }

    /// The registry rests once every entry has had its turn.
    pub open spec fn rested(self, state: RegistryStateView) -> bool {
        !self.has(state.index)
    }

    /// The status of a registry at rest: `Failure` if an entry failed, else
    /// `Success`.
    pub open spec fn status(self, state: RegistryStateView) -> Option<Status> {
        if self.rested(state) {
            Some(Status::spec_of_failed(state.failed))
        } else {
            None
        }
    }

    /// What the registry waits for in `state`: what the entry in turn
    /// waits for, or the report of that entry once it rests; nothing once
    /// the registry itself rests.
    pub open spec fn request(self, state: RegistryStateView) -> Option<RequestView> {
        if self.rested(state) {
            None
        } else {
            match state.entry {
                SetupStateView::Rested(status) => Some(
                    RequestView::Report { status, subject: self.entries[state.index].description },
                ),
                _ => self.entries[state.index].request(state.entry),
            }
        }
    }

    /// Where the registry stands after `reply`. The entries run in their
    /// order, one at a time, and each of them to its end: the failure of
    /// one is remembered, and does not keep the next from running.
    pub open spec fn execute(self, host: DistributionType, state: RegistryStateView, reply: ReplyView)
        -> RegistryStateView {
        if self.rested(state) {
            state
        } else {
            match (state.entry, reply) {
                (SetupStateView::Rested(status), ReplyView::Done) => self.enter(
                    state.index + 1,
                    state.failed || status == Status::Failure,
                ),
                (SetupStateView::Rested(_), _) => state,
                _ => RegistryStateView {
                    entry: self.entries[state.index].setup(host, state.entry, reply),
                    ..state
                },
            }
        }
    }

    /// What `reply` in `state` leaves of the registry: the entry in turn
    /// is pruned in the step in which it is found prepared; no other entry
    /// is touched, and none is added or taken away.
    pub open spec fn after_execute(
        self,
        host: DistributionType,
        state: RegistryStateView,
        reply: ReplyView,
    ) -> SetupRegistryView {
        if self.rested(state) {
            self
        } else {
            SetupRegistryView {
                entries: self.entries.update(
                    state.index,
                    self.entries[state.index].after_setup(host, state.entry, reply),
                ),
            }
        }
    }

    /// What is left of the registry, and where it stands, after a driver
    /// has handed it `replies`, one after another, from `state` on.
    pub open spec fn run_through(
        self,
        host: DistributionType,
        state: RegistryStateView,
        replies: Seq<ReplyView>,
    ) -> (SetupRegistryView, RegistryStateView)
        decreases replies.len(),
    {
        if replies.len() == 0 {
            (self, state)
        } else {
            self.after_execute(host, state, replies.first()).run_through(
                host,
                self.execute(host, state, replies.first()),
                replies.drop_first(),
            )
        }
    }

    /// The statuses that entries have rested with on that way, in the
    /// order of the entries: one for each entry whose report the driver has
    /// written.
    pub open spec fn reported(
        self,
        host: DistributionType,
        state: RegistryStateView,
        replies: Seq<ReplyView>,
    ) -> Seq<Status>
        decreases replies.len(),
    {
        if replies.len() == 0 {
            Seq::empty()
        } else {
            let later = self.after_execute(host, state, replies.first()).reported(
                host,
                self.execute(host, state, replies.first()),
                replies.drop_first(),
            );
            match (state.entry, replies.first()) {
                (SetupStateView::Rested(status), ReplyView::Done) if !self.rested(state) => seq![
                    status,
                ] + later,
                _ => later,
            }
        }
    }

    /// How many requests the entries from `index` on may make, at most,
    /// with the report of each.
    pub open spec fn budget_from(self, index: int) -> nat
        decreases self.entries.len() - index,
    {
        if self.has(index) {
            self.entries[index].remaining(SetupStateView::Announcing) + 1 + self.budget_from(
                index + 1,
            )
        } else {
            0
        }
    }

    /// How many requests the registry may still make, at most.
    pub open spec fn remaining(self, state: RegistryStateView) -> nat {
        if self.rested(state) {
            0
        } else {
            self.entries[state.index].remaining(state.entry) + 1 + self.budget_from(
                state.index + 1,
            )
        }
    }

    /// The states that a run of the registry can be in.
    pub open spec fn fits(self, state: RegistryStateView) -> bool {
        &&& 0 <= state.index <= self.entries.len()
        &&& self.has(state.index) ==> self.entries[state.index].fits(state.entry)
    }
}

impl Repository<SetupEntry> for SetupRegistry {
    closed spec fn items(&self) -> Seq<SetupEntry> {
        self.entries@
    }

    fn new() -> (repository: Self) {
        SetupRegistry { entries: Vec::new() }
    }

    fn add(&mut self, item: SetupEntry) {
        self.entries.push(item);
    }
}

impl SetupRegistry {
    /// The views of the registry's entries are the views of its items.
    pub proof fn lemma_view_of_items(&self)
        ensures
            self@.entries == entry_views(self.items()),
    {
    }

    /// The entries, in the order in which they run.
    pub fn entries(&self) -> (entries: &Vec<SetupEntry>)
        ensures
            entries@ == self.items(),
            entry_views(entries@) == self@.entries,
    {
        &self.entries
    }

    fn enter(&self, index: usize, failed: bool) -> (state: RegistryState)
        requires
            index <= self@.entries.len(),
        ensures
            state@ == self@.enter(index as int, failed),
            self@.fits(state@),
    {
        let entry = if index < self.entries.len() {
            SetupState::Announcing
        } else {
            SetupState::Rested(Status::of_failed(failed))
        };
        RegistryState { index, failed, entry }
    }

    /// The state in which the run of the registry begins.
    pub fn begin(&self) -> (state: RegistryState)
        ensures
            state@ == self@.begin(),
            self@.fits(state@),
    {
        self.enter(0, false)
    }

    /// The status of the registry once every entry has had its turn.
    pub fn status(&self, state: &RegistryState) -> (status: Option<Status>)
        ensures
            status == self@.status(state@),
    {
        if state.index < self.entries.len() {
            None
        } else {
            Some(Status::of_failed(state.failed))
        }
    }

    /// What the registry waits for in `state`; nothing once it rests.
    pub fn request(&self, state: &RegistryState) -> (request: Option<Request>)
        ensures
            request_view(request) == self@.request(state@),
            self@.fits(state@) ==> (request is None <==> self@.rested(state@)),
    {
        if state.index >= self.entries.len() {
            return None;
        }
        let entry = &self.entries[state.index];
        match &state.entry {
            SetupState::Rested(status) => Some(
                Request::Report { status: *status, subject: entry.get_description().clone() },
            ),
            _ => entry.request(&state.entry),
        }
    }

    /// One step of the registry's run: where it stands after `reply`.
    /// The entry in turn takes its own step, and is pruned in it where
    /// that step finds it prepared.
    pub fn execute(&mut self, host: &DistributionType, state: RegistryState, reply: &Reply) -> (next:
        RegistryState)
        ensures
            next@ == old(self)@.execute(*host, state@, reply@),
            final(self)@ == old(self)@.after_execute(*host, state@, reply@),
            old(self)@.fits(state@) ==> final(self)@.fits(next@),
    {
        if state.index >= self.entries.len() {
            return state;
        }
        let RegistryState { index, failed, entry } = state;
        match (entry, reply) {
            (SetupState::Rested(status), Reply::Done) => {
                assert(self@.entries =~= old(self)@.after_execute(*host, state@, reply@).entries);
                self.enter(index + 1, failed || status == Status::Failure)
            },
            (SetupState::Rested(status), _) => {
                assert(self@.entries =~= old(self)@.after_execute(*host, state@, reply@).entries);
                RegistryState { index, failed, entry: SetupState::Rested(status) }
            },
            (entry, _) => {
                let next = self.entries[index].setup(host, entry, reply);
                assert(self@.entries =~= old(self)@.after_execute(*host, state@, reply@).entries);
                RegistryState { index, failed, entry: next }
            },
        }
    }
}

} // verus!
