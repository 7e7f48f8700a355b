use crate::batch::{Batch, BatchState, BatchView};
use crate::command::{string_view, CommandStruct, CommandView};
use crate::config::{Config, ConfigView};
use crate::distribution::DistributionType;
use crate::process::{probe_of, Invocation};
use crate::protocol::{request_view, Reply, ReplyView, Request, RequestView};
use crate::setup::setup_item::{PreparationState, PreparationView, SetupItem, SetupItemView};
use crate::traits::executable_setup::ExecutableSetup;
use crate::unit::UnitState;
use crate::utils::status::Status;
use crate::utils::text::text_view;
use vstd::prelude::*;

verus! {

/// A setup entry: a guard check, the commands that bring the entry about,
/// the configurations that follow them, and what has to be there before.
#[derive(PartialEq, Eq, Debug)]
pub struct SetupEntry {
    check: Option<String>,
    commands: Vec<CommandStruct>,
    configs: Option<Vec<Config>>,
    setup: Option<SetupItem>,
    description: String,
}

/// A setup entry as a mathematical value.
pub struct SetupEntryView {
    /// The guard: where its probe is satisfied, no command is run.
    pub check: Option<Seq<char>>,
    /// The commands, in the order in which they run.
    pub commands: Seq<CommandView>,
    /// The configurations, in the order in which they are applied.
    pub configs: Option<Seq<ConfigView>>,
    /// What has to be there before the entry runs.
    pub setup: Option<SetupItemView>,
    /// What the entry is, in words.
    pub description: Seq<char>,
}

/// Where the run of an entry stands.
#[derive(PartialEq, Eq, Debug)]
pub enum SetupState {
    /// The entry is being announced.
    Announcing,
    /// What has to be there before the entry runs is being seen to.
    Preparing(PreparationState),
    /// The probe of the guard is out.
    Guard,
    /// The commands are running.
    Commands(BatchState),
    /// The configurations are being applied.
    Configs(BatchState),
    /// The entry rests with this status.
    Rested(Status),
}

/// A [`SetupState`] as a mathematical value.
pub enum SetupStateView {
    Announcing,
    Preparing(PreparationView),
    Guard,
    Commands(BatchView),
    Configs(BatchView),
    Rested(Status),
}

impl View for SetupState {
    type V = SetupStateView;

    open spec fn view(&self) -> SetupStateView {
        match self {
            SetupState::Announcing => SetupStateView::Announcing,
            SetupState::Preparing(preparation) => SetupStateView::Preparing(preparation@),
            SetupState::Guard => SetupStateView::Guard,
            SetupState::Commands(batch) => SetupStateView::Commands(batch@),
            SetupState::Configs(batch) => SetupStateView::Configs(batch@),
            SetupState::Rested(status) => SetupStateView::Rested(*status),
        }
    }
}

/// The views of `commands`, in order.
pub open spec fn command_views(commands: Seq<CommandStruct>) -> Seq<CommandView> {
    Seq::new(commands.len(), |i: int| commands[i]@)
}

/// The views of `configs`, in order.
pub open spec fn config_views(configs: Seq<Config>) -> Seq<ConfigView> {
    Seq::new(configs.len(), |i: int| configs[i]@)
}

/// The views of configurations that may be absent.
pub open spec fn configs_view(configs: Option<Vec<Config>>) -> Option<Seq<ConfigView>> {
    match configs {
        Some(configs) => Some(config_views(configs@)),
        None => None,
    }
}

/// The view of preconditions that may be absent.
pub open spec fn item_view(item: Option<SetupItem>) -> Option<SetupItemView> {
    match item {
        Some(item) => Some(item@),
        None => None,
    }
}

/// The commands that apply to `host`.
pub open spec fn applies_to(host: DistributionType) -> spec_fn(CommandView) -> bool {
    |command: CommandView| !command.should_skip(host)
}

impl SetupEntryView {
    /// The entry with no command left that does not apply to `host`; the
    /// commands that stay keep their order.
    pub open spec fn pruned(self, host: DistributionType) -> SetupEntryView {
        SetupEntryView { commands: self.commands.filter(applies_to(host)), ..self }
    }

    /// The commands as a batch.
    pub open spec fn command_batch(self) -> Batch {
        Batch { plans: Seq::new(self.commands.len(), |i: int| self.commands[i].plan()) }
    }

    /// The configurations as a batch; an empty one where the entry has none.
    pub open spec fn config_batch(self) -> Batch {
        match self.configs {
            Some(configs) => Batch { plans: Seq::new(configs.len(), |i: int| configs[i].plan()) },
            None => Batch { plans: Seq::empty() },
        }
    }

    /// Where the entry stands when the configurations are in `batch`: at
    /// rest once they are, with `Failure` if one of them failed.
    pub open spec fn after_configs(self, batch: BatchView) -> SetupStateView {
        match self.config_batch().status(batch) {
            Some(status) => SetupStateView::Rested(status),
            None => SetupStateView::Configs(batch),
        }
    }

    /// Where the entry stands when it turns to its configurations.
    pub open spec fn enter_configs(self, host: DistributionType) -> SetupStateView {
        self.after_configs(self.config_batch().begin(host))
    }

    /// Where the entry stands when the commands are in `batch`. Once they
    /// rest, a failure among them is the entry's failure, and no
    /// configuration is looked at; else the configurations follow.
    pub open spec fn after_commands(self, host: DistributionType, batch: BatchView)
        -> SetupStateView {
        match self.command_batch().status(batch) {
            Some(Status::Failure) => SetupStateView::Rested(Status::Failure),
            Some(_) => self.enter_configs(host),
            None => SetupStateView::Commands(batch),
        }
    }

    /// Where the entry stands when it turns to its commands.
    pub open spec fn enter_commands(self, host: DistributionType) -> SetupStateView {
        self.after_commands(host, self.command_batch().begin(host))
    }

    /// Where the entry stands when what it needs is there: at its guard,
    /// or at its commands where it has none.
    pub open spec fn enter_guard(self, host: DistributionType) -> SetupStateView {
        if self.check is Some {
            SetupStateView::Guard
        } else {
            self.enter_commands(host)
        }
    }

    /// Where the entry stands when its preparation is in `preparation`. A
    /// failed preparation is the entry's failure, and nothing is run. Once
    /// everything is there, the entry is pruned, and turns to its guard.
    pub open spec fn after_preparation(self, host: DistributionType, preparation: PreparationView)
        -> SetupStateView {
        match preparation {
            PreparationView::Ready => self.pruned(host).enter_guard(host),
            PreparationView::Failed => SetupStateView::Rested(Status::Failure),
            _ => SetupStateView::Preparing(preparation),
        }
    }

    /// Where the entry stands once it is announced.
    pub open spec fn enter_preparation(self, host: DistributionType) -> SetupStateView {
        match self.setup {
            Some(item) => self.after_preparation(host, item.begin()),
            None => self.pruned(host).enter_guard(host),
        }
    }

    /// How many requests the entry may still make, at most.
    pub open spec fn remaining(self, state: SetupStateView) -> nat {
        let configs = 5 * self.config_batch().plans.len();
        let commands = 5 * self.command_batch().plans.len();
        let preparation = match self.setup {
            Some(item) => 4 * item.variables() + 2,
            None => 0,
        };
        match state {
            SetupStateView::Announcing => preparation + commands + configs + 2,
            SetupStateView::Preparing(state) => match self.setup {
                Some(item) => item.remaining(state) + commands + configs + 1,
                None => 0,
            },
            SetupStateView::Guard => commands + configs + 1,
            SetupStateView::Commands(batch) => self.command_batch().remaining(batch) + configs,
            SetupStateView::Configs(batch) => self.config_batch().remaining(batch),
            SetupStateView::Rested(_) => 0,
        }
    }

    /// The states that a run of the entry can be in.
    pub open spec fn fits(self, state: SetupStateView) -> bool {
        match state {
            SetupStateView::Announcing => true,
            SetupStateView::Preparing(preparation) => {
                &&& self.setup matches Some(item)
                &&& item.fits(preparation)
                &&& !(preparation is Ready)
                &&& !(preparation is Failed)
            },
            SetupStateView::Guard => self.check is Some,
            SetupStateView::Commands(batch) => {
                &&& self.command_batch().fits(batch)
                &&& !self.command_batch().rested(batch)
            },
            SetupStateView::Configs(batch) => {
                &&& self.config_batch().fits(batch)
                &&& !self.config_batch().rested(batch)
            },
            SetupStateView::Rested(status) => status == Status::Success || status
                == Status::Failure,
        }
    }

    /// What the entry waits for in `state`; nothing once it rests.
    pub open spec fn request(self, state: SetupStateView) -> Option<RequestView> {
        match state {
            SetupStateView::Announcing => Some(
                RequestView::Report { status: Status::Running, subject: self.description },
            ),
            SetupStateView::Preparing(preparation) => match self.setup {
                Some(item) => item.request(preparation),
                None => None,
            },
            SetupStateView::Guard => match self.check {
                Some(check) => Some(RequestView::Invoke(probe_of(check))),
                None => None,
            },
            SetupStateView::Commands(batch) => self.command_batch().request(batch),
            SetupStateView::Configs(batch) => self.config_batch().request(batch),
            SetupStateView::Rested(_) => None,
        }
    }

    /// One step of the command phase.
    pub open spec fn run_commands(self, host: DistributionType, batch: BatchView, reply: ReplyView)
        -> SetupStateView {
        self.after_commands(host, self.command_batch().advance(host, batch, reply))
    }

    /// One step of the configuration phase.
    pub open spec fn run_configs(self, host: DistributionType, batch: BatchView, reply: ReplyView)
        -> SetupStateView {
        self.after_configs(self.config_batch().advance(host, batch, reply))
    }

    /// Where the entry stands after `reply`, once it is prepared.
    ///
    /// The entry probes its guard. A satisfied guard takes it past its
    /// commands, straight to its configurations. Else all its commands run;
    /// then, unless one of them failed, all its configurations. A state
    /// that waits for nothing, and a reply that does not answer what is
    /// waited for, change nothing; nor does any reply while the entry is
    /// not yet prepared.
    pub open spec fn run(self, host: DistributionType, state: SetupStateView, reply: ReplyView)
        -> SetupStateView {
        match state {
            SetupStateView::Announcing => state,
            SetupStateView::Preparing(_) => state,
            SetupStateView::Guard => match (self.check, reply) {
                (Some(_), ReplyView::Outcome(outcome)) => if outcome.satisfies_check() {
                    self.enter_configs(host)
                } else {
                    self.enter_commands(host)
                },
                _ => state,
            },
            SetupStateView::Commands(batch) => self.run_commands(host, batch, reply),
            SetupStateView::Configs(batch) => self.run_configs(host, batch, reply),
            SetupStateView::Rested(_) => state,
        }
    }

    /// Where the entry stands after `reply`, through its whole life.
    ///
    /// Once announced, the entry sees to what it needs. When that is
    /// there, it is pruned for the host, and runs: guard, commands,
    /// configurations. Where it cannot be made to be there, the entry
    /// rests with `Failure`, unpruned.
    pub open spec fn setup(self, host: DistributionType, state: SetupStateView, reply: ReplyView)
        -> SetupStateView {
        match state {
            SetupStateView::Announcing => match reply {
                ReplyView::Done => self.enter_preparation(host),
                _ => state,
            },
            SetupStateView::Preparing(preparation) => match self.setup {
                Some(item) => self.after_preparation(host, item.advance(preparation, reply)),
                None => state,
            },
            _ => self.run(host, state, reply),
        }
    }

    /// Whether the step that `reply` makes in `state` is the one in which
    /// the entry is pruned: the step that finds everything there that the
    /// entry needs.
    pub open spec fn prunes(self, state: SetupStateView, reply: ReplyView) -> bool {
        match state {
            SetupStateView::Announcing => reply is Done && match self.setup {
                Some(item) => item.begin() is Ready,
                None => true,
            },
            SetupStateView::Preparing(preparation) => match self.setup {
                Some(item) => item.advance(preparation, reply) is Ready,
                None => false,
            },
            _ => false,
        }
    }

    /// What `reply` in `state` leaves of the entry: the entry pruned for
    /// the host where the step is the pruning one, else the entry as it was.
    pub open spec fn after_setup(
        self,
        host: DistributionType,
        state: SetupStateView,
        reply: ReplyView,
    ) -> SetupEntryView {
        if self.prunes(state, reply) {
            self.pruned(host)
        } else {
            self
        }
    }

    /// What is left of the entry, and where it stands, after a driver has
    /// handed it `replies`, one after another, from `state` on.
    pub open spec fn run_through(
        self,
        host: DistributionType,
        state: SetupStateView,
        replies: Seq<ReplyView>,
    ) -> (SetupEntryView, SetupStateView)
        decreases replies.len(),
    {
        if replies.len() == 0 {
            (self, state)
        } else {
            self.after_setup(host, state, replies.first()).run_through(
                host,
                self.setup(host, state, replies.first()),
                replies.drop_first(),
            )
        }
    }
}

impl SetupEntryView {
    /// The statuses that the commands of the entry have rested with while
    /// a driver handed it `replies` from `state` on, in the order of the
    /// commands: one for each command whose report the driver has written.
    pub open spec fn reported_commands(
        self,
        host: DistributionType,
        state: SetupStateView,
        replies: Seq<ReplyView>,
    ) -> Seq<Status>
        decreases replies.len(),
    {
        if replies.len() == 0 {
            Seq::empty()
        } else {
            let later = self.reported_commands(
                host,
                self.run(host, state, replies.first()),
                replies.drop_first(),
            );
            match (state, replies.first()) {
                (SetupStateView::Commands(batch), ReplyView::Done) => match batch.unit {
                    UnitState::Rested(status) if !self.command_batch().rested(batch) => seq![
                        status,
                    ] + later,
                    _ => later,
                },
                _ => later,
            }
        }
    }

    /// The statuses that the configurations of the entry have rested with
    /// on that way, in their order: one for each configuration whose
    /// report the driver has written.
    pub open spec fn reported_configs(
        self,
        host: DistributionType,
        state: SetupStateView,
        replies: Seq<ReplyView>,
    ) -> Seq<Status>
        decreases replies.len(),
    {
        if replies.len() == 0 {
            Seq::empty()
        } else {
            let later = self.reported_configs(
                host,
                self.run(host, state, replies.first()),
                replies.drop_first(),
            );
            match (state, replies.first()) {
                (SetupStateView::Configs(batch), ReplyView::Done) => match batch.unit {
                    UnitState::Rested(status) if !self.config_batch().rested(batch) => seq![
                        status,
                    ] + later,
                    _ => later,
                },
                _ => later,
            }
        }
    }
}

impl SetupStateView {
    pub open spec fn status(self) -> Option<Status> {
        match self {
            SetupStateView::Rested(status) => Some(status),
            _ => None,
        }
    }
}

impl SetupState {
    /// The status that the entry rests with, once it does.
    pub fn status(&self) -> (status: Option<Status>)
        ensures
            status == self@.status(),
    {
        match self {
            SetupState::Rested(status) => Some(*status),
            _ => None,
        }
    }
}

impl View for SetupEntry {
    type V = SetupEntryView;

    closed spec fn view(&self) -> SetupEntryView {
        SetupEntryView {
            check: string_view(self.check),
            commands: command_views(self.commands@),
            configs: configs_view(self.configs),
            setup: item_view(self.setup),
            description: self.description@,
        }
    }
}

/// What stays of a one-element sequence: the element, if it applies.
proof fn lemma_filter_one(command: CommandView, host: DistributionType)
    ensures
        seq![command].filter(applies_to(host)) == if command.should_skip(host) {
            Seq::<CommandView>::empty()
        } else {
            seq![command]
        },
{
    reveal_with_fuel(Seq::filter, 2);
    assert(seq![command].drop_last() =~= Seq::<CommandView>::empty());
    assert(Seq::<CommandView>::empty().push(command) =~= seq![command]);
}

impl SetupEntry {
    /// An entry with these parts.
    pub fn new(
        check: Option<&str>,
        commands: Vec<CommandStruct>,
        configs: Option<Vec<Config>>,
        setup: Option<SetupItem>,
        description: &str,
    ) -> (entry: SetupEntry)
        ensures
            entry@ == (SetupEntryView {
                check: text_view(check),
                commands: command_views(commands@),
                configs: configs_view(configs),
                setup: item_view(setup),
                description: description@,
            }),
    {
        let check = match check {
            Some(check) => Some(check.to_owned()),
            None => None,
        };
        SetupEntry { check, commands, configs, setup, description: description.to_owned() }
    }

    /// What the entry is, in words.
    pub fn get_description(&self) -> (description: &String)
        ensures
            description@ == self@.description,
    {
        &self.description
    }

    /// The guard of the entry, if it has one.
    pub fn check(&self) -> (check: Option<&str>)
        ensures
            text_view(check) == self@.check,
    {
        match &self.check {
            Some(check) => Some(check.as_str()),
            None => None,
        }
    }

    /// The commands of the entry, in the order in which they run.
    pub fn commands(&self) -> (commands: &Vec<CommandStruct>)
        ensures
            command_views(commands@) == self@.commands,
    {
        &self.commands
    }

    /// The configurations of the entry, in the order in which they are
    /// applied.
    pub fn configs(&self) -> (configs: Option<&Vec<Config>>)
        ensures
            configs is Some == self@.configs is Some,
            configs matches Some(configs) ==> Some(config_views(configs@)) == self@.configs,
    {
        self.configs.as_ref()
    }

    /// What has to be there before the entry runs.
    pub fn preconditions(&self) -> (item: Option<&SetupItem>)
        ensures
            item is Some == self@.setup is Some,
            item matches Some(item) ==> Some(item@) == self@.setup,
    {
        self.setup.as_ref()
    }

    /// Takes the command at `index` out of the entry; the others keep
    /// their order.
    pub fn remove_command(&mut self, index: usize)
        requires
            index < old(self)@.commands.len(),
        ensures
            final(self)@ == (SetupEntryView {
                commands: old(self)@.commands.remove(index as int),
                ..old(self)@
            }),
    {
        self.commands.remove(index);
        assert(command_views(self.commands@) =~= command_views(old(self).commands@).remove(
            index as int,
        ));
    }

    /// Prunes the entry for `host`: takes out, in place, every command
    /// whose distribution restriction does not match it.
    pub fn clear_commands(&mut self, host: &DistributionType)
        ensures
            final(self)@ == old(self)@.pruned(*host),
    {
        let ghost before = self@.commands;
        let ghost keep = applies_to(*host);
        let mut index = self.commands.len();
        assert(before.take(index as int) =~= before);
        assert(before.skip(index as int) =~= Seq::<CommandView>::empty());
        assert(before.skip(index as int).filter(keep) =~= Seq::<CommandView>::empty()) by {
            reveal_with_fuel(Seq::filter, 1);
        }
        while index > 0
            invariant
                index <= before.len(),
                before == old(self)@.commands,
                keep == applies_to(*host),
                self@ == (SetupEntryView {
                    commands: before.take(index as int) + before.skip(index as int).filter(keep),
                    ..old(self)@
                }),
            decreases index,
        {
            index -= 1;
            let ghost current = self@.commands;
            let ghost tail = before.skip(index + 1).filter(keep);
            proof {
                assert(before.skip(index as int) =~= seq![before[index as int]] + before.skip(
                    index + 1,
                ));
                Seq::filter_distributes_over_add(
                    seq![before[index as int]],
                    before.skip(index + 1),
                    keep,
                );
                lemma_filter_one(before[index as int], *host);
                assert(current.len() == self.commands@.len());
                assert(before.take(index + 1).len() == index + 1);
                assert(current[index as int] == before[index as int]);
            }
            if self.commands[index].should_skip(host) {
                self.remove_command(index);
                assert(self@.commands =~= before.take(index as int) + before.skip(
                    index as int,
                ).filter(keep));
            } else {
                assert(self@.commands =~= before.take(index as int) + before.skip(
                    index as int,
                ).filter(keep));
            }
        }
        assert(before.skip(0) =~= before);
        assert(before.take(0) + before.filter(keep) =~= before.filter(keep));
    }

    /// The commands as a batch are the batch of the commands.
    proof fn lemma_command_batch(&self)
        ensures
            Batch::of(self.commands@) == self@.command_batch(),
    {
        assert(Batch::of(self.commands@).plans =~= self@.command_batch().plans);
    }

    fn after_configs(&self, batch: BatchState) -> (state: SetupState)
        ensures
            state@ == self@.after_configs(batch@),
            self@.config_batch().fits(batch@) ==> self@.fits(state@),
    {
        let status = match &self.configs {
            Some(configs) => {
                assert(Batch::of(configs@).plans =~= self@.config_batch().plans);
                crate::batch::status(configs, &batch)
            },
            None => Some(Status::of_failed(batch.failed)),
        };
        match status {
            Some(status) => SetupState::Rested(status),
            None => SetupState::Configs(batch),
        }
    }

    fn enter_configs(&self, host: &DistributionType) -> (state: SetupState)
        ensures
            state@ == self@.enter_configs(*host),
            self@.fits(state@),
    {
        let batch = match &self.configs {
            Some(configs) => {
                assert(Batch::of(configs@).plans =~= self@.config_batch().plans);
                crate::batch::begin(configs, host)
            },
            None => BatchState {
                index: 0,
                failed: false,
                unit: UnitState::Rested(Status::Success),
            },
        };
        self.after_configs(batch)
    }

    fn after_commands(&self, host: &DistributionType, batch: BatchState) -> (state: SetupState)
        ensures
            state@ == self@.after_commands(*host, batch@),
            self@.command_batch().fits(batch@) ==> self@.fits(state@),
    {
        proof {
            self.lemma_command_batch();
        }
        match crate::batch::status(&self.commands, &batch) {
            Some(Status::Failure) => SetupState::Rested(Status::Failure),
            Some(_) => self.enter_configs(host),
            None => SetupState::Commands(batch),
        }
    }

    fn enter_commands(&self, host: &DistributionType) -> (state: SetupState)
        ensures
            state@ == self@.enter_commands(*host),
            self@.fits(state@),
    {
        proof {
            self.lemma_command_batch();
        }
        self.after_commands(host, crate::batch::begin(&self.commands, host))
    }

    fn enter_guard(&self, host: &DistributionType) -> (state: SetupState)
        ensures
            state@ == self@.enter_guard(*host),
            self@.fits(state@),
    {
        if self.check.is_some() {
            SetupState::Guard
        } else {
            self.enter_commands(host)
        }
    }

    /// Prunes the entry, and turns to its guard.
    fn prune_and_enter(&mut self, host: &DistributionType) -> (state: SetupState)
        ensures
            final(self)@ == old(self)@.pruned(*host),
            state@ == old(self)@.pruned(*host).enter_guard(*host),
            final(self)@.fits(state@),
    {
        self.clear_commands(host);
        self.enter_guard(host)
    }

    fn after_preparation(&mut self, host: &DistributionType, preparation: PreparationState) -> (state:
        SetupState)
        ensures
            state@ == old(self)@.after_preparation(*host, preparation@),
            final(self)@ == if preparation@ is Ready {
                old(self)@.pruned(*host)
            } else {
                old(self)@
            },
            (old(self)@.setup matches Some(item) && item.fits(preparation@)) ==> final(self)@.fits(
                state@,
            ),
    {
        match preparation {
            PreparationState::Ready => self.prune_and_enter(host),
            PreparationState::Failed => SetupState::Rested(Status::Failure),
            _ => SetupState::Preparing(preparation),
        }
    }

    /// The state in which the life of an entry begins.
    pub fn begin() -> (state: SetupState)
        ensures
            state@ == SetupStateView::Announcing,
    {
        SetupState::Announcing
    }

    /// What the entry waits for in `state`; nothing once it rests.
    pub fn request(&self, state: &SetupState) -> (request: Option<Request>)
        ensures
            request_view(request) == self@.request(state@),
            self@.fits(state@) ==> (request is None <==> state@ is Rested),
    {
        match state {
            SetupState::Announcing => Some(
                Request::Report { status: Status::Running, subject: self.description.clone() },
            ),
            SetupState::Preparing(preparation) => match &self.setup {
                Some(item) => item.request(preparation),
                None => None,
            },
            SetupState::Guard => match &self.check {
                Some(check) => Some(Request::Invoke(Invocation::probe(check.as_str()))),
                None => None,
            },
            SetupState::Commands(batch) => {
                proof {
                    self.lemma_command_batch();
                }
                crate::batch::request(&self.commands, batch)
            },
            SetupState::Configs(batch) => match &self.configs {
                Some(configs) => {
                    assert(Batch::of(configs@).plans =~= self@.config_batch().plans);
                    crate::batch::request(configs, batch)
                },
                None => None,
            },
            SetupState::Rested(_) => None,
        }
    }

    /// One step of the command phase: every command gets its turn, and the
    /// phase comes to `Failure` if one of them failed.
    pub fn run_commands(&self, host: &DistributionType, batch: BatchState, reply: &Reply) -> (next:
        SetupState)
        ensures
            next@ == self@.run_commands(*host, batch@, reply@),
            self@.command_batch().fits(batch@) ==> self@.fits(next@),
    {
        proof {
            self.lemma_command_batch();
        }
        self.after_commands(host, crate::batch::advance(&self.commands, host, batch, reply))
    }

    /// One step of the configuration phase: every configuration gets its
    /// turn, and the phase comes to `Failure` if one of them failed.
    pub fn run_configs(&self, host: &DistributionType, batch: BatchState, reply: &Reply) -> (next:
        SetupState)
        ensures
            next@ == self@.run_configs(*host, batch@, reply@),
            self@.config_batch().fits(batch@) ==> self@.fits(next@),
    {
        let batch = match &self.configs {
            Some(configs) => {
                assert(Batch::of(configs@).plans =~= self@.config_batch().plans);
                crate::batch::advance(configs, host, batch, reply)
            },
            None => batch,
        };
        self.after_configs(batch)
    }

    /// One step of the run of a prepared entry: where it stands after
    /// `reply`.
    pub fn run(&self, host: &DistributionType, state: SetupState, reply: &Reply) -> (next:
        SetupState)
        ensures
            next@ == self@.run(*host, state@, reply@),
            self@.fits(state@) ==> self@.fits(next@),
    {
        match state {
            SetupState::Announcing => state,
            SetupState::Preparing(_) => state,
            SetupState::Guard => match (&self.check, reply) {
                (Some(_), Reply::Outcome(outcome)) => {
                    if outcome.satisfies_check() {
                        self.enter_configs(host)
                    } else {
                        self.enter_commands(host)
                    }
                },
                _ => state,
            },
            SetupState::Commands(batch) => self.run_commands(host, batch, reply),
            SetupState::Configs(batch) => self.run_configs(host, batch, reply),
            SetupState::Rested(_) => state,
        }
    }
}

impl ExecutableSetup for SetupEntry {
    open spec fn spec_setup(
        entry: SetupEntryView,
        host: DistributionType,
        state: SetupStateView,
        reply: ReplyView,
    ) -> (SetupEntryView, SetupStateView) {
        (entry.after_setup(host, state, reply), entry.setup(host, state, reply))
    }

    open spec fn fits(entry: SetupEntryView, state: SetupStateView) -> bool {
        entry.fits(state)
    }

    fn setup(&mut self, host: &DistributionType, state: SetupState, reply: &Reply) -> (next:
        SetupState) {
        match state {
            SetupState::Announcing => match reply {
                Reply::Done => {
                    let preparation = match &self.setup {
                        Some(item) => item.begin(),
                        None => PreparationState::Ready,
                    };
                    self.after_preparation(host, preparation)
                },
                _ => state,
            },
            SetupState::Preparing(preparation) => {
                let preparation = match &self.setup {
                    Some(item) => item.advance(preparation, reply),
                    None => { return SetupState::Preparing(preparation); },
                };
                self.after_preparation(host, preparation)
            },
            _ => self.run(host, state, reply),
        }
    }
}

} // verus!
