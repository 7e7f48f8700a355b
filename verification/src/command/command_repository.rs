use crate::batch::{Batch, BatchState};
use crate::command::CommandStruct;
use crate::distribution::DistributionType;
use crate::protocol::{request_view, Reply, Request};
use crate::traits::Repository;
use crate::utils::status::Status;
use vstd::prelude::*;

verus! {

/// Command units that are run one after another.
#[derive(PartialEq, Eq, Debug)]
pub struct CommandRepository {
    commands: Vec<CommandStruct>,
}

impl Repository<CommandStruct> for CommandRepository {
    closed spec fn items(&self) -> Seq<CommandStruct> {
        self.commands@
    }

    fn new() -> (repository: Self) {
        CommandRepository { commands: Vec::new() }
    }

    fn add(&mut self, item: CommandStruct) {
        self.commands.push(item);
    }
}

impl CommandRepository {
    /// The commands, in the order in which they were added.
    pub fn commands(&self) -> (commands: &Vec<CommandStruct>)
        ensures
            commands@ == self.items(),
    {
        &self.commands
    }

    /// The commands as a batch.
    pub open spec fn batch(&self) -> Batch {
        Batch::of(self.items())
    }

    /// The state in which running the commands begins.
    pub fn begin(&self, host: &DistributionType) -> (state: BatchState)
        ensures
            state@ == self.batch().begin(*host),
            self.batch().fits(state@),
    {
        crate::batch::begin(&self.commands, host)
    }

    /// What the repository waits for in `state`.
    pub fn request(&self, state: &BatchState) -> (request: Option<Request>)
        ensures
            request_view(request) == self.batch().request(state@),
            self.batch().fits(state@) ==> (request is None <==> self.batch().rested(state@)),
    {
        crate::batch::request(&self.commands, state)
    }

    /// One step of running the commands: where the repository
    /// stands after `reply`. Every command gets its turn; the
    /// repository comes to `Failure` if one of them failed, else to `Success`.
    pub fn run(&self, host: &DistributionType, state: BatchState, reply: &Reply) -> (next:
        BatchState)
        ensures
            next@ == self.batch().advance(*host, state@, reply@),
            self.batch().fits(state@) ==> self.batch().fits(next@),
    {
        crate::batch::advance(&self.commands, host, state, reply)
    }

    /// The status of the repository once every command has had its turn.
    pub fn status(&self, state: &BatchState) -> (status: Option<Status>)
        ensures
            status == self.batch().status(state@),
    {
        crate::batch::status(&self.commands, state)
    }
}

} // verus!
