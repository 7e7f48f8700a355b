use crate::batch::{Batch, BatchState};
use crate::config::config_item::Config;
use crate::distribution::DistributionType;
use crate::protocol::{request_view, Reply, Request};
use crate::traits::Repository;
use crate::utils::status::Status;
use vstd::prelude::*;

verus! {

/// Configuration units that are applied one after another.
#[derive(PartialEq, Eq, Debug)]
pub struct ConfigRepository {
    configs: Vec<Config>,
}

impl Repository<Config> for ConfigRepository {
    closed spec fn items(&self) -> Seq<Config> {
        self.configs@
    }

    fn new() -> (repository: Self) {
        ConfigRepository { configs: Vec::new() }
    }

    fn add(&mut self, item: Config) {
        self.configs.push(item);
    }
}

impl ConfigRepository {
    /// The configurations, in the order in which they were added.
    pub fn configs(&self) -> (configs: &Vec<Config>)
        ensures
            configs@ == self.items(),
    {
        &self.configs
    }

    /// The configurations as a batch.
    pub open spec fn batch(&self) -> Batch {
        Batch::of(self.items())
    }

    /// The state in which applying the configurations begins.
    pub fn begin(&self, host: &DistributionType) -> (state: BatchState)
        ensures
            state@ == self.batch().begin(*host),
            self.batch().fits(state@),
    {
        crate::batch::begin(&self.configs, host)
    }

    /// What the repository waits for in `state`.
    pub fn request(&self, state: &BatchState) -> (request: Option<Request>)
        ensures
            request_view(request) == self.batch().request(state@),
            self.batch().fits(state@) ==> (request is None <==> self.batch().rested(state@)),
    {
        crate::batch::request(&self.configs, state)
    }

    /// One step of applying the configurations: where the repository
    /// stands after `reply`. Every configuration gets its turn; the
    /// repository comes to `Failure` if one of them failed, else to `Success`.
    pub fn run(&self, host: &DistributionType, state: BatchState, reply: &Reply) -> (next:
        BatchState)
        ensures
            next@ == self.batch().advance(*host, state@, reply@),
            self.batch().fits(state@) ==> self.batch().fits(next@),
    {
        crate::batch::advance(&self.configs, host, state, reply)
    }

    /// The status of the repository once every configuration has had its turn.
    pub fn status(&self, state: &BatchState) -> (status: Option<Status>)
        ensures
            status == self.batch().status(state@),
    {
        crate::batch::status(&self.configs, state)
    }
}

} // verus!
