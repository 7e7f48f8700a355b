//! A declarative setup executor: the engine that decides, step by step, what
//! a registry of setup entries asks of the operating system, and what status
//! each unit rests with once the answers are in.
//!
//! The library never touches the operating system itself. Every unit is a
//! small state machine: it hands out a request, takes the reply, and moves
//! on. A driver performs the requests.

pub mod batch;
pub mod command;
pub mod config;
pub mod distribution;
pub mod laws;
pub mod process;
pub mod protocol;
pub mod setup;
pub mod traits;
pub mod unit;
pub mod utils;

pub use command::{CommandFactory, CommandRepository, CommandStruct, Shell};
pub use config::{Config, ConfigRepository};
pub use distribution::DistributionType;
pub use setup::{SetupEntry, SetupRegistry};
pub use traits::{CommandRunner, Configurator, ErrorHandler, Repository};
pub use utils::{Color, Status};
