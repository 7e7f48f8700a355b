//! Command units: one shell line each, with the shell that runs it.

mod command_factory;
mod command_repository;
mod command_struct;
pub mod shell;

pub use command_factory::CommandFactory;
pub use command_repository::CommandRepository;
pub use command_struct::{string_view, CommandStruct, CommandView};
pub use shell::Shell;
