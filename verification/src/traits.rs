//! What the units of the engine have in common.

mod command_runner;
mod configurator;
mod error_handler;
pub mod executable_setup;
mod repository;

pub use command_runner::spec_after_run;
pub use command_runner::CommandRunner;
pub use command_runner::ProcessRunner;
pub use configurator::ConfigError;
pub use configurator::Configurator;
pub use error_handler::ErrorHandler;
pub use repository::Repository;
pub use executable_setup::ExecutableSetup;
